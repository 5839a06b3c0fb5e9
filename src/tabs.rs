//! The pages of the desktop control panel.

use vstd::prelude::*;

verus! {

/// A page of the control panel.
#[derive(Debug, Clone, Copy, PartialEq, Eq, Structural)]
pub enum Tab {
    DeviceState,
    Streaming,
    Recordings,
    Firmware,
}

/// The pages in the order the navigation bar shows them.
pub open spec fn tab_order() -> Seq<Tab> {
    seq![Tab::DeviceState, Tab::Streaming, Tab::Recordings, Tab::Firmware]
}

/// The title of a page.
pub open spec fn tab_title(t: Tab) -> Seq<char> {
    match t {
        Tab::DeviceState => "Device State"@,
        Tab::Streaming => "Streaming"@,
        Tab::Recordings => "Recordings"@,
        Tab::Firmware => "Firmware"@,
    }
}

impl Tab {
    /// The title shown on the page's button.
    pub fn name(&self) -> (r: &'static str)
        ensures
            r@ == tab_title(*self),
    {
        match self {
            Tab::DeviceState => "Device State",
            Tab::Streaming => "Streaming",
            Tab::Recordings => "Recordings",
            Tab::Firmware => "Firmware",
        }
    }

    /// Every page, in navigation order.
    pub fn in_order() -> (r: Vec<Tab>)
        ensures
            r@ == tab_order(),
    {
        let r = vec![Tab::DeviceState, Tab::Streaming, Tab::Recordings, Tab::Firmware];
        assert(r@ =~= tab_order());
        r
    }
}

} // verus!
