use ipc_common::tabs::Tab;

#[test]
fn tab_titles() {
    assert_eq!(Tab::DeviceState.name(), "Device State");
    assert_eq!(Tab::Streaming.name(), "Streaming");
    assert_eq!(Tab::Recordings.name(), "Recordings");
    assert_eq!(Tab::Firmware.name(), "Firmware");
}

#[test]
fn tabs_in_navigation_order() {
    assert_eq!(
        Tab::in_order(),
        vec![Tab::DeviceState, Tab::Streaming, Tab::Recordings, Tab::Firmware]
    );
}
