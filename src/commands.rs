//! The decisions of the developer command line that builds both firmware
//! images: which core a name means, where each core's crate lives, the
//! order of the `run` command's steps, and what a line of cargo's JSON
//! output says about the built executable.

use vstd::prelude::*;

verus! {

/// One of the two cores of the chip.
#[derive(Debug, Clone, Copy, PartialEq, Eq, Structural)]
pub enum Core {
    App,
    Net,
}

/// The lower-case form that `str::to_lowercase` gives.
pub uninterp spec fn lower_of(s: Seq<char>) -> Seq<char>;

/// Relies on `str::to_lowercase`: the result depends on the characters
/// alone.
#[verifier::external_body]
fn lowercase(s: &str) -> (r: String)
    ensures
        r@ == lower_of(s@),
{
    s.to_lowercase()
}

/// The core a lower-case name stands for: `app`, `a` or `application` for
/// the application core, `net`, `n` or `network` for the network core.
pub open spec fn core_named(name: Seq<char>) -> Option<Core> {
    if name == "app"@ || name == "a"@ || name == "application"@ {
        Some(Core::App)
    } else if name == "net"@ || name == "n"@ || name == "network"@ {
        Some(Core::Net)
    } else {
        None
    }
}

/// The subdirectory of the repository that holds a core's crate.
pub open spec fn build_dir(core: Core) -> Seq<char> {
    match core {
        Core::App => "/app-core/"@,
        Core::Net => "/net-core/"@,
    }
}

/// A name that is not one of the cores; `name` is its lower-case form.
pub struct UnknownCore {
    pub name: String,
}

impl Core {
    /// The core a name written in lower case stands for.
    pub fn from_lowercase(name: &str) -> (r: Option<Core>)
        ensures
            r == core_named(name@),
    {
        let n = String::from_str(name);
        proof {
            reveal_strlit("app");
            reveal_strlit("a");
            reveal_strlit("application");
            reveal_strlit("net");
            reveal_strlit("n");
            reveal_strlit("network");
        }
        if n == String::from_str("app") || n == String::from_str("a") || n == String::from_str(
            "application",
        ) {
            Some(Core::App)
        } else if n == String::from_str("net") || n == String::from_str("n") || n
            == String::from_str("network") {
            Some(Core::Net)
        } else {
            None
        }
    }

    /// Reads a core name in any letter case.
    pub fn parse(s: &str) -> (r: Result<Core, UnknownCore>)
        ensures
            core_named(lower_of(s@)) is Some ==> r == Ok::<Core, UnknownCore>(
                core_named(lower_of(s@))->Some_0,
            ),
            core_named(lower_of(s@)) is None ==> r is Err && r->Err_0.name@ == lower_of(s@),
    {
        let lower = lowercase(s);
        match Core::from_lowercase(lower.as_str()) {
            Some(core) => Ok(core),
            None => Err(UnknownCore { name: lower }),
        }
    }

    /// The directory of this core's crate under the repository root.
    pub fn get_build_path(&self, repo_root: &str) -> (r: String)
        ensures
            r@ == repo_root@ + build_dir(*self),
    {
        let root = String::from_str(repo_root);
        match self {
            Core::App => root.concat("/app-core/"),
            Core::Net => root.concat("/net-core/"),
        }
    }
}

/// A step of the `run` command.
#[derive(Debug, Clone, Copy, PartialEq, Eq, Structural)]
pub enum RunStep {
    /// Build the firmware of one core.
    Build(Core),
    /// Link the two images into one.
    Link,
    /// Nothing is left to do.
    Done,
}

/// The `run` command's steps, in order.
pub open spec fn run_step_at(k: nat) -> RunStep {
    if k == 0 {
        RunStep::Build(Core::App)
    } else if k == 1 {
        RunStep::Build(Core::Net)
    } else if k == 2 {
        RunStep::Link
    } else {
        RunStep::Done
    }
}

/// Progress through the `run` command. A failed step ends the command, so
/// only success moves it on.
pub struct RunPlan {
    position: u8,
}

impl RunPlan {
    /// How many steps have succeeded.
    pub closed spec fn position(&self) -> nat {
        self.position as nat
    }

    /// The step to perform now, in specifications.
    pub open spec fn current_spec(&self) -> RunStep {
        run_step_at(self.position())
    }

    /// The step to perform now.
    pub fn current(&self) -> (r: RunStep)
        ensures
            r == self.current_spec(),
    {
        if self.position == 0 {
            RunStep::Build(Core::App)
        } else if self.position == 1 {
            RunStep::Build(Core::Net)
        } else if self.position == 2 {
            RunStep::Link
        } else {
            RunStep::Done
        }
    }

    /// Records that the current step succeeded.
    pub fn advance(&mut self)
        ensures
            final(self).position() == if old(self).position() < 3 {
                old(self).position() + 1
            } else {
                old(self).position()
            },
    {
        if self.position < 3 {
            self.position = self.position + 1;
        }
    }
}

/// Starts the `run` command: build the application core, then the network
/// core, then link both images.
pub fn run() -> (r: RunPlan)
    ensures
        r.position() == 0,
        r.current_spec() == RunStep::Build(Core::App),
{
    RunPlan { position: 0 }
}

/// Links both images into one; with the images in place it has nothing
/// more to do.
pub fn link_elfs() -> (r: Result<(), ()>)
    ensures
        r is Ok,
{
    Ok(())
}

/// What a cargo message with `reason` and `executable` fields leaves as the
/// built executable, when `known` was known before: a compiler artifact that
/// names an executable replaces it, any other message keeps it.
pub open spec fn artifact_after(known: Option<Seq<char>>, reason: Option<Seq<char>>, executable: Option<Seq<char>>) -> Option<Seq<char>> {
    if reason == Some("compiler-artifact"@) && executable is Some {
        executable
    } else {
        known
    }
}

/// The view of an optional string.
pub open spec fn opt_view(s: Option<String>) -> Option<Seq<char>> {
    match s {
        Some(t) => Some(t@),
        None => None,
    }
}

/// The view of an optional string slice.
pub open spec fn opt_str_view(s: Option<&str>) -> Option<Seq<char>> {
    match s {
        Some(t) => Some(t@),
        None => None,
    }
}

/// Takes in one cargo message, given by its `reason` and `executable`
/// fields when they hold strings.
pub fn note_artifact(known: Option<String>, reason: Option<&str>, executable: Option<&str>) -> (r:
    Option<String>)
    ensures
        opt_view(r) == artifact_after(opt_view(known), opt_str_view(reason), opt_str_view(executable)),
{
    proof {
        reveal_strlit("compiler-artifact");
    }
    match (reason, executable) {
        (Some(why), Some(path)) => {
            if String::from_str(why) == String::from_str("compiler-artifact") {
                Some(String::from_str(path))
            } else {
                known
            }
        },
        _ => known,
    }
}

/// Whether a text is one JSON document, as `serde_json` reads it.
pub uninterp spec fn json_parses(s: Seq<char>) -> bool;

/// `serde_json::Value`, carried through opaque.
#[verifier::external_type_specification]
#[verifier::external_body]
pub struct ExJsonValue(serde_json::Value);

/// `serde_json::Error`, carried through opaque.
#[verifier::external_type_specification]
#[verifier::external_body]
pub struct ExJsonError(serde_json::Error);

/// Relies on `serde_json::from_str` into a `serde_json::Value`: whether it
/// succeeds depends on the text alone.
#[verifier::external_body]
fn parse_json(s: &str) -> (r: Result<serde_json::Value, serde_json::Error>)
    ensures
        r is Ok <==> json_parses(s@),
{
    serde_json::from_str::<serde_json::Value>(s)
}

/// Relies on `serde_json::Value::get` with a string key: the member of an
/// object, if it has one of that name.
#[verifier::external_body]
fn json_get<'a>(v: &'a serde_json::Value, key: &str) -> (r: Option<&'a serde_json::Value>) {
    v.get(key)
}

/// Relies on `serde_json::Value::as_str`: the text of a JSON string.
#[verifier::external_body]
fn json_as_str(v: &serde_json::Value) -> (r: Option<&str>) {
    v.as_str()
}

/// A cargo message that is not JSON.
#[derive(Debug, Clone, Copy, PartialEq, Eq, Structural)]
pub enum MessageError {
    NotJson,
}

/// Reads one line of `cargo build --message-format=json` output and updates
/// the known executable: a line that is not JSON is an error; otherwise the
/// result is either the executable known before or the one the line names.
pub fn scan_cargo_message(line: &str, known: Option<String>) -> (r: Result<
    Option<String>,
    MessageError,
>)
    ensures
        r is Err <==> !json_parses(line@),
        r is Err ==> r == Err::<Option<String>, MessageError>(MessageError::NotJson),
        r is Ok ==> opt_view(r->Ok_0) == opt_view(known) || r->Ok_0 is Some,
{
    let v = match parse_json(line) {
        Ok(v) => v,
        Err(_) => {
            return Err(MessageError::NotJson);
        },
    };
    let reason = match json_get(&v, "reason") {
        Some(f) => json_as_str(f),
        None => None,
    };
    let executable = match json_get(&v, "executable") {
        Some(f) => json_as_str(f),
        None => None,
    };
    Ok(note_artifact(known, reason, executable))
}

} // verus!
