//! Which commands bring the bootstrap page up in the user's browser, and
//! which try to close it again.
//!
//! Nothing is run here. A command is handed out as a program and its
//! arguments; whoever runs it does so on a best effort and looks away if it
//! fails.

use crate::text::same_text;
use vstd::prelude::*;

verus! {

/// The address of the bootstrap page, as the browser is given it.
pub const PAGE_URL: &'static str = "http://localhost:3030";

/// How long to wait before the browser is sent to the page, in
/// milliseconds, so that the listener is up by then.
pub const LAUNCH_DELAY_MS: u64 = 500;

/// The kind of system that the handshake runs on.
#[derive(Clone, Copy, Debug, PartialEq, Eq, Structural)]
pub enum Platform {
    Windows,
    MacOs,
    Linux,
    /// A system for which no command is known.
    Other,
}

/// A program and the arguments to run it with.
#[derive(Debug, PartialEq, Eq)]
pub struct Invocation {
    pub program: &'static str,
    pub arguments: Vec<&'static str>,
}

/// An invocation as text.
pub struct InvocationView {
    pub program: Seq<char>,
    pub arguments: Seq<Seq<char>>,
}

impl View for Invocation {
    type V = InvocationView;

    open spec fn view(&self) -> InvocationView {
        InvocationView {
            program: self.program@,
            arguments: self.arguments@.map_values(|argument: &'static str| argument@),
        }
    }
}

/// The platform that goes by `name`, where `name` is what the system calls
/// itself: `windows`, `macos` or `linux`, in lower case.
pub open spec fn platform_named(name: Seq<char>) -> Platform {
    if name == "windows"@ {
        Platform::Windows
    } else if name == "macos"@ {
        Platform::MacOs
    } else if name == "linux"@ {
        Platform::Linux
    } else {
        Platform::Other
    }
}

/// Tells the platform by its name.
pub fn platform_of(name: &str) -> (platform: Platform)
    ensures
        platform == platform_named(name@),
{
    if same_text(name, "windows") {
        Platform::Windows
    } else if same_text(name, "macos") {
        Platform::MacOs
    } else if same_text(name, "linux") {
        Platform::Linux
    } else {
        Platform::Other
    }
}

/// The command that opens the bootstrap page with the platform's default
/// handler, where there is one.
pub open spec fn opening(platform: Platform) -> Option<InvocationView> {
    match platform {
        Platform::Windows => Some(
            InvocationView { program: "cmd"@, arguments: seq!["/C"@, "start"@, PAGE_URL@] },
        ),
        Platform::MacOs => Some(InvocationView { program: "open"@, arguments: seq![PAGE_URL@] }),
        Platform::Linux => Some(
            InvocationView { program: "xdg-open"@, arguments: seq![PAGE_URL@] },
        ),
        Platform::Other => None,
    }
}

/// The command that tries to close the browser once the session has its
/// result, where there is one.
pub open spec fn closing(platform: Platform) -> Option<InvocationView> {
    match platform {
        Platform::Windows => Some(
            InvocationView {
                program: "cmd"@,
                arguments: seq!["/C"@, "taskkill /IM chrome.exe /F"@],
            },
        ),
        Platform::MacOs => Some(
            InvocationView {
                program: "osascript"@,
                arguments: seq![
                    "-e"@,
                    "tell application \"Safari\" to close (every window whose name contains \"위치 추적\")"@,
                ],
            },
        ),
        Platform::Linux => Some(InvocationView { program: "pkill"@, arguments: seq!["chrome"@] }),
        Platform::Other => None,
    }
}

/// A command as text, where there is one.
pub open spec fn view_of(command: Option<Invocation>) -> Option<InvocationView> {
    match command {
        Some(invocation) => Some(invocation@),
        None => None,
    }
}

/// Builds the command that opens the bootstrap page.
pub fn open_command(platform: Platform) -> (command: Option<Invocation>)
    ensures
        view_of(command) == opening(platform),
{
    let mut arguments: Vec<&'static str> = Vec::new();
    let command = match platform {
        Platform::Windows => {
            arguments.push("/C");
            arguments.push("start");
            arguments.push(PAGE_URL);
            Some(Invocation { program: "cmd", arguments })
        },
        Platform::MacOs => {
            arguments.push(PAGE_URL);
            Some(Invocation { program: "open", arguments })
        },
        Platform::Linux => {
            arguments.push(PAGE_URL);
            Some(Invocation { program: "xdg-open", arguments })
        },
        Platform::Other => None,
    };
    assert(command matches Some(invocation) ==> invocation@.arguments =~= opening(
        platform,
    )->0.arguments);
    command
}

/// Builds the command that tries to close the browser.
pub fn close_command(platform: Platform) -> (command: Option<Invocation>)
    ensures
        view_of(command) == closing(platform),
{
    let mut arguments: Vec<&'static str> = Vec::new();
    let command = match platform {
        Platform::Windows => {
            arguments.push("/C");
            arguments.push("taskkill /IM chrome.exe /F");
            Some(Invocation { program: "cmd", arguments })
        },
        Platform::MacOs => {
            arguments.push("-e");
            arguments.push(
                "tell application \"Safari\" to close (every window whose name contains \"위치 추적\")",
            );
            Some(Invocation { program: "osascript", arguments })
        },
        Platform::Linux => {
            arguments.push("chrome");
            Some(Invocation { program: "pkill", arguments })
        },
        Platform::Other => None,
    };
    assert(command matches Some(invocation) ==> invocation@.arguments =~= closing(
        platform,
    )->0.arguments);
    command
}

} // verus!
