use geo_handshake::http::LISTEN_ADDRESS;
use geo_handshake::launcher::{
    close_command, open_command, platform_of, Invocation, Platform, LAUNCH_DELAY_MS, PAGE_URL,
};

#[test]
fn listener_and_page_share_the_port() {
    assert_eq!(LISTEN_ADDRESS, "127.0.0.1:3030");
    assert_eq!(PAGE_URL, "http://localhost:3030");
    assert_eq!(LAUNCH_DELAY_MS, 500);
}

#[test]
fn platforms_by_name() {
    assert_eq!(platform_of("windows"), Platform::Windows);
    assert_eq!(platform_of("macos"), Platform::MacOs);
    assert_eq!(platform_of("linux"), Platform::Linux);
}

#[test]
fn unknown_names_are_other_platforms() {
    for name in ["", "freebsd", "android", "ios", "Windows", "LINUX", "linux ", "mac", "macOS"] {
        assert_eq!(platform_of(name), Platform::Other);
    }
}

#[test]
fn open_command_on_windows() {
    assert_eq!(
        open_command(Platform::Windows),
        Some(Invocation {
            program: "cmd",
            arguments: vec!["/C", "start", "http://localhost:3030"],
        })
    );
}

#[test]
fn open_command_on_macos() {
    assert_eq!(
        open_command(Platform::MacOs),
        Some(Invocation { program: "open", arguments: vec!["http://localhost:3030"] })
    );
}

#[test]
fn open_command_on_linux() {
    assert_eq!(
        open_command(Platform::Linux),
        Some(Invocation { program: "xdg-open", arguments: vec!["http://localhost:3030"] })
    );
}

#[test]
fn close_command_on_windows() {
    assert_eq!(
        close_command(Platform::Windows),
        Some(Invocation { program: "cmd", arguments: vec!["/C", "taskkill /IM chrome.exe /F"] })
    );
}

#[test]
fn close_command_on_macos() {
    assert_eq!(
        close_command(Platform::MacOs),
        Some(Invocation {
            program: "osascript",
            arguments: vec![
                "-e",
                "tell application \"Safari\" to close (every window whose name contains \"위치 추적\")",
            ],
        })
    );
}

#[test]
fn close_command_on_linux() {
    assert_eq!(
        close_command(Platform::Linux),
        Some(Invocation { program: "pkill", arguments: vec!["chrome"] })
    );
}

#[test]
fn no_command_on_other_platforms() {
    assert_eq!(open_command(Platform::Other), None);
    assert_eq!(close_command(Platform::Other), None);
}
