use nitora::cli::{render_response, Command};
use nitora::ipc::{resolve_socket_path, socket_path, Request, Response};
use nitora::text::{join_path, push_decimal};

fn bytes(s: &str) -> Vec<u8> {
    s.as_bytes().to_vec()
}

#[test]
fn socket_path_prefers_the_environment_override() {
    assert_eq!(
        resolve_socket_path(Some(bytes("/custom/x.sock")), Some(bytes("/run/user/501"))),
        bytes("/custom/x.sock")
    );
    assert_eq!(socket_path(Some(bytes("/custom/y.sock"))), bytes("/custom/y.sock"));
}

#[test]
fn socket_path_keeps_non_utf8_bytes() {
    let raw = vec![b'/', b't', 0xff, 0xfe, b'/', b's'];
    assert_eq!(socket_path(Some(raw.clone())), raw);
    assert_eq!(
        resolve_socket_path(None, Some(vec![b'/', 0xff])),
        vec![b'/', 0xff, b'/', b'n', b'i', b't', b'o', b'r', b'a', b'.', b's', b'o', b'c', b'k']
    );
}

#[test]
fn socket_path_uses_the_runtime_directory() {
    assert_eq!(
        resolve_socket_path(None, Some(bytes("/run/user/501"))),
        bytes("/run/user/501/nitora.sock")
    );
    assert_eq!(
        resolve_socket_path(None, Some(bytes("/run/user/501/"))),
        bytes("/run/user/501/nitora.sock")
    );
}

#[test]
fn socket_path_falls_back_to_tmp() {
    assert_eq!(resolve_socket_path(None, None), bytes("/tmp/nitora.sock"));
}

#[test]
fn socket_path_without_override_is_absolute_and_named_nitora_sock() {
    let path = socket_path(None);
    assert!(path == bytes("/tmp/nitora.sock") || (path.starts_with(b"/") && path.ends_with(b"/nitora.sock")));
}

#[test]
fn join_path_cases() {
    assert_eq!(join_path(b"", b"a"), bytes("a"));
    assert_eq!(join_path(b"/x", b"a/b"), bytes("/x/a/b"));
    assert_eq!(join_path(b"/x/", b"a"), bytes("/x/a"));
    assert_eq!(join_path(b"/x", b"/abs"), bytes("/abs"));
}

#[test]
fn push_decimal_values() {
    let mut s = String::from("n=");
    push_decimal(&mut s, 0);
    assert_eq!(s, "n=0");
    let mut s = String::new();
    push_decimal(&mut s, 100);
    assert_eq!(s, "100");
    let mut s = String::new();
    push_decimal(&mut s, u64::MAX);
    assert_eq!(s, "18446744073709551615");
}

#[test]
fn commands_map_to_requests() {
    assert_eq!(Command::Enable.request(), Some(Request::Enable));
    assert_eq!(Command::Disable.request(), Some(Request::Disable));
    assert_eq!(Command::Toggle.request(), Some(Request::Toggle));
    assert_eq!(Command::Status.request(), Some(Request::Status));
    assert_eq!(
        Command::SetBrightness { value: 42 }.request(),
        Some(Request::SetBrightness { value: 42 })
    );
    assert_eq!(Command::Serve { auto_enable: true, brightness: 100 }.request(), None);
    assert_eq!(Command::PrintLaunchd { program_path: None }.request(), None);
    assert_eq!(
        Command::InstallLaunchd { program_path: Some("/bin/nitora".to_string()) }.request(),
        None
    );
    assert_eq!(Command::UninstallLaunchd.request(), None);
}

#[test]
fn render_response_without_state() {
    let r = Response {
        message: "Disabled".to_string(),
        enabled: false,
        brightness: 60,
        backend: "appkit-metal+coregraphics".to_string(),
        show_state: false,
    };
    assert_eq!(render_response(&r), "Disabled\n");
}

#[test]
fn render_response_with_state() {
    let r = Response {
        message: "Service ready.".to_string(),
        enabled: true,
        brightness: 7,
        backend: "appkit-metal+coregraphics".to_string(),
        show_state: true,
    };
    assert_eq!(
        render_response(&r),
        "Service ready.\nEnabled: true\nBrightness: 7\nBackend: appkit-metal+coregraphics\n"
    );
    let r = Response { enabled: false, brightness: 100, ..r };
    assert_eq!(
        render_response(&r),
        "Service ready.\nEnabled: false\nBrightness: 100\nBackend: appkit-metal+coregraphics\n"
    );
}
