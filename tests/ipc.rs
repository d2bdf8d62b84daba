use desktop_runtime::ipc::{
    dialog_reply, handle_command, hostname_or_unknown, is_allowed_url, is_blocking_command,
    version_reply, Action, Command, ConfigPayload, FileFilter, IpcResponse, Reply,
    DIALOG_CANCELLED_MESSAGE, DOWNLOAD_SCHEME_MESSAGE, URL_SCHEME_MESSAGE,
};
use desktop_runtime::updates::semver_compare;

#[test]
fn ipc_semver_compare_equal() {
    assert_eq!(semver_compare("1.0.0", "1.0.0"), 0);
    assert_eq!(semver_compare("0.0.0", "0.0.0"), 0);
}

#[test]
fn ipc_semver_compare_greater() {
    assert_eq!(semver_compare("2.0.0", "1.0.0"), 1);
    assert_eq!(semver_compare("1.1.0", "1.0.0"), 1);
    assert_eq!(semver_compare("1.0.1", "1.0.0"), 1);
}

#[test]
fn ipc_semver_compare_less() {
    assert_eq!(semver_compare("1.0.0", "2.0.0"), -1);
    assert_eq!(semver_compare("1.0.0", "1.1.0"), -1);
    assert_eq!(semver_compare("1.0.0", "1.0.1"), -1);
}

#[test]
fn tests_semver_compare_equal() {
    assert_eq!(semver_compare("1.0.0", "1.0.0"), 0);
    assert_eq!(semver_compare("0.0.0", "0.0.0"), 0);
}

#[test]
fn tests_semver_compare_greater() {
    assert_eq!(semver_compare("2.0.0", "1.0.0"), 1);
    assert_eq!(semver_compare("1.1.0", "1.0.0"), 1);
    assert_eq!(semver_compare("1.0.1", "1.0.0"), 1);
}

#[test]
fn tests_semver_compare_less() {
    assert_eq!(semver_compare("1.0.0", "2.0.0"), -1);
    assert_eq!(semver_compare("1.0.0", "1.1.0"), -1);
    assert_eq!(semver_compare("1.0.0", "1.0.1"), -1);
}

#[test]
fn semver_compare_missing_segments_are_zero() {
    assert_eq!(semver_compare("1", "1.0.0"), 0);
    assert_eq!(semver_compare("1.0", "1.0.0"), 0);
    assert_eq!(semver_compare("", "0.0.0"), 0);
    assert_eq!(semver_compare("1.2", "1.1.9"), 1);
}

#[test]
fn semver_compare_non_numeric_segments_are_zero() {
    assert_eq!(semver_compare("1.x.0", "1.0.0"), 0);
    assert_eq!(semver_compare("1.0.0-beta", "1.0.0"), 0);
    assert_eq!(semver_compare("1.-1.0", "1.0.0"), 0);
    assert_eq!(semver_compare("+2.0.0", "1.0.0"), 1);
    assert_eq!(semver_compare("1.+.0", "1.0.0"), 0);
    assert_eq!(semver_compare("99999999999999999999.0.0", "0.0.0"), 0);
    assert_eq!(semver_compare("18446744073709551615.0.0", "18446744073709551614.0.0"), 1);
}

#[test]
fn semver_compare_reads_three_components_only() {
    assert_eq!(semver_compare("1.0.0.5", "1.0.0"), 0);
    assert_eq!(semver_compare("1.0.10", "1.0.9"), 1);
}

#[test]
fn is_blocking_command_identifies_blocking_commands() {
    assert!(is_blocking_command(&Command::OpenFileDialog));
    assert!(is_blocking_command(&Command::CheckForUpdates));
    assert!(is_blocking_command(&Command::OpenUrl { url: "https://example.com".to_string() }));
    assert!(!is_blocking_command(&Command::Ping));
    assert!(!is_blocking_command(&Command::ReadConfig));
    assert!(!is_blocking_command(&Command::GetVersion));
    assert!(!is_blocking_command(&Command::GetSystemInfo));
}

#[test]
fn is_blocking_command_covers_every_command() {
    let blocking = vec![
        Command::OpenFileDialog,
        Command::OpenFileDialogWithFilters { filters: vec![] },
        Command::SaveFileDialog { default_name: None, filters: None },
        Command::OpenFolderDialog,
        Command::CheckForUpdates,
        Command::DownloadUpdate { url: "https://example.com/a.deb".to_string() },
        Command::InstallUpdate { path: "/tmp/a.deb".to_string() },
        Command::OpenUrl { url: "https://example.com".to_string() },
    ];
    for c in &blocking {
        assert!(is_blocking_command(c), "{:?}", c);
    }
    let inline = vec![
        Command::ReadConfig,
        Command::WriteConfig {
            data: ConfigPayload { key: "k".to_string(), value: serde_json::Value::Bool(true) },
        },
        Command::Ping,
        Command::GetVersion,
        Command::GetSystemInfo,
    ];
    for c in &inline {
        assert!(!is_blocking_command(c), "{:?}", c);
    }
}

#[test]
fn ipc_open_url_rejects_non_http() {
    let cmd = Command::OpenUrl { url: "file:///etc/passwd".to_string() };
    assert!(handle_command(&cmd).is_err());
    let cmd = Command::OpenUrl { url: "javascript:alert(1)".to_string() };
    assert!(handle_command(&cmd).is_err());
}

#[test]
fn tests_open_url_rejects_non_http() {
    let cmd = Command::OpenUrl { url: "file:///etc/passwd".to_string() };
    assert!(handle_command(&cmd).is_err());
    let cmd = Command::OpenUrl { url: "javascript:alert(1)".to_string() };
    assert!(handle_command(&cmd).is_err());
}

#[test]
fn open_url_error_message_and_allowed_schemes() {
    let cmd = Command::OpenUrl { url: "javascript:alert(1)".to_string() };
    match handle_command(&cmd) {
        Err(e) => assert_eq!(e, URL_SCHEME_MESSAGE),
        Ok(a) => panic!("unexpected {:?}", a),
    }
    assert_eq!(URL_SCHEME_MESSAGE, "URL must be http:// or https://");
    let cmd = Command::OpenUrl { url: "http://example.com".to_string() };
    match handle_command(&cmd) {
        Ok(Action::Open { url }) => assert_eq!(url, "http://example.com"),
        other => panic!("unexpected {:?}", other),
    }
    assert!(is_allowed_url("https://a"));
    assert!(!is_allowed_url("https:/a"));
    assert!(!is_allowed_url("HTTP://a"));
    assert!(!is_allowed_url(""));
}

#[test]
fn download_requires_https() {
    let cmd = Command::DownloadUpdate { url: "http://example.com/a.deb".to_string() };
    match handle_command(&cmd) {
        Err(e) => assert_eq!(e, DOWNLOAD_SCHEME_MESSAGE),
        Ok(a) => panic!("unexpected {:?}", a),
    }
    let cmd = Command::DownloadUpdate { url: "https://example.com/a.deb".to_string() };
    match handle_command(&cmd) {
        Ok(Action::Download { url }) => assert_eq!(url, "https://example.com/a.deb"),
        other => panic!("unexpected {:?}", other),
    }
}

#[test]
fn handle_command_plans_each_command() {
    assert!(matches!(handle_command(&Command::Ping), Ok(Action::Respond(Reply::Pong))));
    assert!(matches!(handle_command(&Command::ReadConfig), Ok(Action::ReadConfig)));
    assert!(matches!(handle_command(&Command::OpenFileDialog), Ok(Action::PickFile { filters: None })));
    assert!(matches!(handle_command(&Command::OpenFolderDialog), Ok(Action::PickFolder)));
    assert!(matches!(handle_command(&Command::GetVersion), Ok(Action::ReportVersion)));
    assert!(matches!(handle_command(&Command::CheckForUpdates), Ok(Action::CheckForUpdates)));
    assert!(matches!(handle_command(&Command::GetSystemInfo), Ok(Action::ReportSystemInfo)));
    let filters = vec![FileFilter { name: "Images".to_string(), extensions: vec!["png".to_string()] }];
    let cmd = Command::OpenFileDialogWithFilters { filters };
    match handle_command(&cmd) {
        Ok(Action::PickFile { filters: Some(f) }) => {
            assert_eq!(f.len(), 1);
            assert_eq!(f[0].name, "Images");
        }
        other => panic!("unexpected {:?}", other),
    }
    let cmd = Command::SaveFileDialog { default_name: Some("a.txt".to_string()), filters: None };
    match handle_command(&cmd) {
        Ok(Action::SaveFile { default_name, filters }) => {
            assert_eq!(default_name.as_deref(), Some("a.txt"));
            assert!(filters.is_none());
        }
        other => panic!("unexpected {:?}", other),
    }
    let cmd = Command::WriteConfig {
        data: ConfigPayload { key: "theme".to_string(), value: serde_json::Value::Bool(false) },
    };
    match handle_command(&cmd) {
        Ok(Action::WriteConfig { key, value }) => {
            assert_eq!(key, "theme");
            assert_eq!(value, &serde_json::Value::Bool(false));
        }
        other => panic!("unexpected {:?}", other),
    }
    let cmd = Command::InstallUpdate { path: "/tmp/x.deb".to_string() };
    match handle_command(&cmd) {
        Ok(Action::Install { path }) => assert_eq!(path, "/tmp/x.deb"),
        other => panic!("unexpected {:?}", other),
    }
}

#[test]
fn responses_set_exactly_one_side() {
    let r = IpcResponse::ok("a".to_string(), Reply::Pong);
    assert_eq!(r.id, "a");
    assert!(matches!(r.ok, Some(Reply::Pong)));
    assert!(r.err.is_none());
    let r = IpcResponse::err("b".to_string(), "boom".to_string());
    assert_eq!(r.id, "b");
    assert!(r.ok.is_none());
    assert_eq!(r.err.as_deref(), Some("boom"));
    let r = IpcResponse::from_outcome("c".to_string(), Err("bad".to_string()));
    assert!(r.ok.is_none());
    assert_eq!(r.err.as_deref(), Some("bad"));
    let r = IpcResponse::from_outcome("d".to_string(), Ok(Reply::Opened));
    assert!(matches!(r.ok, Some(Reply::Opened)));
    assert!(r.err.is_none());
}

#[test]
fn version_reply_names_releases_page() {
    match version_reply("0.3.1", "owner/app") {
        Reply::Version { version, releases_url } => {
            assert_eq!(version, "0.3.1");
            assert_eq!(releases_url, "https://github.com/owner/app/releases");
        }
        other => panic!("unexpected {:?}", other),
    }
}

#[test]
fn hostname_falls_back_in_order() {
    assert_eq!(hostname_or_unknown(Some("A".to_string()), Some("B".to_string())), "A");
    assert_eq!(hostname_or_unknown(None, Some("B".to_string())), "B");
    assert_eq!(hostname_or_unknown(None, None), "unknown");
}

#[test]
fn cancelled_dialog_is_an_error() {
    match dialog_reply(Some("/tmp/a.txt".to_string())) {
        Ok(Reply::Path(p)) => assert_eq!(p, "/tmp/a.txt"),
        other => panic!("unexpected {:?}", other),
    }
    match dialog_reply(None) {
        Err(e) => assert_eq!(e, DIALOG_CANCELLED_MESSAGE),
        other => panic!("unexpected {:?}", other),
    }
}
