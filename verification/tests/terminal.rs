use std::collections::HashMap;

use we_claude_terminal::shared::state::claude_sessions::ClaudeSessionStore;
use we_claude_terminal::shared::types::{ClaudeSessionInfo, ClaudeSessionStatus, TerminalApp};
use we_claude_terminal::terminal::iterm2::{
    self, escape_dir_for_applescript, open_directory_script, split_command,
};
use we_claude_terminal::terminal::terminal_app;
use we_claude_terminal::terminal::{dispatch, script_outcome, NavErr, Target};
use we_claude_terminal::windows::panel::navigation_script;

#[test]
fn iterm2_render_includes_tty() {
    let target = Target { tty: Some("/dev/ttys004") };
    let script = iterm2::render_script(&target);
    assert!(script.contains("\"/dev/ttys004\""));
    assert!(script.contains("selectSession"));
    assert!(script.contains("set index of w to 1"));
}

#[test]
fn tty_none_returns_error() {
    let target = Target { tty: None };
    let err = iterm2::focus_session_script(&target).unwrap_err();
    assert!(matches!(err, NavErr::OsaScriptFailed { .. }));
}

#[test]
fn escapes_quotes() {
    let target = Target { tty: Some("a\"b") };
    let script = iterm2::render_script(&target);
    assert!(script.contains("\"a\\\"b\""));
}

#[test]
fn terminal_app_render_includes_tty() {
    let target = Target { tty: Some("/dev/ttys007") };
    let script = terminal_app::render_script(&target);
    assert!(script.contains("\"/dev/ttys007\""));
    assert!(script.contains("set selected tab of w to t"));
    assert!(script.contains("set index of w to 1"));
}

#[test]
fn applescript_string_escapes_backslash_and_quote() {
    assert_eq!(iterm2::applescript_string("a\\b\"c"), "\"a\\\\b\\\"c\"");
    assert_eq!(terminal_app::applescript_string(None), "missing value");
    assert_eq!(terminal_app::applescript_string(Some("x\"")), "\"x\\\"\"");
}

#[test]
fn terminal_app_without_tty_is_refused() {
    let err = terminal_app::focus_session_script(&Target { tty: None }).unwrap_err();
    match err {
        NavErr::OsaScriptFailed { stderr } => {
            assert_eq!(stderr, "tty is required for Terminal.app navigation")
        }
        other => panic!("unexpected {other:?}"),
    }
}

#[test]
fn dispatch_by_host() {
    let t = Target { tty: Some("/dev/ttys001") };
    assert!(dispatch(TerminalApp::ITerm2, &t).unwrap().contains("tell application \"iTerm2\""));
    assert!(dispatch(TerminalApp::Terminal, &t).unwrap().contains("tell application \"Terminal\""));
    assert!(matches!(dispatch(TerminalApp::IntelliJ, &t), Err(NavErr::UnsupportedHostApp)));
    assert!(matches!(dispatch(TerminalApp::Unknown, &t), Err(NavErr::UnsupportedHostApp)));
}

#[test]
fn script_outcome_maps_failure() {
    assert!(script_outcome(true, String::new()).is_ok());
    match script_outcome(false, "boom".to_string()) {
        Err(NavErr::OsaScriptFailed { stderr }) => assert_eq!(stderr, "boom"),
        other => panic!("unexpected {other:?}"),
    }
}

#[test]
fn escape_dir_handles_spaces_and_quotes() {
    assert_eq!(escape_dir_for_applescript("/a b"), "/a\\\\ b");
    assert_eq!(escape_dir_for_applescript("/a\"b"), "/a\\\"b");
    assert_eq!(escape_dir_for_applescript("/plain"), "/plain");
}

#[test]
fn open_directory_scripts() {
    assert_eq!(split_command("none"), None);
    assert_eq!(split_command("vertical"), Some("split vertically"));
    assert_eq!(split_command("horizontal"), Some("split horizontally"));
    assert_eq!(split_command("other"), Some("split horizontally"));
    let plain = open_directory_script("/my dir", "none");
    assert_eq!(plain.matches("write text \"cd /my\\\\ dir\"").count(), 2);
    assert!(!plain.contains("split"));
    let split = open_directory_script("/p", "vertical");
    assert_eq!(split.matches("write text \"cd /p\"").count(), 4);
    assert_eq!(split.matches("set splitSess to (split vertically with default profile)").count(), 2);
}

fn session(pid: u32, host: TerminalApp, tty: &str) -> ClaudeSessionInfo {
    ClaudeSessionInfo {
        pid,
        session_id: format!("s{pid}"),
        cwd: "/p".to_string(),
        project_name: "p".to_string(),
        status: ClaudeSessionStatus::Busy,
        started_at: 0,
        updated_at: 0,
        host_app: host,
        host_pid: 1,
        tty: tty.to_string(),
    }
}

#[test]
fn navigation_script_lookup() {
    let mut map = HashMap::new();
    map.insert(1, session(1, TerminalApp::ITerm2, "/dev/ttys009"));
    map.insert(2, session(2, TerminalApp::Terminal, ""));
    map.insert(3, session(3, TerminalApp::IntelliJ, "/dev/ttys010"));
    let store = ClaudeSessionStore(map);
    assert!(navigation_script(&store, 1).unwrap().contains("\"/dev/ttys009\""));
    assert!(matches!(navigation_script(&store, 2), Err(NavErr::OsaScriptFailed { .. })));
    assert!(matches!(navigation_script(&store, 3), Err(NavErr::UnsupportedHostApp)));
    assert!(matches!(navigation_script(&store, 4), Err(NavErr::SessionNotFound)));
}
