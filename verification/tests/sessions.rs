use we_claude_terminal::sessions::discover::{file_matches_pid, is_session_file_name};
use we_claude_terminal::sessions::enrich::{
    classify_terminal, enrich, lookup_host_start, lookup_host_step, map_status, project_name_of,
    ps_value, HostLookup, LOOKUP_MAX_ROUNDS,
};
use we_claude_terminal::sessions::poll::{clamp_interval, initial_interval, PollIntervalState};
use we_claude_terminal::sessions::raw::RawSessionFile;
use we_claude_terminal::sessions::store::{
    finalize_sessions, finalize_status, git_checks_needed, keep_known_hosts, needs_git_check,
};
use we_claude_terminal::shared::state::claude_sessions::{write_claude_sessions, ClaudeSessionStore};
use we_claude_terminal::shared::types::{ClaudeSessionInfo, ClaudeSessionStatus, TerminalApp};

use ClaudeSessionStatus::{Busy, GitPending, Idle, Waiting};

fn mock_info(pid: u32, status: ClaudeSessionStatus, cwd: &str) -> ClaudeSessionInfo {
    ClaudeSessionInfo {
        pid,
        session_id: format!("sess-{pid}"),
        cwd: cwd.to_string(),
        project_name: "proj".to_string(),
        status,
        started_at: 0,
        updated_at: 0,
        host_app: TerminalApp::ITerm2,
        host_pid: 0,
        tty: String::new(),
    }
}

// The working directory does not exist, so `git status` in it fails and the tree
// counts as clean: the dirty flag handed in is false.
const FAKE_CWD: &str = "/nonexistent/test/path/12345";
const CLEAN: bool = false;

#[test]
fn status_mapping() {
    assert_eq!(map_status("busy"), Busy);
    assert_eq!(map_status("waiting"), Waiting);
    assert_eq!(map_status("idle"), Idle);
    assert_eq!(map_status("unknown"), Idle);
    assert_eq!(map_status(""), Idle);
}

#[test]
fn classify_known_terminals() {
    assert_eq!(classify_terminal("iTerm2"), Some(TerminalApp::ITerm2));
    assert_eq!(classify_terminal("iTerm"), Some(TerminalApp::ITerm2));
    assert_eq!(classify_terminal("Terminal"), Some(TerminalApp::Terminal));
    assert_eq!(classify_terminal("idea"), Some(TerminalApp::IntelliJ));
    assert_eq!(classify_terminal("wezterm"), None);
    assert_eq!(
        classify_terminal("/Applications/iTerm.app/Contents/MacOS/iTerm2"),
        Some(TerminalApp::ITerm2)
    );
}

#[test]
fn busy_unchanged_no_git() {
    let cur = mock_info(1, Busy, FAKE_CWD);
    assert_eq!(finalize_status(&cur, None, true, CLEAN), Busy);
    assert_eq!(finalize_status(&cur, None, false, CLEAN), Busy);
}

#[test]
fn waiting_unchanged_no_git() {
    let cur = mock_info(1, Waiting, FAKE_CWD);
    assert_eq!(finalize_status(&cur, None, true, CLEAN), Waiting);
    assert_eq!(finalize_status(&cur, None, false, CLEAN), Waiting);
}

#[test]
fn idle_new_session_force_git_clean() {
    let cur = mock_info(1, Idle, FAKE_CWD);
    assert_eq!(finalize_status(&cur, None, true, CLEAN), Idle);
}

#[test]
fn idle_new_session_no_force_still_runs_git() {
    let cur = mock_info(1, Idle, FAKE_CWD);
    assert!(needs_git_check(&cur, None, false));
    assert_eq!(finalize_status(&cur, None, false, CLEAN), Idle);
}

#[test]
fn idle_reuse_cached_idle_when_no_force() {
    let cur = mock_info(1, Idle, FAKE_CWD);
    let prev = mock_info(1, Idle, FAKE_CWD);
    assert_eq!(finalize_status(&cur, Some(&prev), false, CLEAN), Idle);
}

#[test]
fn idle_reuse_cached_gitpending_when_no_force() {
    let cur = mock_info(1, Idle, FAKE_CWD);
    let prev = mock_info(1, GitPending, FAKE_CWD);
    assert_eq!(finalize_status(&cur, Some(&prev), false, CLEAN), GitPending);
}

#[test]
fn idle_force_git_overrides_cache() {
    let cur = mock_info(1, Idle, FAKE_CWD);
    let prev = mock_info(1, GitPending, FAKE_CWD);
    assert_eq!(finalize_status(&cur, Some(&prev), true, CLEAN), Idle);
}

#[test]
fn idle_prev_busy_runs_git() {
    let cur = mock_info(1, Idle, FAKE_CWD);
    let prev = mock_info(1, Busy, FAKE_CWD);
    assert_eq!(finalize_status(&cur, Some(&prev), false, CLEAN), Idle);
}

#[test]
fn idle_prev_waiting_runs_git() {
    let cur = mock_info(1, Idle, FAKE_CWD);
    let prev = mock_info(1, Waiting, FAKE_CWD);
    assert_eq!(finalize_status(&cur, Some(&prev), false, CLEAN), Idle);
}

#[test]
fn dirty_idle_session_becomes_git_pending() {
    let cur = mock_info(1, Idle, "/repo");
    assert_eq!(finalize_status(&cur, None, false, true), GitPending);
    let prev = mock_info(1, Busy, "/repo");
    assert_eq!(finalize_status(&cur, Some(&prev), false, true), GitPending);
}

#[test]
fn cached_status_ignores_dirty_flag() {
    let cur = mock_info(1, Idle, "/repo");
    let prev = mock_info(1, Idle, "/repo");
    assert!(!needs_git_check(&cur, Some(&prev), false));
    assert_eq!(finalize_status(&cur, Some(&prev), false, true), Idle);
    assert_eq!(finalize_status(&cur, Some(&prev), false, false), Idle);
}

#[test]
fn rescan_pipeline_filters_and_finalizes() {
    let mut a = mock_info(1, Idle, "/a");
    a.host_app = TerminalApp::Unknown;
    let b = mock_info(2, Idle, "/b");
    let c = mock_info(3, Busy, "/c");
    let d = mock_info(4, Idle, "/d");
    let known = keep_known_hosts(vec![a, b, c, d]);
    assert_eq!(known.iter().map(|s| s.pid).collect::<Vec<_>>(), vec![2, 3, 4]);

    let mut prev = ClaudeSessionStore::new();
    write_claude_sessions(&mut prev, vec![mock_info(2, GitPending, "/b"), mock_info(4, Busy, "/d")]);
    let needed = git_checks_needed(&known, &prev, false);
    assert_eq!(needed, vec![false, false, true]);
    let dirty = vec![true, true, true];
    let out = finalize_sessions(known, &prev, false, &dirty);
    assert_eq!(out.iter().map(|s| s.status).collect::<Vec<_>>(), vec![GitPending, Busy, GitPending]);
    assert_eq!(out[0].cwd, "/b");
}

#[test]
fn write_replaces_store_content() {
    let mut store = ClaudeSessionStore::new();
    write_claude_sessions(&mut store, vec![mock_info(1, Busy, "/a"), mock_info(2, Idle, "/b")]);
    assert_eq!(store.0.len(), 2);
    write_claude_sessions(&mut store, vec![mock_info(2, Waiting, "/b"), mock_info(2, Idle, "/c")]);
    assert_eq!(store.0.len(), 1);
    assert!(store.get(1).is_none());
    let s = store.get(2).unwrap();
    assert_eq!(s.status, Idle);
    assert_eq!(s.cwd, "/c");
}

#[test]
fn panel_path_basename_fallback() {
    assert_eq!(project_name_of("/Users/foo/proj"), "proj");
}

#[test]
fn project_name_edge_cases() {
    assert_eq!(project_name_of("/"), "");
    assert_eq!(project_name_of(""), "");
    assert_eq!(project_name_of("/a/b/"), "b");
    assert_eq!(project_name_of("/a/b/."), "b");
    assert_eq!(project_name_of("/a/.."), "");
    assert_eq!(project_name_of("proj"), "proj");
}

#[test]
fn enrich_fills_fields() {
    let raw = RawSessionFile {
        pid: 42,
        session_id: "sid".to_string(),
        cwd: "/home/user/project".to_string(),
        started_at: 1700000000000,
        status: "waiting".to_string(),
        updated_at: 1700000000001,
    };
    let s = enrich(&raw, TerminalApp::Terminal, 7, Some("/dev/ttys001".to_string()));
    assert_eq!(s.pid, 42);
    assert_eq!(s.session_id, "sid");
    assert_eq!(s.project_name, "project");
    assert_eq!(s.status, Waiting);
    assert_eq!(s.started_at, 1700000000000);
    assert_eq!(s.updated_at, 1700000000001);
    assert_eq!(s.host_app, TerminalApp::Terminal);
    assert_eq!(s.host_pid, 7);
    assert_eq!(s.tty, "/dev/ttys001");
    let u = enrich(&raw, TerminalApp::Unknown, 0, Some("/dev/ttys001".to_string()));
    assert_eq!(u.tty, "");
    let n = enrich(&raw, TerminalApp::ITerm2, 9, None);
    assert_eq!(n.tty, "");
}

#[test]
fn ps_value_trims_and_drops_empty() {
    assert_eq!(ps_value(true, "  123\n"), Some("123".to_string()));
    assert_eq!(ps_value(true, " \n"), None);
    assert_eq!(ps_value(false, "123"), None);
}

#[test]
fn host_lookup_finds_terminal() {
    let s = lookup_host_start(100);
    assert_eq!(s, HostLookup::AwaitParent { pid: 100, round: 0 });
    let s = lookup_host_step(s, Some("50"));
    assert_eq!(s, HostLookup::AwaitCommand { pid: 100, ppid: 50, round: 0 });
    let s = lookup_host_step(s, Some("zsh"));
    assert_eq!(s, HostLookup::AwaitParent { pid: 50, round: 1 });
    let s = lookup_host_step(s, Some("20"));
    let s = lookup_host_step(s, Some("/Applications/iTerm.app/Contents/MacOS/iTerm2"));
    assert_eq!(s, HostLookup::Done { app: TerminalApp::ITerm2, host_pid: 20 });
}

#[test]
fn host_lookup_gives_up() {
    let not_found = HostLookup::Done { app: TerminalApp::Unknown, host_pid: 0 };
    assert_eq!(lookup_host_step(lookup_host_start(5), None), not_found);
    assert_eq!(lookup_host_step(lookup_host_start(5), Some("abc")), not_found);
    assert_eq!(lookup_host_step(lookup_host_start(5), Some("0")), not_found);
    assert_eq!(lookup_host_step(lookup_host_start(5), Some("5")), not_found);
    let mut s = lookup_host_start(1000);
    let mut calls = 0;
    while !matches!(s, HostLookup::Done { .. }) {
        let reply = match s {
            HostLookup::AwaitParent { pid, .. } => (pid - 1).to_string(),
            _ => "bash".to_string(),
        };
        s = lookup_host_step(s, Some(reply.as_str()));
        calls += 1;
    }
    assert_eq!(s, not_found);
    assert_eq!(calls, 2 * LOOKUP_MAX_ROUNDS);
}

#[test]
fn poll_interval_clamping() {
    assert_eq!(clamp_interval(0), 5);
    assert_eq!(clamp_interval(5), 5);
    assert_eq!(clamp_interval(60), 60);
    assert_eq!(clamp_interval(120), 120);
    assert_eq!(clamp_interval(1000), 120);
    assert_eq!(initial_interval(None), 60);
    assert_eq!(initial_interval(Some("30")), 30);
    assert_eq!(initial_interval(Some("1")), 5);
    assert_eq!(initial_interval(Some("+300")), 120);
    assert_eq!(initial_interval(Some("abc")), 60);
    assert_eq!(initial_interval(Some(" 30")), 60);
    assert_eq!(initial_interval(Some("-30")), 60);
}

#[test]
fn poll_state_set_interval_clamps() {
    let state = PollIntervalState::new(60);
    assert_eq!(state.seconds(), 60);
    state.set_interval(1);
    assert_eq!(state.seconds(), 5);
    state.set_interval(500);
    assert_eq!(state.seconds(), 120);
}

#[test]
fn poll_state_reads_stay_in_range() {
    let state = PollIntervalState::new(30);
    assert_eq!(state.seconds(), 30);
    state.0.store(0, std::sync::atomic::Ordering::Relaxed);
    assert_eq!(state.seconds(), 5);
    state.0.store(u64::MAX, std::sync::atomic::Ordering::Relaxed);
    assert_eq!(state.seconds(), 120);
}

#[test]
fn session_file_names() {
    assert!(is_session_file_name(Some("json"), Some("1234")));
    assert!(!is_session_file_name(Some("json"), Some("12a4")));
    assert!(!is_session_file_name(Some("txt"), Some("1234")));
    assert!(!is_session_file_name(None, Some("1234")));
    assert!(!is_session_file_name(Some("json"), None));
    let raw = RawSessionFile {
        pid: 1234,
        session_id: String::new(),
        cwd: String::new(),
        started_at: 0,
        status: String::new(),
        updated_at: 0,
    };
    assert!(file_matches_pid("1234", &raw));
    assert!(!file_matches_pid("01234", &raw));
    assert!(!file_matches_pid("123", &raw));
}
