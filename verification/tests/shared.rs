use we_claude_terminal::i18n;
use we_claude_terminal::shared::app_db_viewer::{
    check_table_exists, check_table_name, is_valid_identifier, table_info,
};
use we_claude_terminal::shared::config::{config_change_action, config_change_for_payload, ConfigChangeAction};
use we_claude_terminal::shared::i18n::{
    language_for_locale, menu_text, resolve, resolve_with_locale, ResolvedLanguage,
};
use we_claude_terminal::shared::repositories::{
    commit_seconds, git_output_value, repo_info_from_git, repository_not_found,
    split_first_line_exec, validate_repo_input,
};
use we_claude_terminal::shared::state::monitor::{active_session_count, write_sessions, SessionStore};
use we_claude_terminal::shared::text::{
    file_name, i32_to_decimal, parse_i64, parse_u32, parse_u64, trim, u32_to_decimal,
};
use we_claude_terminal::shared::types::{ClaudeSessionInfo, ClaudeSessionStatus, TerminalApp, YesNo};

#[test]
fn yes_no_strings() {
    assert_eq!(YesNo::Yes.as_str(), "Y");
    assert_eq!(YesNo::No.as_str(), "N");
}

#[test]
fn shared_menu_texts() {
    assert_eq!(menu_text(ResolvedLanguage::ZhCn, "monitor"), "终端监听");
    assert_eq!(menu_text(ResolvedLanguage::ZhCn, "settings"), "系统设置");
    assert_eq!(menu_text(ResolvedLanguage::ZhCn, "pet-show"), "显示桌宠");
    assert_eq!(menu_text(ResolvedLanguage::ZhCn, "pet-hide"), "隐藏桌宠");
    assert_eq!(menu_text(ResolvedLanguage::ZhCn, "quit"), "退出");
    assert_eq!(menu_text(ResolvedLanguage::En, "monitor"), "Terminal Monitor");
    assert_eq!(menu_text(ResolvedLanguage::En, "settings"), "Settings");
    assert_eq!(menu_text(ResolvedLanguage::En, "pet-show"), "Show Pet");
    assert_eq!(menu_text(ResolvedLanguage::En, "pet-hide"), "Hide Pet");
    assert_eq!(menu_text(ResolvedLanguage::En, "quit"), "Quit");
    assert_eq!(menu_text(ResolvedLanguage::ZhCn, "panel"), "控制台");
    assert_eq!(menu_text(ResolvedLanguage::En, "panel"), "Console");
    assert_eq!(menu_text(ResolvedLanguage::ZhCn, "drag-on"), "开启拖拽");
    assert_eq!(menu_text(ResolvedLanguage::En, "drag-on"), "Enable Dragging");
    assert_eq!(menu_text(ResolvedLanguage::ZhCn, "drag-off"), "关闭拖拽");
    assert_eq!(menu_text(ResolvedLanguage::En, "drag-off"), "Disable Dragging");
    assert_eq!(menu_text(ResolvedLanguage::ZhCn, "restart"), "重启");
    assert_eq!(menu_text(ResolvedLanguage::En, "restart"), "Restart");
    assert_eq!(menu_text(ResolvedLanguage::En, "unknown"), "");
}

#[test]
fn top_level_menu_texts() {
    assert_eq!(i18n::menu_text(i18n::ResolvedLanguage::ZhCn, "settings"), "系统设置");
    assert_eq!(i18n::menu_text(i18n::ResolvedLanguage::En, "quit"), "Quit");
    assert_eq!(i18n::menu_text(i18n::ResolvedLanguage::En, "monitor"), "");
}

#[test]
fn language_resolution() {
    assert_eq!(resolve(Some("zh-CN")), ResolvedLanguage::ZhCn);
    assert_eq!(resolve(Some("en")), ResolvedLanguage::En);
    let _ = resolve(None);
    assert_eq!(resolve_with_locale(Some("zh-CN"), Some("en-US")), ResolvedLanguage::ZhCn);
    assert_eq!(resolve_with_locale(Some("en"), Some("zh-CN")), ResolvedLanguage::En);
    assert_eq!(resolve_with_locale(Some("fr"), Some("zh-Hans-CN")), ResolvedLanguage::ZhCn);
    assert_eq!(resolve_with_locale(None, Some("en-US")), ResolvedLanguage::En);
    assert_eq!(resolve_with_locale(None, None), ResolvedLanguage::En);
    assert_eq!(language_for_locale(Some("ZH_cn")), ResolvedLanguage::ZhCn);
    assert_eq!(language_for_locale(Some("z")), ResolvedLanguage::En);
    assert_eq!(i18n::resolve(Some("zh-CN")), i18n::ResolvedLanguage::ZhCn);
    assert_eq!(i18n::resolve_with_locale(None, Some("Zh-TW")), i18n::ResolvedLanguage::ZhCn);
}

#[test]
fn config_change_actions() {
    assert_eq!(config_change_action(Some("language"), Some("en")), ConfigChangeAction::RefreshMenuTexts);
    assert_eq!(
        config_change_action(Some("poll_interval_secs"), Some("30")),
        ConfigChangeAction::SetPollInterval(30)
    );
    assert_eq!(config_change_action(Some("poll_interval_secs"), Some("x")), ConfigChangeAction::Ignore);
    assert_eq!(config_change_action(Some("poll_interval_secs"), None), ConfigChangeAction::Ignore);
    assert_eq!(config_change_action(Some("theme"), Some("dark")), ConfigChangeAction::Ignore);
    assert_eq!(config_change_action(None, Some("30")), ConfigChangeAction::Ignore);
}

#[test]
fn config_change_payloads() {
    assert_eq!(
        config_change_for_payload(r#"{"key":"language","value":"en"}"#),
        ConfigChangeAction::RefreshMenuTexts
    );
    assert_eq!(
        config_change_for_payload(r#"{"key":"poll_interval_secs","value":"30"}"#),
        ConfigChangeAction::SetPollInterval(30)
    );
    assert_eq!(
        config_change_for_payload(r#"{"key":"poll_interval_secs","value":30}"#),
        ConfigChangeAction::Ignore
    );
    assert_eq!(config_change_for_payload(r#"{"key":"other","value":"1"}"#), ConfigChangeAction::Ignore);
    assert_eq!(config_change_for_payload("not json"), ConfigChangeAction::Ignore);
    assert_eq!(config_change_for_payload("[1, 2]"), ConfigChangeAction::Ignore);
}

#[test]
fn identifiers() {
    assert!(is_valid_identifier("config"));
    assert!(is_valid_identifier("_t1"));
    assert!(!is_valid_identifier(""));
    assert!(!is_valid_identifier("1abc"));
    assert!(!is_valid_identifier("a b"));
    assert!(!is_valid_identifier("x;DROP"));
    assert!(!is_valid_identifier("\"q\""));
}

#[test]
fn table_infos() {
    let t = table_info("config".to_string(), Some(3));
    assert_eq!(t.name, "config");
    assert_eq!(t.row_count, 3);
    assert_eq!(table_info("config".to_string(), None).row_count, -1);
    assert_eq!(table_info("a b".to_string(), Some(3)).row_count, -1);
    assert_eq!(table_info("big".to_string(), Some(1i64 << 32)).row_count, 0);
    assert!(check_table_name("config").is_ok());
    assert_eq!(check_table_name("a;b").unwrap_err(), "invalid table name: a;b");
    assert!(check_table_exists("t", true).is_ok());
    assert_eq!(check_table_exists("t", false).unwrap_err(), "table not found: t");
}

#[test]
fn repository_info_from_git() {
    let info = repo_info_from_git(
        Some("git@example.com:a/b.git".to_string()),
        Some("main".to_string()),
        Some("1700000000\nfix: things".to_string()),
    );
    assert_eq!(info.remote_url, "git@example.com:a/b.git");
    assert_eq!(info.branch, "main");
    assert_eq!(info.last_commit_at, 1700000000000);
    assert_eq!(info.last_commit_message, "fix: things");
    let detached = repo_info_from_git(None, Some("HEAD".to_string()), None);
    assert_eq!(detached.remote_url, "");
    assert_eq!(detached.branch, "");
    assert_eq!(detached.last_commit_at, 0);
    assert_eq!(detached.last_commit_message, "");
    let odd = repo_info_from_git(None, None, Some("oops".to_string()));
    assert_eq!(odd.last_commit_at, 0);
    assert_eq!(odd.last_commit_message, "");
    assert_eq!(commit_seconds(" 12 \nmsg\nmore"), 12);
    assert_eq!(split_first_line_exec("a\nb\nc"), ("a".to_string(), Some("b\nc".to_string())));
    assert_eq!(split_first_line_exec("abc"), ("abc".to_string(), None));
    assert_eq!(git_output_value(true, " main\n"), Some("main".to_string()));
    assert_eq!(git_output_value(false, "main"), None);
}

#[test]
fn repository_input_validation() {
    assert_eq!(validate_repo_input("  ", "/x").unwrap_err(), "name-required");
    assert_eq!(validate_repo_input("n", " \t").unwrap_err(), "dir-required");
    assert_eq!(validate_repo_input("", "").unwrap_err(), "name-required");
    assert_eq!(
        validate_repo_input(" name ", " /repo\n").unwrap(),
        ("name".to_string(), "/repo".to_string())
    );
    assert_eq!(repository_not_found(7), "repository not found: 7");
    assert_eq!(repository_not_found(-12), "repository not found: -12");
}

#[test]
fn text_helpers() {
    assert_eq!(trim("\u{3000} a b \n"), "a b");
    assert_eq!(trim("   "), "");
    assert_eq!(parse_u32("4294967295"), Some(u32::MAX));
    assert_eq!(parse_u32("4294967296"), None);
    assert_eq!(parse_u32("+7"), Some(7));
    assert_eq!(parse_u32("+"), None);
    assert_eq!(parse_u32("-1"), None);
    assert_eq!(parse_u32(""), None);
    assert_eq!(parse_u64("18446744073709551615"), Some(u64::MAX));
    assert_eq!(parse_i64("-9223372036854775808"), Some(i64::MIN));
    assert_eq!(parse_i64("9223372036854775808"), None);
    assert_eq!(parse_i64("-"), None);
    assert_eq!(parse_i64("-+1"), None);
    assert_eq!(parse_i64("+-1"), None);
    assert_eq!(u32_to_decimal(0), "0");
    assert_eq!(u32_to_decimal(4294967295), "4294967295");
    assert_eq!(i32_to_decimal(i32::MIN), "-2147483648");
    assert_eq!(file_name("/usr/bin/"), Some("bin".to_string()));
    assert_eq!(file_name("."), None);
    assert_eq!(file_name("./a/./"), Some("a".to_string()));
    for s in ["0", "7", "123", "+5", "-5", "x", "", "99999999999"] {
        assert_eq!(parse_u32(s), s.parse::<u32>().ok(), "{s}");
        assert_eq!(parse_i64(s), s.parse::<i64>().ok(), "{s}");
    }
}

fn info(id: &str, status: ClaudeSessionStatus) -> ClaudeSessionInfo {
    ClaudeSessionInfo {
        pid: 1,
        session_id: id.to_string(),
        cwd: String::new(),
        project_name: String::new(),
        status,
        started_at: 0,
        updated_at: 0,
        host_app: TerminalApp::ITerm2,
        host_pid: 0,
        tty: String::new(),
    }
}

#[test]
fn session_store_by_id() {
    let mut store = SessionStore::new();
    write_sessions(
        &mut store,
        vec![
            info("a", ClaudeSessionStatus::Busy),
            info("b", ClaudeSessionStatus::Idle),
            info("a", ClaudeSessionStatus::Waiting),
        ],
    );
    assert_eq!(store.sessions().len(), 2);
    assert_eq!(store.get("a").unwrap().status, ClaudeSessionStatus::Waiting);
    assert!(store.get("c").is_none());
    assert_eq!(active_session_count(&store), 1);
    write_sessions(&mut store, vec![info("c", ClaudeSessionStatus::Busy)]);
    assert!(store.get("a").is_none());
    assert_eq!(active_session_count(&store), 1);
}
