use we_claude_terminal::shared::types::YesNo;
use we_claude_terminal::windows::monitor::{home_relative_cwd, home_relative_to};
use we_claude_terminal::windows::panel::editor_command;
use we_claude_terminal::windows::pet_claude_sessions_summary::{
    pet_visible_pref, toggled_visibility, visibility_pref,
};
use we_claude_terminal::windows::pet_task::pet_task_visible;
use we_claude_terminal::windows::tray::{
    drag_enabled_pref, drag_menu_key, pet_menu_key, toggled_drag_value,
};

#[test]
fn home_relative_cwd_handles_typical_paths() {
    let home = dirs::home_dir().unwrap().to_string_lossy().to_string();

    assert_eq!(home_relative_cwd(&home), Some("~".to_string()));
    assert_eq!(home_relative_cwd(&format!("{}/proj", home)), Some("~/proj".to_string()));
    assert_eq!(home_relative_cwd("/etc"), None);
}

#[test]
fn monitor_path_basename_fallback() {
    assert_eq!(
        we_claude_terminal::sessions::enrich::project_name_of("/Users/foo/proj"),
        "proj"
    );
}

#[test]
fn home_relative_paths() {
    assert_eq!(home_relative_to("/Users/foo/proj", "/Users/foo"), Some("~/proj".to_string()));
    assert_eq!(home_relative_to("/Users/foo", "/Users/foo"), Some("~".to_string()));
    assert_eq!(home_relative_to("/Users/foobar", "/Users/foo"), None);
    assert_eq!(home_relative_to("/Users/foo/", "/Users/foo"), Some("~/".to_string()));
    assert_eq!(home_relative_to("/etc", "/Users/foo"), None);
}

#[test]
fn editor_commands() {
    assert_eq!(editor_command("vscode"), Ok("code"));
    assert_eq!(editor_command("idea"), Ok("idea"));
    assert_eq!(editor_command("vim"), Err("unsupported editor: vim".to_string()));
}

#[test]
fn pet_preferences() {
    assert!(pet_visible_pref(None));
    assert!(pet_visible_pref(Some("Y")));
    assert!(pet_visible_pref(Some("x")));
    assert!(!pet_visible_pref(Some("N")));
    assert!(!drag_enabled_pref(None));
    assert!(drag_enabled_pref(Some("Y")));
    assert!(!drag_enabled_pref(Some("N")));
    for v in [true, false] {
        assert_eq!(pet_visible_pref(Some(visibility_pref(v).as_str())), v);
        assert_eq!(drag_enabled_pref(Some(toggled_drag_value(v).as_str())), !v);
    }
    assert_eq!(visibility_pref(true), YesNo::Yes);
    assert!(toggled_visibility(false, false));
    assert!(toggled_visibility(true, false));
    assert!(!toggled_visibility(true, true));
}

#[test]
fn menu_keys() {
    assert_eq!(pet_menu_key(true), "pet-hide");
    assert_eq!(pet_menu_key(false), "pet-show");
    assert_eq!(drag_menu_key(true), "drag-off");
    assert_eq!(drag_menu_key(false), "drag-on");
}

#[test]
fn pet_task_visibility() {
    assert!(pet_task_visible(true, 2));
    assert!(!pet_task_visible(true, 0));
    assert!(!pet_task_visible(false, 3));
}
