use cmux::config::{ALT_MASK, CONTROL_MASK, SHIFT_MASK, SUPER_MASK};
use cmux::input::{
    map_mods, unshifted_codepoint, KeymapEntry, GHOSTTY_MODS_ALT, GHOSTTY_MODS_CTRL,
    GHOSTTY_MODS_SHIFT, GHOSTTY_MODS_SUPER,
};
use cmux::session::{accept_loaded_session, is_supported_session_version, SessionData, CURRENT_SESSION_VERSION};
use cmux::sidebar::{close_button_may_close, latest_row_index, rename_commit};
use cmux::window_geometry::{is_on_some_monitor, MonitorGeometry};

#[test]
fn test_map_mods() {
    let shift = map_mods(SHIFT_MASK);
    assert_eq!(shift, GHOSTTY_MODS_SHIFT);
    let ctrl = map_mods(CONTROL_MASK);
    assert_eq!(ctrl, GHOSTTY_MODS_CTRL);
    let combined = map_mods(SHIFT_MASK | CONTROL_MASK);
    assert_eq!(
        combined,
        GHOSTTY_MODS_SHIFT | GHOSTTY_MODS_CTRL,
        "Combined modifiers must have both bits set"
    );
}

#[test]
fn map_mods_alt_super_and_none() {
    assert_eq!(map_mods(0), 0);
    assert_eq!(map_mods(ALT_MASK | SUPER_MASK), GHOSTTY_MODS_ALT | GHOSTTY_MODS_SUPER);
    assert_eq!(map_mods(0x2 | 0x100), 0);
}

#[test]
fn unshifted_codepoint_picks_layout_level_zero() {
    let entries = vec![
        KeymapEntry { group: 1, level: 0, codepoint: Some('я' as u32) },
        KeymapEntry { group: 0, level: 1, codepoint: Some('{' as u32) },
        KeymapEntry { group: 0, level: 0, codepoint: Some('[' as u32) },
        KeymapEntry { group: 0, level: 0, codepoint: Some('x' as u32) },
    ];
    assert_eq!(unshifted_codepoint(&entries, 0), '[' as u32);
    assert_eq!(unshifted_codepoint(&entries, 1), 'я' as u32);
    assert_eq!(unshifted_codepoint(&entries, 2), 0);
    let no_char = vec![KeymapEntry { group: 0, level: 0, codepoint: None }];
    assert_eq!(unshifted_codepoint(&no_char, 0), 0);
}

#[test]
fn monitor_containment() {
    let monitors = vec![
        MonitorGeometry { x: 0, y: 0, width: 1920, height: 1080 },
        MonitorGeometry { x: 1920, y: 0, width: 2560, height: 1440 },
    ];
    assert!(is_on_some_monitor(&monitors, 0, 0));
    assert!(is_on_some_monitor(&monitors, 1920, 64));
    assert!(!is_on_some_monitor(&monitors, 4480, 10));
    assert!(!is_on_some_monitor(&monitors, 100, 1080));
    assert!(!is_on_some_monitor(&monitors, -5, 10));
    assert!(!is_on_some_monitor(&vec![], 0, 0));
    let huge = vec![MonitorGeometry { x: i32::MAX - 1, y: 0, width: 100, height: 10 }];
    assert!(is_on_some_monitor(&huge, i32::MAX, 5));
}

#[test]
fn inline_rename_commit() {
    let c = rename_commit("  Notes \n", "cmux");
    assert_eq!(c.rename.as_deref(), Some("Notes"));
    assert_eq!(c.display, "Notes");
    let c = rename_commit("   ", "cmux");
    assert_eq!(c.rename, None);
    assert_eq!(c.display, "cmux");
    assert!(close_button_may_close(2));
    assert!(!close_button_may_close(1));
    assert_eq!(latest_row_index(0), None);
    assert_eq!(latest_row_index(3), Some(2));
}

fn session(version: u32) -> SessionData<()> {
    SessionData {
        version,
        active_index: 0,
        workspaces: Vec::new(),
        sidebar_width: None,
        window_width: None,
        window_height: None,
        window_maximized: None,
        window_x: None,
        window_y: None,
    }
}

#[test]
fn supported_session_versions() {
    assert!(is_supported_session_version(CURRENT_SESSION_VERSION));
    let loaded = accept_loaded_session(session(CURRENT_SESSION_VERSION));
    assert_eq!(loaded.map(|d| d.version), Some(CURRENT_SESSION_VERSION));
    assert!(accept_loaded_session(session(CURRENT_SESSION_VERSION + 1)).is_none());
    assert!(accept_loaded_session(session(0)).is_none());
    assert!(accept_loaded_session(session(1)).is_some());
    assert!(accept_loaded_session(session(2)).is_some());
}
