use cmux::app_state::{
    bell_notification_body, contains_pane, first_pane_id, notification_summary, pwd_workspace,
    workspace_of_pane, AppState, WindowGeometry, DEFAULT_SIDEBAR_WIDTH,
};
use cmux::session::CURRENT_SESSION_VERSION;
use cmux::workspace::{
    is_default_workspace_name, row_subtitle, row_tooltip, workspace_title, ConnectionState,
    Workspace,
};

fn names(s: &AppState<u64>) -> Vec<String> {
    s.workspaces.iter().map(|w| w.name.clone()).collect()
}

/// A window with `n` local workspaces; each workspace's engine is its first pane id.
fn state_with(n: usize) -> AppState<u64> {
    let mut s = AppState::new();
    for i in 0..n {
        let engine = first_pane_id(s.next_id);
        s.create_workspace(format!("/home/u/p{i}"), format!("uuid-{i}"), engine);
    }
    s
}

#[test]
fn default_name_detection() {
    assert!(is_default_workspace_name("Workspace 1"));
    assert!(is_default_workspace_name("Workspace 42"));
    assert!(!is_default_workspace_name("Workspace "));
    assert!(!is_default_workspace_name("Workspace 1a"));
    assert!(!is_default_workspace_name("workspace 1"));
    assert!(!is_default_workspace_name("My stuff"));
}

#[test]
fn create_numbers_and_selects() {
    let s = state_with(3);
    assert_eq!(names(&s), vec!["Workspace 1", "Workspace 2", "Workspace 3"]);
    assert_eq!(s.active_index, 2);
    assert_eq!(s.workspaces[1].id, 2);
    assert_eq!(s.workspaces[1].stack_page_name, "workspace-2");
    assert_eq!(s.workspaces[1].cwd, "/home/u/p1");
    assert_eq!(s.next_id, 4);
    assert_eq!(s.sidebar_width, DEFAULT_SIDEBAR_WIDTH);
    assert_eq!(first_pane_id(3), 3000);
}

#[test]
fn close_renumbers_and_keeps_neighbour() {
    let mut s = state_with(3);
    s.switch_to_index(2);
    assert!(s.close_workspace(0));
    assert_eq!(names(&s), vec!["Workspace 1", "Workspace 2"]);
    assert_eq!(s.active_index, 1);
    assert_eq!(s.workspaces[s.active_index].id, 3);
    // Closing the shown first workspace keeps position 0.
    s.switch_to_index(0);
    assert!(s.close_workspace(0));
    assert_eq!(s.active_index, 0);
    assert_eq!(s.workspaces[0].id, 3);
    // The last workspace cannot be closed.
    assert!(!s.close_workspace(0));
    assert_eq!(s.workspaces.len(), 1);
}

#[test]
fn renamed_workspace_keeps_its_name() {
    let mut s = state_with(3);
    s.switch_to_index(1);
    assert!(s.rename_active("notes".to_string()));
    assert!(s.close_workspace(0));
    assert_eq!(names(&s), vec!["notes", "Workspace 2"]);
    let changed = s.renumber_default_workspaces();
    assert!(changed.is_empty());
}

#[test]
fn renumber_reports_changed_rows() {
    let mut s = state_with(3);
    s.workspaces[0].name = "Workspace 7".to_string();
    s.workspaces[2].name = "Workspace 9".to_string();
    let changed = s.renumber_default_workspaces();
    assert_eq!(changed, vec![0, 2]);
    assert_eq!(names(&s), vec!["Workspace 1", "Workspace 2", "Workspace 3"]);
}

#[test]
fn next_prev_wrap() {
    let mut s = state_with(3);
    s.switch_next();
    assert_eq!(s.active_index, 0);
    s.switch_prev();
    assert_eq!(s.active_index, 2);
    s.switch_prev();
    assert_eq!(s.active_index, 1);
    let mut empty: AppState<u64> = AppState::new();
    empty.switch_next();
    empty.switch_prev();
    assert_eq!(empty.active_index, 0);
}

#[test]
fn switching_clears_attention() {
    let mut s = state_with(2);
    assert!(s.set_pane_attention(0, true, false, 10_000));
    assert!(s.workspaces[0].has_attention);
    s.switch_to_index(0);
    assert!(!s.workspaces[0].has_attention);
    s.switch_to_index(5);
    assert_eq!(s.active_index, 0);
}

#[test]
fn bell_notifications_are_rate_limited() {
    let mut s = state_with(2);
    assert!(s.set_pane_attention(0, true, false, 10_000));
    assert!(!s.set_pane_attention(0, true, false, 14_999));
    assert!(s.set_pane_attention(0, true, false, 15_000));
    // A focused window gets the badge but no notification.
    assert!(!s.set_pane_attention(1, true, true, 100_000));
    assert!(s.workspaces[1].has_attention);
    assert_eq!(s.workspaces[1].last_notification_ms, None);
}

#[test]
fn terminal_notification_summary() {
    let mut s = state_with(2);
    assert!(s.is_viewing(1, true));
    assert!(!s.is_viewing(0, true));
    assert!(!s.is_viewing(1, false));
    assert_eq!(s.record_terminal_notification(0, true, String::new(), 1_000), Some("p0".to_string()));
    assert!(s.workspaces[0].has_attention);
    assert_eq!(s.record_terminal_notification(0, true, "done".to_string(), 2_000), None);
    assert_eq!(s.record_terminal_notification(0, true, "done".to_string(), 7_000), Some("done".to_string()));
    assert_eq!(notification_summary(""), "cmux");
    assert_eq!(notification_summary("Build"), "Build");
    assert_eq!(bell_notification_body("Workspace 1"), "Workspace 1 - Terminal bell");
}

#[test]
fn pwd_updates_local_workspaces_only() {
    let mut s = state_with(1);
    assert!(s.update_pane_pwd(0, "/srv/app".to_string()));
    assert_eq!(s.workspaces[0].cwd, "/srv/app");
    assert!(!s.update_pane_pwd(0, "/srv/app".to_string()));
    s.create_remote_workspace("lee@host".to_string(), "r".to_string(), 7);
    assert!(!s.update_pane_pwd(1, "/x".to_string()));
    assert_eq!(s.workspaces[1].cwd, "");
}

#[test]
fn remote_workspace_and_connection_state() {
    let mut s = state_with(1);
    let id = s.create_remote_workspace("lee@host".to_string(), "r".to_string(), 7);
    assert_eq!(s.active_index, 1);
    assert_eq!(s.workspaces[1].remote_target.as_deref(), Some("lee@host"));
    assert_eq!(s.update_connection_state(id, ConnectionState::Connected), Some(1));
    assert_eq!(s.workspaces[1].connection_state, ConnectionState::Connected);
    assert_eq!(s.update_connection_state(999, ConnectionState::Connected), None);
    assert_eq!(row_tooltip(&s.workspaces[1]), "lee@host");
    assert_eq!(workspace_title(&s.workspaces[1]), "Workspace 2");
    assert_eq!(ConnectionState::Connected.css_class(), "connected");
    assert!(!ConnectionState::Local.is_remote());
}

#[test]
fn titles_and_tooltips() {
    let mut w = Workspace::new(1, 1, "u".to_string());
    assert_eq!(workspace_title(&w), "Workspace 1");
    assert_eq!(row_tooltip(&w), "Workspace 1");
    w.cwd = "/home/lee/Desktop/cmux".to_string();
    assert_eq!(workspace_title(&w), "cmux");
    assert_eq!(row_tooltip(&w), "/home/lee/Desktop/cmux");
    w.rename("Work".to_string());
    assert_eq!(workspace_title(&w), "Work");
}

#[test]
fn restore_uses_up_ids_even_on_failure() {
    let mut s: AppState<u64> = AppState::new();
    assert_eq!(s.restore_workspace("old".into(), "/".into(), "u1".into(), None), None);
    assert_eq!(s.restore_workspace("kept".into(), "/".into(), "u2".into(), Some(2000)), Some(2));
    assert_eq!(names(&s), vec!["kept"]);
    assert_eq!(s.split_engines, vec![2000]);
    assert_eq!(s.next_id, 3);
}

#[test]
fn snapshot_carries_every_workspace() {
    let s = state_with(2);
    let data = s.session_snapshot(
        vec![10u32, 20u32],
        vec![None, Some("p".to_string())],
        WindowGeometry { width: Some(1440), height: Some(900), maximized: Some(false), x: None, y: None },
    );
    assert_eq!(data.version, CURRENT_SESSION_VERSION);
    assert_eq!(data.active_index, 1);
    assert_eq!(data.workspaces.len(), 2);
    assert_eq!(data.workspaces[1].layout, 20);
    assert_eq!(data.workspaces[1].active_pane_uuid.as_deref(), Some("p"));
    assert_eq!(data.workspaces[0].name, "Workspace 1");
    assert_eq!(data.workspaces[0].cwd, "/home/u/p0");
    assert_eq!(data.sidebar_width, Some(DEFAULT_SIDEBAR_WIDTH));
    assert_eq!(data.window_width, Some(1440));
}

#[test]
fn engines_follow_their_workspaces() {
    let mut s = state_with(3);
    assert_eq!(s.split_engines, vec![1000, 2000, 3000]);
    assert_eq!(s.active_split_engine(), Some(&3000));
    s.switch_to_index(0);
    assert!(s.close_workspace(1));
    assert_eq!(s.split_engines, vec![1000, 3000]);
    assert_eq!(s.active_split_engine(), Some(&1000));
    if let Some(e) = s.active_split_engine_mut() {
        *e = 1001;
    }
    assert_eq!(s.split_engines, vec![1001, 3000]);
    let mut empty: AppState<u64> = AppState::new();
    assert!(empty.active_split_engine().is_none());
    assert!(empty.active_split_engine_mut().is_none());
}

#[test]
fn pane_owner_and_pwd_target() {
    let panes = vec![vec![1000, 1001], vec![2000, 2001, 2002], vec![3000]];
    assert!(contains_pane(&panes[1], 2001));
    assert!(!contains_pane(&panes[1], 3000));
    assert_eq!(workspace_of_pane(&panes, 2002), Some(1));
    assert_eq!(workspace_of_pane(&panes, 3000), Some(2));
    assert_eq!(workspace_of_pane(&panes, 4000), None);
    // Only the active pane of a workspace sets its directory.
    let active = vec![1000, 2000, 3000];
    assert_eq!(pwd_workspace(&active, &panes, 2000), Some(1));
    assert_eq!(pwd_workspace(&active, &panes, 2001), None);
    assert_eq!(pwd_workspace(&active, &panes, 4000), None);
}

#[test]
fn sidebar_subtitles() {
    let mut w = Workspace::new(1, 1, "u".to_string());
    w.cwd = "/home/lee/Desktop/cmux".to_string();
    assert_eq!(row_subtitle(&w, Some("/home/lee")), "~/Desktop");
    assert_eq!(row_subtitle(&w, None), "/home/lee/Desktop");
    let r = Workspace::new_remote(2, 2, "r".to_string(), "lee@host".to_string());
    assert_eq!(row_subtitle(&r, Some("/home/lee")), "\u{25CF} Disconnected");
}
