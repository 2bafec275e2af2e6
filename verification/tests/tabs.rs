use cmux::tabs::{max_pane_id, WorkspaceTabs, PANE_ID_BLOCK};

#[test]
fn first_tab_and_strip() {
    let t = WorkspaceTabs::new("engine-a");
    assert_eq!(t.len(), 1);
    assert_eq!(t.active_index(), 0);
    assert_eq!(t.titles(), vec!["Tab 1"]);
    assert_eq!(t.active_page_name(), "tab-0");
    assert!(!t.strip_visible());
    assert_eq!(*t.active_engine(), "engine-a");
}

#[test]
fn push_switch_close() {
    let mut t = WorkspaceTabs::new(1u32);
    assert_eq!(t.push_tab(2), 1);
    assert_eq!(t.push_tab(3), 2);
    assert_eq!(t.active_index(), 2);
    assert!(t.strip_visible());
    assert_eq!(t.titles(), vec!["Tab 1", "Tab 2", "Tab 3"]);
    let closed = t.close_tab(1).expect("closes");
    assert_eq!(closed.engine, 2);
    assert_eq!(closed.page_name, "tab-1");
    assert_eq!(t.active_index(), 1);
    assert_eq!(*t.active_engine(), 3);
    // Numbers are never reused.
    assert_eq!(t.push_tab(4), 2);
    assert_eq!(t.titles(), vec!["Tab 1", "Tab 3", "Tab 4"]);
    assert!(t.close_tab(7).is_none());
    t.switch_to(0);
    assert_eq!(t.active_index(), 0);
    t.switch_to(9);
    assert_eq!(t.active_index(), 0);
    t.prev_tab();
    assert_eq!(t.active_index(), 2);
    t.next_tab();
    assert_eq!(t.active_index(), 0);
    assert_eq!(*t.engine_at(1), 3);
}

#[test]
fn last_tab_is_never_closed() {
    let mut t = WorkspaceTabs::new(());
    assert!(t.close_active().is_none());
    assert!(t.close_tab(0).is_none());
    assert_eq!(t.len(), 1);
    t.next_tab();
    t.prev_tab();
    assert_eq!(t.active_index(), 0);
}

#[test]
fn closing_first_tab_keeps_selection_valid() {
    let mut t = WorkspaceTabs::new('a');
    t.push_tab('b');
    t.switch_to(0);
    assert_eq!(t.close_active().map(|tab| tab.engine), Some('a'));
    assert_eq!(t.active_index(), 0);
    assert_eq!(*t.active_engine(), 'b');
}

#[test]
fn highest_pane_id() {
    assert_eq!(max_pane_id(&vec![]), 0);
    assert_eq!(max_pane_id(&vec![1000, 3001, 2000]), 3001);
    assert_eq!(PANE_ID_BLOCK, 1000);
}

#[test]
fn new_tab_after_close_gets_a_page_of_its_own() {
    let mut t = WorkspaceTabs::new('a');
    t.push_tab('b');
    t.push_tab('c');
    t.switch_to(2);
    assert_eq!(t.active_page_name(), "tab-2");
    t.close_tab(1).expect("closes");
    assert_eq!(t.push_tab('d'), 2);
    assert_eq!(t.len(), 3);
    assert_eq!(t.active_index(), 2);
    assert_eq!(t.titles(), vec!["Tab 1", "Tab 3", "Tab 4"]);
    assert_eq!(t.active_page_name(), "tab-3");
    t.switch_to(1);
    assert_eq!(t.active_page_name(), "tab-2");
    assert_eq!(*t.active_engine(), 'c');
}
