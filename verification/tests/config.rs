use cmux::config::{
    default_header_style, is_known_shortcut, resolved_accel, unknown_keys_of, unknown_shortcut_keys, Config,
    HeaderBarConfig, ShortcutAction, ShortcutBinding, ShortcutConfig, ShortcutMap, ALT_MASK,
    CONTROL_MASK, LOCK_MASK, SHIFT_MASK,
};

/// GDK keyvals of the keys the default accelerators use.
fn keyval(name: &str) -> Option<u32> {
    match name {
        "Tab" => Some(0xff09),
        "Page_Up" => Some(0xff55),
        "Page_Down" => Some(0xff56),
        "Left" => Some(0xff51),
        "Up" => Some(0xff52),
        "Right" => Some(0xff53),
        "Down" => Some(0xff54),
        "F2" => Some(0xffbf),
        _ => {
            let mut chars = name.chars();
            match (chars.next(), chars.next()) {
                (Some(c), None) if c.is_ascii_alphanumeric() => Some(c.to_ascii_lowercase() as u32),
                _ => None,
            }
        }
    }
}

/// The subset of GTK's accelerator syntax the defaults use: modifier tags
/// followed by a key name. Returns (keyval, modifier bits).
fn parse_accel(accel: &str) -> Option<(u32, u32)> {
    let mut rest = accel;
    let mut mods = 0;
    while let Some(stripped) = rest.strip_prefix('<') {
        let end = stripped.find('>')?;
        mods |= match &stripped[..end] {
            "Ctrl" | "Control" => CONTROL_MASK,
            "Shift" => SHIFT_MASK,
            "Alt" => ALT_MASK,
            _ => return None,
        };
        rest = &stripped[end + 1..];
    }
    Some((keyval(rest)?, mods))
}

/// GDK's `keyval_to_lower` on the keys the tests press: an upper-case
/// letter's keyval becomes the lower-case one, as pressing Shift reports it.
fn keyval_to_lower(keyval: u32) -> u32 {
    if ('A' as u32..='Z' as u32).contains(&keyval) {
        keyval + ('a' as u32 - 'A' as u32)
    } else {
        keyval
    }
}

fn configured_parses(config: &ShortcutConfig, action: ShortcutAction) -> bool {
    action.configured_accel(config).map_or(false, |a| parse_accel(a).is_some())
}

fn resolve(config: &ShortcutConfig, action: ShortcutAction) -> String {
    resolved_accel(config, action, configured_parses(config, action))
}

fn build_map(config: &ShortcutConfig) -> (ShortcutMap, usize) {
    let mut bindings = Vec::new();
    for action in ShortcutAction::all() {
        let accel = resolve(config, action);
        if let Some((keyval, mods)) = parse_accel(&accel) {
            bindings.push(ShortcutBinding { action, accel, mods, keyval });
        }
    }
    let (map, conflicts) = ShortcutMap::from_config(&bindings);
    (map, conflicts.len())
}

#[test]
fn gtk_shortcut_resolution() {
    let ctrl = CONTROL_MASK;
    // Defaults: Ctrl+N is NewWorkspace.
    let (smap, _) = build_map(&ShortcutConfig::default());
    assert_eq!(smap.lookup(ctrl, 'n' as u32), Some(ShortcutAction::NewWorkspace));
    // Ctrl+T defaults to a new tab inside the workspace.
    assert_eq!(smap.lookup(ctrl, 't' as u32), Some(ShortcutAction::NewTab));

    // A rebind moves the action and frees the old key.
    let config = ShortcutConfig { new_workspace: Some("<Ctrl>y".to_string()), ..Default::default() };
    let (smap, _) = build_map(&config);
    assert_eq!(smap.lookup(ctrl, 'y' as u32), Some(ShortcutAction::NewWorkspace));
    assert_eq!(smap.lookup(ctrl, 'n' as u32), None);

    // A rebound action reports the same accelerator to the key controller and
    // to the GTK accel table.
    let config = ShortcutConfig { split_right: Some("<Ctrl><Shift>e".to_string()), ..Default::default() };
    assert_eq!(resolve(&config, ShortcutAction::SplitRight), "<Ctrl><Shift>e");
    assert_eq!(ShortcutAction::SplitRight.gio_action(), Some("win.split-right"));
    let (smap, _) = build_map(&config);
    assert_eq!(
        smap.lookup(ctrl | SHIFT_MASK, keyval_to_lower('E' as u32)),
        Some(ShortcutAction::SplitRight)
    );
    assert_eq!(smap.lookup(ctrl, 'd' as u32), None, "Ctrl+D must stay free for the shell (EOF)");

    // An invalid accelerator falls back to the default on both sides.
    let config =
        ShortcutConfig { toggle_sidebar: Some("not-an-accelerator".to_string()), ..Default::default() };
    assert_eq!(
        resolve(&config, ShortcutAction::ToggleSidebar),
        ShortcutAction::ToggleSidebar.default_accel()
    );

    // Every default must parse.
    for action in ShortcutAction::all() {
        let accel = resolve(&ShortcutConfig::default(), action);
        assert!(parse_accel(&accel).is_some(), "default accel {accel:?} for {action:?} does not parse");
    }
}

#[test]
fn defaults_have_no_conflicts() {
    let (_, conflicts) = build_map(&ShortcutConfig::default());
    assert_eq!(conflicts, 0);
}

#[test]
fn conflicting_rebind_is_reported_and_later_action_wins() {
    // split_right onto split_down's default key: split_down comes later in
    // `all()` and takes the key back.
    let config = ShortcutConfig { split_right: Some("<Ctrl><Shift>d".to_string()), ..Default::default() };
    let (smap, conflicts) = build_map(&config);
    assert_eq!(conflicts, 1);
    assert_eq!(smap.lookup(CONTROL_MASK | SHIFT_MASK, 'd' as u32), Some(ShortcutAction::SplitDown));
    let mut bindings = Vec::new();
    bindings.push(ShortcutBinding { action: ShortcutAction::SplitRight, accel: "<Ctrl>k".to_string(), mods: CONTROL_MASK, keyval: 'k' as u32 });
    bindings.push(ShortcutBinding { action: ShortcutAction::ClosePane, accel: "<Ctrl>k".to_string(), mods: CONTROL_MASK, keyval: 'k' as u32 });
    let (map, conflicts) = ShortcutMap::from_config(&bindings);
    assert_eq!(conflicts.len(), 1);
    assert_eq!(conflicts[0].accel, "<Ctrl>k");
    assert_eq!(conflicts[0].action, ShortcutAction::ClosePane);
    assert_eq!(conflicts[0].previous, ShortcutAction::SplitRight);
    assert_eq!(map.lookup(CONTROL_MASK, 'k' as u32), Some(ShortcutAction::ClosePane));
}

#[test]
fn lookup_ignores_lock_modifiers() {
    let (smap, _) = build_map(&ShortcutConfig::default());
    assert_eq!(smap.lookup(CONTROL_MASK | LOCK_MASK, 'n' as u32), Some(ShortcutAction::NewWorkspace));
    assert_eq!(smap.lookup(CONTROL_MASK | 0x10, 'n' as u32), Some(ShortcutAction::NewWorkspace));
    assert_eq!(smap.lookup(0, 'n' as u32), None);
}

#[test]
fn default_accels_and_gio_actions() {
    assert_eq!(ShortcutAction::NewWindow.default_accel(), "<Ctrl><Shift>n");
    assert_eq!(ShortcutAction::RenameTab.default_accel(), "F2");
    assert_eq!(ShortcutAction::NextWorkspace.default_accel(), "<Ctrl>Tab");
    assert_eq!(ShortcutAction::Workspace9.default_accel(), "<Ctrl>9");
    assert_eq!(ShortcutAction::NewWorkspace.gio_action(), Some("win.new-workspace"));
    assert_eq!(ShortcutAction::BrowserClose.gio_action(), None);
    assert_eq!(ShortcutAction::all().len(), 31);
    assert_eq!(ShortcutAction::all()[0], ShortcutAction::NewWindow);
    assert_eq!(ShortcutAction::all()[30], ShortcutAction::BrowserClose);
}

#[test]
fn configured_and_resolved_accels() {
    let config = ShortcutConfig { close_pane: Some("<Ctrl>q".to_string()), ..Default::default() };
    assert_eq!(ShortcutAction::ClosePane.configured_accel(&config), Some("<Ctrl>q"));
    assert_eq!(ShortcutAction::NewTab.configured_accel(&config), None);
    assert_eq!(resolved_accel(&config, ShortcutAction::ClosePane, true), "<Ctrl>q");
    assert_eq!(resolved_accel(&config, ShortcutAction::ClosePane, false), "<Ctrl><Shift>x");
    assert_eq!(resolved_accel(&config, ShortcutAction::NewTab, true), "<Ctrl>t");
}

#[test]
fn known_and_unknown_shortcut_keys() {
    assert!(is_known_shortcut("new_workspace"));
    assert!(is_known_shortcut("workspace_9"));
    assert!(!is_known_shortcut("new_workspac"));
    assert!(!is_known_shortcut(""));
    let content = "[shortcuts]\nnew_workspace = \"<Ctrl>t\"\nbogus = \"x\"\nzzz = \"y\"\n";
    assert_eq!(unknown_shortcut_keys(content), vec!["bogus".to_string(), "zzz".to_string()]);
    assert!(unknown_shortcut_keys("").is_empty());
    assert!(unknown_shortcut_keys("[shortcuts\n").is_empty());
    assert!(unknown_shortcut_keys("[ui]\nfoo = 1\n").is_empty());
    assert!(unknown_shortcut_keys("shortcuts = 3\n").is_empty());
    let keys = vec!["new_tab".to_string(), "nope".to_string(), "close_pane".to_string()];
    assert_eq!(unknown_keys_of(&keys), vec!["nope".to_string()]);
}

#[test]
fn default_config_has_no_overrides() {
    let config = Config::default();
    assert!(config.shortcuts.new_workspace.is_none());
    assert!(config.shortcuts.close_workspace.is_none());
}

#[test]
fn default_ui_config() {
    let config = Config::default();
    assert_eq!(config.ui.header_bar.style, "gtk");
    assert!(config.ui.header_bar.buttons_left.is_none());
    assert_eq!(default_header_style(), "gtk");
    assert_eq!(HeaderBarConfig::default().style, "gtk");
    assert!(config.browser.chromium_path.is_none());
}
