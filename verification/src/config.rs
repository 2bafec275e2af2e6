//! Configuration read from `~/.config/cmux/config.toml`, and the keyboard
//! shortcut table built from it.
//!
//! Parsing the TOML document into [`Config`] and asking GTK whether an
//! accelerator string parses happen at the application's edge; this module
//! holds the data, the built-in defaults and every decision taken on them.

use std::collections::HashMap;
use vstd::prelude::*;
use vstd::string::*;
use crate::text::str_eq;

verus! {

broadcast use vstd::std_specs::hash::group_hash_axioms;

/// Top-level config (`config.toml`).
pub struct Config {
    /// `[shortcuts]`: per-action accelerator overrides.
    pub shortcuts: ShortcutConfig,
    /// `[ui]`: look of the window.
    pub ui: UiConfig,
    /// `[browser]`: the preview browser.
    pub browser: BrowserConfig,
}

/// Browser configuration section (`[browser]`): which Chromium binary the
/// preview pane spawns.
#[derive(Clone)]
pub struct BrowserConfig {
    /// Override path to a Chromium/Chrome executable. When set, this wins
    /// over the bundled and system-PATH discovery.
    pub chromium_path: Option<String>,
}

/// Per-action shortcut overrides. Each value is a GTK accelerator string
/// (e.g. `"<Ctrl>n"`); `None` means "use the default".
pub struct ShortcutConfig {
    pub new_window: Option<String>,
    pub new_tab: Option<String>,
    pub close_tab: Option<String>,
    pub rename_tab: Option<String>,
    pub next_tab: Option<String>,
    pub prev_tab: Option<String>,
    pub new_workspace: Option<String>,
    pub close_workspace: Option<String>,
    pub next_workspace: Option<String>,
    pub prev_workspace: Option<String>,
    pub rename_workspace: Option<String>,
    pub toggle_sidebar: Option<String>,
    pub split_right: Option<String>,
    pub split_down: Option<String>,
    pub close_pane: Option<String>,
    pub new_ssh_workspace: Option<String>,
    pub focus_left: Option<String>,
    pub focus_right: Option<String>,
    pub focus_up: Option<String>,
    pub focus_down: Option<String>,
    pub workspace_1: Option<String>,
    pub workspace_2: Option<String>,
    pub workspace_3: Option<String>,
    pub workspace_4: Option<String>,
    pub workspace_5: Option<String>,
    pub workspace_6: Option<String>,
    pub workspace_7: Option<String>,
    pub workspace_8: Option<String>,
    pub workspace_9: Option<String>,
    pub browser_open: Option<String>,
    pub browser_close: Option<String>,
}

/// UI configuration section (`[ui]`).
pub struct UiConfig {
    /// `[ui.header_bar]`.
    pub header_bar: HeaderBarConfig,
}

/// Header bar configuration (`[ui.header_bar]`). Takes effect on restart.
pub struct HeaderBarConfig {
    /// `"gtk"` (default, full header bar), `"custom"` (user-specified
    /// buttons) or `"none"` (no header bar).
    pub style: String,
    /// Button names for the left side (used when `style` is `"custom"`).
    pub buttons_left: Option<Vec<String>>,
    /// Button names for the right side (used when `style` is `"custom"`).
    pub buttons_right: Option<Vec<String>>,
}

/// The view of an optional owned string.
pub open spec fn opt_view(o: Option<String>) -> Option<Seq<char>> {
    match o {
        Some(s) => Some(s@),
        None => None,
    }
}

/// The view of an optional borrowed string.
pub open spec fn opt_str_view(o: Option<&str>) -> Option<Seq<char>> {
    match o {
        Some(s) => Some(s@),
        None => None,
    }
}

fn opt_str<'a>(o: &'a Option<String>) -> (r: Option<&'a str>)
    ensures
        opt_str_view(r) == opt_view(*o),
{
    match o {
        Some(s) => Some(s.as_str()),
        None => None,
    }
}

/// The header bar style used when the config names none.
pub fn default_header_style() -> (s: String)
    ensures
        s@ == "gtk"@,
{
    String::from_str("gtk")
}

impl ShortcutConfig {
    /// True when no action is overridden.
    pub open spec fn is_unset(&self) -> bool {
        &&& self.new_window is None
        &&& self.new_tab is None
        &&& self.close_tab is None
        &&& self.rename_tab is None
        &&& self.next_tab is None
        &&& self.prev_tab is None
        &&& self.new_workspace is None
        &&& self.close_workspace is None
        &&& self.next_workspace is None
        &&& self.prev_workspace is None
        &&& self.rename_workspace is None
        &&& self.toggle_sidebar is None
        &&& self.split_right is None
        &&& self.split_down is None
        &&& self.close_pane is None
        &&& self.new_ssh_workspace is None
        &&& self.focus_left is None
        &&& self.focus_right is None
        &&& self.focus_up is None
        &&& self.focus_down is None
        &&& self.workspace_1 is None
        &&& self.workspace_2 is None
        &&& self.workspace_3 is None
        &&& self.workspace_4 is None
        &&& self.workspace_5 is None
        &&& self.workspace_6 is None
        &&& self.workspace_7 is None
        &&& self.workspace_8 is None
        &&& self.workspace_9 is None
        &&& self.browser_open is None
        &&& self.browser_close is None
    }
}

impl Default for ShortcutConfig {
    fn default() -> (c: Self)
        ensures
            c.is_unset(),
    {
        ShortcutConfig {
            new_window: None,
            new_tab: None,
            close_tab: None,
            rename_tab: None,
            next_tab: None,
            prev_tab: None,
            new_workspace: None,
            close_workspace: None,
            next_workspace: None,
            prev_workspace: None,
            rename_workspace: None,
            toggle_sidebar: None,
            split_right: None,
            split_down: None,
            close_pane: None,
            new_ssh_workspace: None,
            focus_left: None,
            focus_right: None,
            focus_up: None,
            focus_down: None,
            workspace_1: None,
            workspace_2: None,
            workspace_3: None,
            workspace_4: None,
            workspace_5: None,
            workspace_6: None,
            workspace_7: None,
            workspace_8: None,
            workspace_9: None,
            browser_open: None,
            browser_close: None,
        }
    }
}

impl Default for HeaderBarConfig {
    fn default() -> (h: Self)
        ensures
            h.style@ == "gtk"@,
            h.buttons_left is None,
            h.buttons_right is None,
    {
        HeaderBarConfig { style: default_header_style(), buttons_left: None, buttons_right: None }
    }
}

impl Default for UiConfig {
    fn default() -> (u: Self)
        ensures
            u.header_bar.style@ == "gtk"@,
            u.header_bar.buttons_left is None,
            u.header_bar.buttons_right is None,
    {
        UiConfig { header_bar: HeaderBarConfig::default() }
    }
}

impl Default for BrowserConfig {
    fn default() -> (b: Self)
        ensures
            b.chromium_path is None,
    {
        BrowserConfig { chromium_path: None }
    }
}

impl Default for Config {
    /// The configuration in force when the file is missing or unreadable.
    fn default() -> (c: Self)
        ensures
            c.shortcuts.is_unset(),
            c.ui.header_bar.style@ == "gtk"@,
            c.ui.header_bar.buttons_left is None,
            c.ui.header_bar.buttons_right is None,
            c.browser.chromium_path is None,
    {
        Config {
            shortcuts: ShortcutConfig::default(),
            ui: UiConfig::default(),
            browser: BrowserConfig::default(),
        }
    }
}

/// All bindable shortcut actions.
#[derive(Debug, Clone, Copy, PartialEq, Eq, Hash, Structural)]
pub enum ShortcutAction {
    NewWindow,
    NewTab,
    CloseTab,
    RenameTab,
    NextTab,
    PrevTab,
    NewWorkspace,
    CloseWorkspace,
    NextWorkspace,
    PrevWorkspace,
    RenameWorkspace,
    ToggleSidebar,
    SplitRight,
    SplitDown,
    ClosePane,
    NewSshWorkspace,
    FocusLeft,
    FocusRight,
    FocusUp,
    FocusDown,
    Workspace1,
    Workspace2,
    Workspace3,
    Workspace4,
    Workspace5,
    Workspace6,
    Workspace7,
    Workspace8,
    Workspace9,
    BrowserOpen,
    BrowserClose,
}

/// Every action, in the stable order the shortcut table is built in.
pub open spec fn all_actions() -> Seq<ShortcutAction> {
    seq![
        ShortcutAction::NewWindow,
        ShortcutAction::NewTab,
        ShortcutAction::CloseTab,
        ShortcutAction::RenameTab,
        ShortcutAction::NextTab,
        ShortcutAction::PrevTab,
        ShortcutAction::NewWorkspace,
        ShortcutAction::CloseWorkspace,
        ShortcutAction::NextWorkspace,
        ShortcutAction::PrevWorkspace,
        ShortcutAction::RenameWorkspace,
        ShortcutAction::ToggleSidebar,
        ShortcutAction::SplitRight,
        ShortcutAction::SplitDown,
        ShortcutAction::ClosePane,
        ShortcutAction::NewSshWorkspace,
        ShortcutAction::FocusLeft,
        ShortcutAction::FocusRight,
        ShortcutAction::FocusUp,
        ShortcutAction::FocusDown,
        ShortcutAction::Workspace1,
        ShortcutAction::Workspace2,
        ShortcutAction::Workspace3,
        ShortcutAction::Workspace4,
        ShortcutAction::Workspace5,
        ShortcutAction::Workspace6,
        ShortcutAction::Workspace7,
        ShortcutAction::Workspace8,
        ShortcutAction::Workspace9,
        ShortcutAction::BrowserOpen,
        ShortcutAction::BrowserClose,
    ]
}

impl ShortcutAction {
    /// Position of the action in `all_actions()`.
    pub open spec fn position(self) -> int {
        match self {
            ShortcutAction::NewWindow => 0,
            ShortcutAction::NewTab => 1,
            ShortcutAction::CloseTab => 2,
            ShortcutAction::RenameTab => 3,
            ShortcutAction::NextTab => 4,
            ShortcutAction::PrevTab => 5,
            ShortcutAction::NewWorkspace => 6,
            ShortcutAction::CloseWorkspace => 7,
            ShortcutAction::NextWorkspace => 8,
            ShortcutAction::PrevWorkspace => 9,
            ShortcutAction::RenameWorkspace => 10,
            ShortcutAction::ToggleSidebar => 11,
            ShortcutAction::SplitRight => 12,
            ShortcutAction::SplitDown => 13,
            ShortcutAction::ClosePane => 14,
            ShortcutAction::NewSshWorkspace => 15,
            ShortcutAction::FocusLeft => 16,
            ShortcutAction::FocusRight => 17,
            ShortcutAction::FocusUp => 18,
            ShortcutAction::FocusDown => 19,
            ShortcutAction::Workspace1 => 20,
            ShortcutAction::Workspace2 => 21,
            ShortcutAction::Workspace3 => 22,
            ShortcutAction::Workspace4 => 23,
            ShortcutAction::Workspace5 => 24,
            ShortcutAction::Workspace6 => 25,
            ShortcutAction::Workspace7 => 26,
            ShortcutAction::Workspace8 => 27,
            ShortcutAction::Workspace9 => 28,
            ShortcutAction::BrowserOpen => 29,
            ShortcutAction::BrowserClose => 30,
        }
    }

    /// The built-in accelerator of the action.
    pub open spec fn default_accel_spec(self) -> Seq<char> {
        match self {
            ShortcutAction::NewWindow => "<Ctrl><Shift>n"@,
            ShortcutAction::NewTab => "<Ctrl>t"@,
            ShortcutAction::CloseTab => "<Ctrl>w"@,
            ShortcutAction::RenameTab => "F2"@,
            ShortcutAction::NextTab => "<Ctrl>Page_Down"@,
            ShortcutAction::PrevTab => "<Ctrl>Page_Up"@,
            ShortcutAction::NewWorkspace => "<Ctrl>n"@,
            ShortcutAction::CloseWorkspace => "<Ctrl><Shift>w"@,
            ShortcutAction::NextWorkspace => "<Ctrl>Tab"@,
            ShortcutAction::PrevWorkspace => "<Ctrl><Shift>Tab"@,
            ShortcutAction::RenameWorkspace => "<Ctrl><Shift>r"@,
            ShortcutAction::ToggleSidebar => "<Ctrl>b"@,
            ShortcutAction::SplitRight => "<Ctrl>d"@,
            ShortcutAction::SplitDown => "<Ctrl><Shift>d"@,
            ShortcutAction::ClosePane => "<Ctrl><Shift>x"@,
            ShortcutAction::NewSshWorkspace => "<Ctrl><Shift>s"@,
            ShortcutAction::FocusLeft => "<Ctrl><Shift>Left"@,
            ShortcutAction::FocusRight => "<Ctrl><Shift>Right"@,
            ShortcutAction::FocusUp => "<Ctrl><Shift>Up"@,
            ShortcutAction::FocusDown => "<Ctrl><Shift>Down"@,
            ShortcutAction::Workspace1 => "<Ctrl>1"@,
            ShortcutAction::Workspace2 => "<Ctrl>2"@,
            ShortcutAction::Workspace3 => "<Ctrl>3"@,
            ShortcutAction::Workspace4 => "<Ctrl>4"@,
            ShortcutAction::Workspace5 => "<Ctrl>5"@,
            ShortcutAction::Workspace6 => "<Ctrl>6"@,
            ShortcutAction::Workspace7 => "<Ctrl>7"@,
            ShortcutAction::Workspace8 => "<Ctrl>8"@,
            ShortcutAction::Workspace9 => "<Ctrl>9"@,
            ShortcutAction::BrowserOpen => "<Ctrl><Shift>b"@,
            ShortcutAction::BrowserClose => "<Ctrl><Shift>q"@,
        }
    }

    /// The GIO action that the action also dispatches through the menu system.
    pub open spec fn gio_action_spec(self) -> Option<Seq<char>> {
        match self {
            ShortcutAction::NewWindow => None,
            ShortcutAction::NewTab => None,
            ShortcutAction::CloseTab => None,
            ShortcutAction::RenameTab => None,
            ShortcutAction::NextTab => None,
            ShortcutAction::PrevTab => None,
            ShortcutAction::NewWorkspace => Some("win.new-workspace"@),
            ShortcutAction::CloseWorkspace => Some("win.close-workspace"@),
            ShortcutAction::NextWorkspace => None,
            ShortcutAction::PrevWorkspace => None,
            ShortcutAction::RenameWorkspace => Some("win.rename-workspace"@),
            ShortcutAction::ToggleSidebar => Some("win.toggle-sidebar"@),
            ShortcutAction::SplitRight => Some("win.split-right"@),
            ShortcutAction::SplitDown => Some("win.split-down"@),
            ShortcutAction::ClosePane => Some("win.close-pane"@),
            ShortcutAction::NewSshWorkspace => Some("win.new-ssh-workspace"@),
            ShortcutAction::FocusLeft => None,
            ShortcutAction::FocusRight => None,
            ShortcutAction::FocusUp => None,
            ShortcutAction::FocusDown => None,
            ShortcutAction::Workspace1 => None,
            ShortcutAction::Workspace2 => None,
            ShortcutAction::Workspace3 => None,
            ShortcutAction::Workspace4 => None,
            ShortcutAction::Workspace5 => None,
            ShortcutAction::Workspace6 => None,
            ShortcutAction::Workspace7 => None,
            ShortcutAction::Workspace8 => None,
            ShortcutAction::Workspace9 => None,
            ShortcutAction::BrowserOpen => Some("win.browser-open"@),
            ShortcutAction::BrowserClose => None,
        }
    }

    /// The key of the action in the `[shortcuts]` table.
    pub open spec fn config_key_spec(self) -> Seq<char> {
        match self {
            ShortcutAction::NewWindow => "new_window"@,
            ShortcutAction::NewTab => "new_tab"@,
            ShortcutAction::CloseTab => "close_tab"@,
            ShortcutAction::RenameTab => "rename_tab"@,
            ShortcutAction::NextTab => "next_tab"@,
            ShortcutAction::PrevTab => "prev_tab"@,
            ShortcutAction::NewWorkspace => "new_workspace"@,
            ShortcutAction::CloseWorkspace => "close_workspace"@,
            ShortcutAction::NextWorkspace => "next_workspace"@,
            ShortcutAction::PrevWorkspace => "prev_workspace"@,
            ShortcutAction::RenameWorkspace => "rename_workspace"@,
            ShortcutAction::ToggleSidebar => "toggle_sidebar"@,
            ShortcutAction::SplitRight => "split_right"@,
            ShortcutAction::SplitDown => "split_down"@,
            ShortcutAction::ClosePane => "close_pane"@,
            ShortcutAction::NewSshWorkspace => "new_ssh_workspace"@,
            ShortcutAction::FocusLeft => "focus_left"@,
            ShortcutAction::FocusRight => "focus_right"@,
            ShortcutAction::FocusUp => "focus_up"@,
            ShortcutAction::FocusDown => "focus_down"@,
            ShortcutAction::Workspace1 => "workspace_1"@,
            ShortcutAction::Workspace2 => "workspace_2"@,
            ShortcutAction::Workspace3 => "workspace_3"@,
            ShortcutAction::Workspace4 => "workspace_4"@,
            ShortcutAction::Workspace5 => "workspace_5"@,
            ShortcutAction::Workspace6 => "workspace_6"@,
            ShortcutAction::Workspace7 => "workspace_7"@,
            ShortcutAction::Workspace8 => "workspace_8"@,
            ShortcutAction::Workspace9 => "workspace_9"@,
            ShortcutAction::BrowserOpen => "browser_open"@,
            ShortcutAction::BrowserClose => "browser_close"@,
        }
    }

    /// The user's override for the action, if the config sets one.
    pub open spec fn configured_spec(self, config: ShortcutConfig) -> Option<Seq<char>> {
        match self {
            ShortcutAction::NewWindow => opt_view(config.new_window),
            ShortcutAction::NewTab => opt_view(config.new_tab),
            ShortcutAction::CloseTab => opt_view(config.close_tab),
            ShortcutAction::RenameTab => opt_view(config.rename_tab),
            ShortcutAction::NextTab => opt_view(config.next_tab),
            ShortcutAction::PrevTab => opt_view(config.prev_tab),
            ShortcutAction::NewWorkspace => opt_view(config.new_workspace),
            ShortcutAction::CloseWorkspace => opt_view(config.close_workspace),
            ShortcutAction::NextWorkspace => opt_view(config.next_workspace),
            ShortcutAction::PrevWorkspace => opt_view(config.prev_workspace),
            ShortcutAction::RenameWorkspace => opt_view(config.rename_workspace),
            ShortcutAction::ToggleSidebar => opt_view(config.toggle_sidebar),
            ShortcutAction::SplitRight => opt_view(config.split_right),
            ShortcutAction::SplitDown => opt_view(config.split_down),
            ShortcutAction::ClosePane => opt_view(config.close_pane),
            ShortcutAction::NewSshWorkspace => opt_view(config.new_ssh_workspace),
            ShortcutAction::FocusLeft => opt_view(config.focus_left),
            ShortcutAction::FocusRight => opt_view(config.focus_right),
            ShortcutAction::FocusUp => opt_view(config.focus_up),
            ShortcutAction::FocusDown => opt_view(config.focus_down),
            ShortcutAction::Workspace1 => opt_view(config.workspace_1),
            ShortcutAction::Workspace2 => opt_view(config.workspace_2),
            ShortcutAction::Workspace3 => opt_view(config.workspace_3),
            ShortcutAction::Workspace4 => opt_view(config.workspace_4),
            ShortcutAction::Workspace5 => opt_view(config.workspace_5),
            ShortcutAction::Workspace6 => opt_view(config.workspace_6),
            ShortcutAction::Workspace7 => opt_view(config.workspace_7),
            ShortcutAction::Workspace8 => opt_view(config.workspace_8),
            ShortcutAction::Workspace9 => opt_view(config.workspace_9),
            ShortcutAction::BrowserOpen => opt_view(config.browser_open),
            ShortcutAction::BrowserClose => opt_view(config.browser_close),
        }
    }

    /// Every action, in a stable order: each action occurs exactly once.
    pub fn all() -> (v: Vec<ShortcutAction>)
        ensures
            v@ == all_actions(),
    {
        let mut v: Vec<ShortcutAction> = Vec::new();
        v.push(ShortcutAction::NewWindow);
        v.push(ShortcutAction::NewTab);
        v.push(ShortcutAction::CloseTab);
        v.push(ShortcutAction::RenameTab);
        v.push(ShortcutAction::NextTab);
        v.push(ShortcutAction::PrevTab);
        v.push(ShortcutAction::NewWorkspace);
        v.push(ShortcutAction::CloseWorkspace);
        v.push(ShortcutAction::NextWorkspace);
        v.push(ShortcutAction::PrevWorkspace);
        v.push(ShortcutAction::RenameWorkspace);
        v.push(ShortcutAction::ToggleSidebar);
        v.push(ShortcutAction::SplitRight);
        v.push(ShortcutAction::SplitDown);
        v.push(ShortcutAction::ClosePane);
        v.push(ShortcutAction::NewSshWorkspace);
        v.push(ShortcutAction::FocusLeft);
        v.push(ShortcutAction::FocusRight);
        v.push(ShortcutAction::FocusUp);
        v.push(ShortcutAction::FocusDown);
        v.push(ShortcutAction::Workspace1);
        v.push(ShortcutAction::Workspace2);
        v.push(ShortcutAction::Workspace3);
        v.push(ShortcutAction::Workspace4);
        v.push(ShortcutAction::Workspace5);
        v.push(ShortcutAction::Workspace6);
        v.push(ShortcutAction::Workspace7);
        v.push(ShortcutAction::Workspace8);
        v.push(ShortcutAction::Workspace9);
        v.push(ShortcutAction::BrowserOpen);
        v.push(ShortcutAction::BrowserClose);
        assert(v@ =~= all_actions());
        v
    }

    /// Built-in accelerator used when the config does not override it.
    pub fn default_accel(self) -> (s: &'static str)
        ensures
            s@ == self.default_accel_spec(),
    {
        match self {
            ShortcutAction::NewWindow => "<Ctrl><Shift>n",
            ShortcutAction::NewTab => "<Ctrl>t",
            ShortcutAction::CloseTab => "<Ctrl>w",
            ShortcutAction::RenameTab => "F2",
            ShortcutAction::NextTab => "<Ctrl>Page_Down",
            ShortcutAction::PrevTab => "<Ctrl>Page_Up",
            ShortcutAction::NewWorkspace => "<Ctrl>n",
            ShortcutAction::CloseWorkspace => "<Ctrl><Shift>w",
            ShortcutAction::NextWorkspace => "<Ctrl>Tab",
            ShortcutAction::PrevWorkspace => "<Ctrl><Shift>Tab",
            ShortcutAction::RenameWorkspace => "<Ctrl><Shift>r",
            ShortcutAction::ToggleSidebar => "<Ctrl>b",
            ShortcutAction::SplitRight => "<Ctrl>d",
            ShortcutAction::SplitDown => "<Ctrl><Shift>d",
            ShortcutAction::ClosePane => "<Ctrl><Shift>x",
            ShortcutAction::NewSshWorkspace => "<Ctrl><Shift>s",
            ShortcutAction::FocusLeft => "<Ctrl><Shift>Left",
            ShortcutAction::FocusRight => "<Ctrl><Shift>Right",
            ShortcutAction::FocusUp => "<Ctrl><Shift>Up",
            ShortcutAction::FocusDown => "<Ctrl><Shift>Down",
            ShortcutAction::Workspace1 => "<Ctrl>1",
            ShortcutAction::Workspace2 => "<Ctrl>2",
            ShortcutAction::Workspace3 => "<Ctrl>3",
            ShortcutAction::Workspace4 => "<Ctrl>4",
            ShortcutAction::Workspace5 => "<Ctrl>5",
            ShortcutAction::Workspace6 => "<Ctrl>6",
            ShortcutAction::Workspace7 => "<Ctrl>7",
            ShortcutAction::Workspace8 => "<Ctrl>8",
            ShortcutAction::Workspace9 => "<Ctrl>9",
            ShortcutAction::BrowserOpen => "<Ctrl><Shift>b",
            ShortcutAction::BrowserClose => "<Ctrl><Shift>q",
        }
    }

    /// The GIO action this shortcut also dispatches through the menu system,
    /// when there is one. Any action listed here must be registered with the
    /// accelerator the shortcut table uses, or GTK's own accelerator table
    /// fires first and the user's config is silently dead.
    pub fn gio_action(self) -> (s: Option<&'static str>)
        ensures
            opt_str_view(s) == self.gio_action_spec(),
    {
        match self {
            ShortcutAction::NewWindow => None,
            ShortcutAction::NewTab => None,
            ShortcutAction::CloseTab => None,
            ShortcutAction::RenameTab => None,
            ShortcutAction::NextTab => None,
            ShortcutAction::PrevTab => None,
            ShortcutAction::NewWorkspace => Some("win.new-workspace"),
            ShortcutAction::CloseWorkspace => Some("win.close-workspace"),
            ShortcutAction::NextWorkspace => None,
            ShortcutAction::PrevWorkspace => None,
            ShortcutAction::RenameWorkspace => Some("win.rename-workspace"),
            ShortcutAction::ToggleSidebar => Some("win.toggle-sidebar"),
            ShortcutAction::SplitRight => Some("win.split-right"),
            ShortcutAction::SplitDown => Some("win.split-down"),
            ShortcutAction::ClosePane => Some("win.close-pane"),
            ShortcutAction::NewSshWorkspace => Some("win.new-ssh-workspace"),
            ShortcutAction::FocusLeft => None,
            ShortcutAction::FocusRight => None,
            ShortcutAction::FocusUp => None,
            ShortcutAction::FocusDown => None,
            ShortcutAction::Workspace1 => None,
            ShortcutAction::Workspace2 => None,
            ShortcutAction::Workspace3 => None,
            ShortcutAction::Workspace4 => None,
            ShortcutAction::Workspace5 => None,
            ShortcutAction::Workspace6 => None,
            ShortcutAction::Workspace7 => None,
            ShortcutAction::Workspace8 => None,
            ShortcutAction::Workspace9 => None,
            ShortcutAction::BrowserOpen => Some("win.browser-open"),
            ShortcutAction::BrowserClose => None,
        }
    }

    /// The key that overrides the action in the `[shortcuts]` table.
    pub fn config_key(self) -> (s: &'static str)
        ensures
            s@ == self.config_key_spec(),
    {
        match self {
            ShortcutAction::NewWindow => "new_window",
            ShortcutAction::NewTab => "new_tab",
            ShortcutAction::CloseTab => "close_tab",
            ShortcutAction::RenameTab => "rename_tab",
            ShortcutAction::NextTab => "next_tab",
            ShortcutAction::PrevTab => "prev_tab",
            ShortcutAction::NewWorkspace => "new_workspace",
            ShortcutAction::CloseWorkspace => "close_workspace",
            ShortcutAction::NextWorkspace => "next_workspace",
            ShortcutAction::PrevWorkspace => "prev_workspace",
            ShortcutAction::RenameWorkspace => "rename_workspace",
            ShortcutAction::ToggleSidebar => "toggle_sidebar",
            ShortcutAction::SplitRight => "split_right",
            ShortcutAction::SplitDown => "split_down",
            ShortcutAction::ClosePane => "close_pane",
            ShortcutAction::NewSshWorkspace => "new_ssh_workspace",
            ShortcutAction::FocusLeft => "focus_left",
            ShortcutAction::FocusRight => "focus_right",
            ShortcutAction::FocusUp => "focus_up",
            ShortcutAction::FocusDown => "focus_down",
            ShortcutAction::Workspace1 => "workspace_1",
            ShortcutAction::Workspace2 => "workspace_2",
            ShortcutAction::Workspace3 => "workspace_3",
            ShortcutAction::Workspace4 => "workspace_4",
            ShortcutAction::Workspace5 => "workspace_5",
            ShortcutAction::Workspace6 => "workspace_6",
            ShortcutAction::Workspace7 => "workspace_7",
            ShortcutAction::Workspace8 => "workspace_8",
            ShortcutAction::Workspace9 => "workspace_9",
            ShortcutAction::BrowserOpen => "browser_open",
            ShortcutAction::BrowserClose => "browser_close",
        }
    }

    /// The user's override for this action, if the config sets one.
    pub fn configured_accel(self, config: &ShortcutConfig) -> (s: Option<&str>)
        ensures
            opt_str_view(s) == self.configured_spec(*config),
    {
        match self {
            ShortcutAction::NewWindow => opt_str(&config.new_window),
            ShortcutAction::NewTab => opt_str(&config.new_tab),
            ShortcutAction::CloseTab => opt_str(&config.close_tab),
            ShortcutAction::RenameTab => opt_str(&config.rename_tab),
            ShortcutAction::NextTab => opt_str(&config.next_tab),
            ShortcutAction::PrevTab => opt_str(&config.prev_tab),
            ShortcutAction::NewWorkspace => opt_str(&config.new_workspace),
            ShortcutAction::CloseWorkspace => opt_str(&config.close_workspace),
            ShortcutAction::NextWorkspace => opt_str(&config.next_workspace),
            ShortcutAction::PrevWorkspace => opt_str(&config.prev_workspace),
            ShortcutAction::RenameWorkspace => opt_str(&config.rename_workspace),
            ShortcutAction::ToggleSidebar => opt_str(&config.toggle_sidebar),
            ShortcutAction::SplitRight => opt_str(&config.split_right),
            ShortcutAction::SplitDown => opt_str(&config.split_down),
            ShortcutAction::ClosePane => opt_str(&config.close_pane),
            ShortcutAction::NewSshWorkspace => opt_str(&config.new_ssh_workspace),
            ShortcutAction::FocusLeft => opt_str(&config.focus_left),
            ShortcutAction::FocusRight => opt_str(&config.focus_right),
            ShortcutAction::FocusUp => opt_str(&config.focus_up),
            ShortcutAction::FocusDown => opt_str(&config.focus_down),
            ShortcutAction::Workspace1 => opt_str(&config.workspace_1),
            ShortcutAction::Workspace2 => opt_str(&config.workspace_2),
            ShortcutAction::Workspace3 => opt_str(&config.workspace_3),
            ShortcutAction::Workspace4 => opt_str(&config.workspace_4),
            ShortcutAction::Workspace5 => opt_str(&config.workspace_5),
            ShortcutAction::Workspace6 => opt_str(&config.workspace_6),
            ShortcutAction::Workspace7 => opt_str(&config.workspace_7),
            ShortcutAction::Workspace8 => opt_str(&config.workspace_8),
            ShortcutAction::Workspace9 => opt_str(&config.workspace_9),
            ShortcutAction::BrowserOpen => opt_str(&config.browser_open),
            ShortcutAction::BrowserClose => opt_str(&config.browser_close),
        }
    }
}

/// `ShortcutAction::all()` lists every action exactly once: each action sits
/// at its own position, and the action at each position is the one whose
/// position it is.
pub proof fn law_all_lists_each_action_once()
    ensures
        all_actions().len() == 31,
        forall|a: ShortcutAction|
            0 <= #[trigger] a.position() < 31 && all_actions()[a.position()] == a,
        forall|i: int| 0 <= i < 31 ==> (#[trigger] all_actions()[i]).position() == i,
{
    assert forall|a: ShortcutAction|
        0 <= #[trigger] a.position() < 31 && all_actions()[a.position()] == a by {
        match a {
            _ => {},
        }
    }
}

/// No two actions share a default accelerator, so the built-in bindings
/// never conflict with each other.
pub proof fn law_default_accels_distinct(a: ShortcutAction, b: ShortcutAction)
    requires
        a != b,
    ensures
        a.default_accel_spec() != b.default_accel_spec(),
{
    reveal_strlit("<Ctrl><Shift>n");
    reveal_strlit("<Ctrl>t");
    reveal_strlit("<Ctrl>w");
    reveal_strlit("F2");
    reveal_strlit("<Ctrl>Page_Down");
    reveal_strlit("<Ctrl>Page_Up");
    reveal_strlit("<Ctrl>n");
    reveal_strlit("<Ctrl><Shift>w");
    reveal_strlit("<Ctrl>Tab");
    reveal_strlit("<Ctrl><Shift>Tab");
    reveal_strlit("<Ctrl><Shift>r");
    reveal_strlit("<Ctrl>b");
    reveal_strlit("<Ctrl>d");
    reveal_strlit("<Ctrl><Shift>d");
    reveal_strlit("<Ctrl><Shift>x");
    reveal_strlit("<Ctrl><Shift>s");
    reveal_strlit("<Ctrl><Shift>Left");
    reveal_strlit("<Ctrl><Shift>Right");
    reveal_strlit("<Ctrl><Shift>Up");
    reveal_strlit("<Ctrl><Shift>Down");
    reveal_strlit("<Ctrl>1");
    reveal_strlit("<Ctrl>2");
    reveal_strlit("<Ctrl>3");
    reveal_strlit("<Ctrl>4");
    reveal_strlit("<Ctrl>5");
    reveal_strlit("<Ctrl>6");
    reveal_strlit("<Ctrl>7");
    reveal_strlit("<Ctrl>8");
    reveal_strlit("<Ctrl>9");
    reveal_strlit("<Ctrl><Shift>b");
    reveal_strlit("<Ctrl><Shift>q");
    let sa = a.default_accel_spec();
    let sb = b.default_accel_spec();
    if sa == sb {
        assert(sa.len() == sb.len());
        assert(sa[sa.len() - 1] == sb[sb.len() - 1]);
    }
}

/// The accelerator in force for an action: the configured one when GTK
/// accepts it, the built-in default otherwise.
pub open spec fn resolved_accel_spec(
    config: ShortcutConfig,
    action: ShortcutAction,
    configured_parses: bool,
) -> Seq<char> {
    match action.configured_spec(config) {
        Some(accel) => if configured_parses {
            accel
        } else {
            action.default_accel_spec()
        },
        None => action.default_accel_spec(),
    }
}

/// Resolves the accelerator actually in force for an action: the config
/// value when it parses (`configured_parses` is GTK's verdict on
/// `action.configured_accel(config)`), otherwise the built-in default.
///
/// Single source of truth for both the key-controller lookup table and the
/// GTK accelerator registration: GTK's table wins over the widget key
/// controller, so a divergence means the config silently does nothing.
pub fn resolved_accel(config: &ShortcutConfig, action: ShortcutAction, configured_parses: bool) -> (s:
    String)
    ensures
        s@ == resolved_accel_spec(*config, action, configured_parses),
{
    match action.configured_accel(config) {
        Some(accel) => if configured_parses {
            String::from_str(accel)
        } else {
            String::from_str(action.default_accel())
        },
        None => String::from_str(action.default_accel()),
    }
}

/// True when `key` names an action of the `[shortcuts]` table.
pub open spec fn known_shortcut(key: Seq<char>) -> bool {
    exists|a: ShortcutAction| #[trigger] a.config_key_spec() == key
}

/// True when `key` is one of the shortcut action names `[shortcuts]` accepts.
pub fn is_known_shortcut(key: &str) -> (b: bool)
    ensures
        b == known_shortcut(key@),
{
    let all = ShortcutAction::all();
    proof {
        law_all_lists_each_action_once();
    }
    let mut i: usize = 0;
    while i < all.len()
        invariant
            i <= all.len(),
            all@ == all_actions(),
            forall|j: int| 0 <= j < i ==> all_actions()[j].config_key_spec() != key@,
        decreases all.len() - i,
    {
        let a = all[i];
        if str_eq(key, a.config_key()) {
            return true;
        }
        i = i + 1;
    }
    proof {
        assert forall|a: ShortcutAction| #[trigger] a.config_key_spec() != key@ by {
            assert(all_actions()[a.position()] == a);
        }
    }
    false
}

/// What `toml` reads of section `section` of a TOML document: `None` when
/// the document does not parse, `Some(None)` when it has no entry named
/// `section` or that entry is not a table, and otherwise the keys of that
/// table, in the order the `toml` crate lists them.
pub uninterp spec fn toml_section_keys_of(content: Seq<char>, section: Seq<char>) -> Option<
    Option<Seq<Seq<char>>>,
>;

/// Parses `content` with `toml`'s `str::parse::<toml::Table>`, looks up the
/// entry `section` with `Table::get` and, when `Value::as_table` finds a
/// table there, lists its keys with `Table::keys`. The contract claims only
/// that the outcome is the one `toml_section_keys_of` names for the same
/// text and section name.
#[verifier::external_body]
fn toml_section_keys(content: &str, section: &str) -> (keys: Option<Option<Vec<String>>>)
    ensures
        match keys {
            None => toml_section_keys_of(content@, section@) is None,
            Some(None) => toml_section_keys_of(content@, section@) == Some(
                None::<Seq<Seq<char>>>,
            ),
            Some(Some(k)) => toml_section_keys_of(content@, section@) == Some(
                Some(k.deep_view()),
            ),
        },
{
    match content.parse::<toml::Table>() {
        Err(_) => None,
        Ok(table) => match table.get(section).and_then(toml::Value::as_table) {
            None => Some(None),
            Some(entries) => Some(Some(entries.keys().cloned().collect())),
        },
    }
}

/// The name of the configuration section that holds key bindings.
pub open spec fn shortcuts_section() -> Seq<char> {
    seq!['s', 'h', 'o', 'r', 't', 'c', 'u', 't', 's']
}

/// True when `key` is not a known shortcut action name.
pub open spec fn unknown_key(key: Seq<char>) -> bool {
    !known_shortcut(key)
}

/// The keys among `keys` that name no action, in their order.
pub fn unknown_keys_of(keys: &Vec<String>) -> (unknown: Vec<String>)
    ensures
        unknown.deep_view() == keys.deep_view().filter(|k: Seq<char>| unknown_key(k)),
{
    let ghost keys_view = keys.deep_view();
    let ghost pred = |k: Seq<char>| unknown_key(k);
    let mut unknown: Vec<String> = Vec::new();
    assert(keys_view.take(0) =~= Seq::<Seq<char>>::empty());
    assert(unknown.deep_view() =~= Seq::<Seq<char>>::empty());
    let mut i: usize = 0;
    while i < keys.len()
        invariant
            i <= keys.len(),
            keys_view == keys.deep_view(),
            keys_view.len() == keys.len(),
            pred == (|k: Seq<char>| unknown_key(k)),
            unknown.deep_view() == keys_view.take(i as int).filter(pred),
        decreases keys.len() - i,
    {
        assert(keys_view.take(i + 1) =~= keys_view.take(i as int).push(keys_view[i as int]));
        proof {
            keys_view.take(i as int).lemma_filter_push(keys_view[i as int], pred);
        }
        assert(keys_view[i as int] == keys[i as int]@);
        let known = is_known_shortcut(keys[i].as_str());
        if !known {
            let ghost before = unknown.deep_view();
            unknown.push(keys[i].clone());
            assert(unknown.deep_view() =~= before.push(keys[i as int]@));
        }
        i = i + 1;
    }
    assert(keys_view.take(keys.len() as int) =~= keys_view);
    unknown
}

/// The keys of the `[shortcuts]` table in `content` that name no action, in
/// document order, for the caller to warn about. A document that does not
/// parse gives none (its parse error is reported where the config is
/// loaded), and so does one without a `[shortcuts]` table.
pub fn unknown_shortcut_keys(content: &str) -> (unknown: Vec<String>)
    ensures
        unknown.deep_view() == match toml_section_keys_of(content@, shortcuts_section()) {
            Some(Some(keys)) => keys.filter(|k: Seq<char>| unknown_key(k)),
            _ => Seq::<Seq<char>>::empty(),
        },
{
    proof {
        reveal_strlit("shortcuts");
        assert("shortcuts"@ =~= shortcuts_section());
    }
    match toml_section_keys(content, "shortcuts") {
        Some(Some(keys)) => unknown_keys_of(&keys),
        _ => {
            let unknown: Vec<String> = Vec::new();
            assert(unknown.deep_view() =~= Seq::<Seq<char>>::empty());
            unknown
        },
    }
}

/// GDK modifier bit of the Shift key.
pub const SHIFT_MASK: u32 = 1;
/// GDK modifier bit of Caps Lock.
pub const LOCK_MASK: u32 = 2;
/// GDK modifier bit of the Control key.
pub const CONTROL_MASK: u32 = 4;
/// GDK modifier bit of the Alt key.
pub const ALT_MASK: u32 = 8;
/// GDK modifier bit of the Super key.
pub const SUPER_MASK: u32 = 0x400_0000;

/// Modifiers that take part in shortcut lookup: Control, Shift and Alt.
/// Caps Lock, Num Lock and the rest are ignored.
pub const MOD_MASK: u32 = 13;

/// The table key of a modifier state and a (lower-case) GDK keyval: the
/// modifiers outside `MOD_MASK` are dropped.
pub open spec fn shortcut_key(mods: u32, keyval: u32) -> u64 {
    ((mods & MOD_MASK) as int * 0x1_0000_0000 + keyval as int) as u64
}

fn make_key(mods: u32, keyval: u32) -> (k: u64)
    ensures
        k == shortcut_key(mods, keyval),
{
    let m = mods & MOD_MASK;
    assert(m <= 13) by (bit_vector)
        requires
            m == mods & 13u32,
    ;
    (m as u64) * 0x1_0000_0000u64 + keyval as u64
}

/// One accelerator that GTK parsed, ready to go into the shortcut table:
/// the accelerator text, and the keyval and modifier bits GTK gave for it.
pub struct ShortcutBinding {
    pub action: ShortcutAction,
    pub accel: String,
    pub mods: u32,
    pub keyval: u32,
}

/// An action that took a key another action already held; the later one wins.
pub struct ShortcutConflict {
    /// The accelerator text of the winning action.
    pub accel: String,
    /// The action that now owns the key.
    pub action: ShortcutAction,
    /// The action it displaced.
    pub previous: ShortcutAction,
}

impl View for ShortcutConflict {
    type V = (Seq<char>, ShortcutAction, ShortcutAction);

    open spec fn view(&self) -> (Seq<char>, ShortcutAction, ShortcutAction) {
        (self.accel@, self.action, self.previous)
    }
}

/// The table key of a binding.
pub open spec fn binding_key(b: ShortcutBinding) -> u64 {
    shortcut_key(b.mods, b.keyval)
}

/// The table that inserting `bindings` in order builds.
pub open spec fn bindings_map(bindings: Seq<ShortcutBinding>) -> Map<u64, ShortcutAction>
    decreases bindings.len(),
{
    if bindings.len() == 0 {
        Map::empty()
    } else {
        bindings_map(bindings.drop_last()).insert(
            binding_key(bindings.last()),
            bindings.last().action,
        )
    }
}

/// The conflicts that inserting `bindings` in order reports, in order.
pub open spec fn bindings_conflicts(bindings: Seq<ShortcutBinding>) -> Seq<
    (Seq<char>, ShortcutAction, ShortcutAction),
>
    decreases bindings.len(),
{
    if bindings.len() == 0 {
        Seq::empty()
    } else {
        let before = bindings_map(bindings.drop_last());
        let b = bindings.last();
        let rest = bindings_conflicts(bindings.drop_last());
        if before.contains_key(binding_key(b)) {
            rest.push((b.accel@, b.action, before[binding_key(b)]))
        } else {
            rest
        }
    }
}

/// The action a table assigns to a modifier state and keyval.
pub open spec fn lookup_spec(table: Map<u64, ShortcutAction>, mods: u32, keyval: u32) -> Option<
    ShortcutAction,
> {
    let k = shortcut_key(mods, keyval);
    if table.contains_key(k) {
        Some(table[k])
    } else {
        None
    }
}

/// Shortcut lookup table built from the config and the defaults.
pub struct ShortcutMap {
    map: HashMap<u64, ShortcutAction>,
}

impl View for ShortcutMap {
    type V = Map<u64, ShortcutAction>;

    closed spec fn view(&self) -> Map<u64, ShortcutAction> {
        self.map@
    }
}

impl ShortcutMap {
    /// Builds the lookup table from the accelerators in force, given in the
    /// order of `ShortcutAction::all()` (only those that GTK parsed). A later
    /// action bound to a key an earlier one holds takes the key over, and the
    /// takeover is reported so that the caller can warn instead of silently
    /// shadowing the loser.
    pub fn from_config(bindings: &Vec<ShortcutBinding>) -> (r: (ShortcutMap, Vec<ShortcutConflict>))
        ensures
            r.0@ == bindings_map(bindings@),
            r.1@.map_values(|c: ShortcutConflict| c@) == bindings_conflicts(bindings@),
    {
        let mut map: HashMap<u64, ShortcutAction> = HashMap::new();
        let mut conflicts: Vec<ShortcutConflict> = Vec::new();
        let mut i: usize = 0;
        assert(bindings@.take(0) =~= Seq::<ShortcutBinding>::empty());
        while i < bindings.len()
            invariant
                i <= bindings.len(),
                map@ == bindings_map(bindings@.take(i as int)),
                conflicts@.map_values(|c: ShortcutConflict| c@) == bindings_conflicts(
                    bindings@.take(i as int),
                ),
            decreases bindings.len() - i,
        {
            let b = &bindings[i];
            let key = make_key(b.mods, b.keyval);
            let ghost prefix = bindings@.take(i as int);
            let ghost next = bindings@.take(i + 1);
            assert(next.drop_last() =~= prefix);
            assert(next.last() == bindings@[i as int]);
            let previous = map.insert(key, b.action);
            match previous {
                Some(prev) => {
                    let ghost before = conflicts@.map_values(|c: ShortcutConflict| c@);
                    let accel = b.accel.clone();
                    conflicts.push(ShortcutConflict { accel, action: b.action, previous: prev });
                    assert(conflicts@.map_values(|c: ShortcutConflict| c@) =~= before.push(
                        (b.accel@, b.action, prev),
                    ));
                },
                None => {},
            }
            i = i + 1;
        }
        assert(bindings@.take(bindings.len() as int) =~= bindings@);
        (ShortcutMap { map }, conflicts)
    }

    /// Looks up the action bound to a modifier state and keyval. Modifiers
    /// outside Control, Shift and Alt (Caps Lock, Num Lock, ...) are ignored.
    /// `keyval` must already be lower-cased (GDK reports `R` with Shift
    /// held, while the table stores `r` with the Shift bit).
    pub fn lookup(&self, mods: u32, keyval: u32) -> (r: Option<ShortcutAction>)
        ensures
            r == lookup_spec(self@, mods, keyval),
    {
        let key = make_key(mods, keyval);
        match self.map.get(&key) {
            Some(a) => Some(*a),
            None => None,
        }
    }
}

proof fn lemma_bindings_map(bindings: Seq<ShortcutBinding>, k: u64)
    ensures
        bindings_map(bindings).contains_key(k) <==> exists|i: int|
            0 <= i < bindings.len() && binding_key(#[trigger] bindings[i]) == k,
        bindings_map(bindings).contains_key(k) ==> exists|i: int|
            0 <= i < bindings.len() && binding_key(#[trigger] bindings[i]) == k
                && bindings_map(bindings)[k] == bindings[i].action && forall|j: int|
                i < j < bindings.len() ==> binding_key(#[trigger] bindings[j]) != k,
    decreases bindings.len(),
{
    if bindings.len() > 0 {
        let rest = bindings.drop_last();
        lemma_bindings_map(rest, k);
        let last = bindings.len() - 1;
        if binding_key(bindings.last()) == k {
            assert(binding_key(bindings[last]) == k);
        } else {
            if bindings_map(bindings).contains_key(k) {
                let i = choose|i: int|
                    0 <= i < rest.len() && binding_key(#[trigger] rest[i]) == k
                        && bindings_map(rest)[k] == rest[i].action && forall|j: int|
                        i < j < rest.len() ==> binding_key(#[trigger] rest[j]) != k;
                assert(bindings[i] == rest[i]);
                assert forall|j: int| i < j < bindings.len() implies binding_key(
                    #[trigger] bindings[j],
                ) != k by {
                    if j < last {
                        assert(bindings[j] == rest[j]);
                    }
                }
            }
            if exists|i: int| 0 <= i < bindings.len() && binding_key(#[trigger] bindings[i]) == k {
                let i = choose|i: int|
                    0 <= i < bindings.len() && binding_key(#[trigger] bindings[i]) == k;
                assert(rest[i] == bindings[i]);
            }
        }
    }
}

/// The table built from a list of bindings gives, for a key, the action of
/// the last binding on that key, and nothing for a key no binding uses: a
/// rebind moves an action, and a key freed by it stays free.
pub proof fn law_last_binding_wins(bindings: Seq<ShortcutBinding>, mods: u32, keyval: u32)
    ensures
        (forall|i: int|
            0 <= i < bindings.len() ==> binding_key(#[trigger] bindings[i]) != shortcut_key(
                mods,
                keyval,
            )) ==> lookup_spec(bindings_map(bindings), mods, keyval) is None,
        forall|i: int|
            0 <= i < bindings.len() && binding_key(#[trigger] bindings[i]) == shortcut_key(
                mods,
                keyval,
            ) && (forall|j: int|
                i < j < bindings.len() ==> binding_key(#[trigger] bindings[j]) != shortcut_key(
                    mods,
                    keyval,
                )) ==> lookup_spec(bindings_map(bindings), mods, keyval) == Some(
                bindings[i].action,
            ),
{
    let k = shortcut_key(mods, keyval);
    lemma_bindings_map(bindings, k);
    assert forall|i: int|
        0 <= i < bindings.len() && binding_key(#[trigger] bindings[i]) == k && (forall|j: int|
            i < j < bindings.len() ==> binding_key(#[trigger] bindings[j]) != k) implies lookup_spec(
        bindings_map(bindings),
        mods,
        keyval,
    ) == Some(bindings[i].action) by {
        let i2 = choose|i2: int|
            0 <= i2 < bindings.len() && binding_key(#[trigger] bindings[i2]) == k
                && bindings_map(bindings)[k] == bindings[i2].action && forall|j: int|
                i2 < j < bindings.len() ==> binding_key(#[trigger] bindings[j]) != k;
        if i2 < i {
            assert(binding_key(bindings[i]) != k);
        } else if i < i2 {
            assert(binding_key(bindings[i2]) != k);
        }
    }
}

/// Lookup ignores every modifier outside Control, Shift and Alt: Caps Lock
/// held or not, and any other lock or pointer-button bit, gives the same action.
pub proof fn law_lookup_ignores_lock_modifiers(
    table: Map<u64, ShortcutAction>,
    mods: u32,
    keyval: u32,
)
    ensures
        lookup_spec(table, mods, keyval) == lookup_spec(table, mods & MOD_MASK, keyval),
        lookup_spec(table, mods, keyval) == lookup_spec(table, mods | LOCK_MASK, keyval),
{
    assert((mods & 13u32) & 13u32 == mods & 13u32) by (bit_vector);
    assert((mods | 2u32) & 13u32 == mods & 13u32) by (bit_vector);
}

/// Two key presses reach the same table entry exactly when they hold the
/// same Control, Shift and Alt modifiers and press the same key: no one of
/// those three modifiers is dropped, so Ctrl+Alt+T is not taken for Ctrl+T.
pub proof fn law_shortcut_key_keeps_modifiers(mods1: u32, keyval1: u32, mods2: u32, keyval2: u32)
    ensures
        shortcut_key(mods1, keyval1) == shortcut_key(mods2, keyval2) <==> (mods1 & (CONTROL_MASK
            | SHIFT_MASK | ALT_MASK) == mods2 & (CONTROL_MASK | SHIFT_MASK | ALT_MASK) && keyval1
            == keyval2),
{
    let a = mods1 & 13u32;
    let b = mods2 & 13u32;
    assert(a <= 13 && b <= 13) by (bit_vector)
        requires
            a == mods1 & 13u32,
            b == mods2 & 13u32,
    ;
    assert(CONTROL_MASK | SHIFT_MASK | ALT_MASK == 13u32) by (bit_vector);
    assert(shortcut_key(mods1, keyval1) as int == a as int * 0x1_0000_0000 + keyval1 as int);
    assert(shortcut_key(mods2, keyval2) as int == b as int * 0x1_0000_0000 + keyval2 as int);
}

/// A key press finds an action in the table built from `bindings` only when
/// some binding of that action holds exactly the same Control, Shift and
/// Alt modifiers and the same key; with no such binding it finds nothing.
pub proof fn law_lookup_matches_binding(bindings: Seq<ShortcutBinding>, mods: u32, keyval: u32)
    ensures
        lookup_spec(bindings_map(bindings), mods, keyval) matches Some(a) ==> exists|i: int|
            0 <= i < bindings.len() && (#[trigger] bindings[i]).action == a && bindings[i].keyval
                == keyval && bindings[i].mods & (CONTROL_MASK | SHIFT_MASK | ALT_MASK) == mods & (
            CONTROL_MASK | SHIFT_MASK | ALT_MASK),
        (forall|i: int|
            0 <= i < bindings.len() ==> !((#[trigger] bindings[i]).keyval == keyval
                && bindings[i].mods & (CONTROL_MASK | SHIFT_MASK | ALT_MASK) == mods & (CONTROL_MASK
                | SHIFT_MASK | ALT_MASK))) ==> lookup_spec(bindings_map(bindings), mods, keyval) is None,
{
    let k = shortcut_key(mods, keyval);
    lemma_bindings_map(bindings, k);
    if bindings_map(bindings).contains_key(k) {
        let i = choose|i: int|
            0 <= i < bindings.len() && binding_key(#[trigger] bindings[i]) == k
                && bindings_map(bindings)[k] == bindings[i].action && forall|j: int|
                i < j < bindings.len() ==> binding_key(#[trigger] bindings[j]) != k;
        law_shortcut_key_keeps_modifiers(bindings[i].mods, bindings[i].keyval, mods, keyval);
    }
    assert forall|i: int|
        0 <= i < bindings.len() && binding_key(#[trigger] bindings[i]) == k implies (
        bindings[i].keyval == keyval && bindings[i].mods & (CONTROL_MASK | SHIFT_MASK | ALT_MASK)
            == mods & (CONTROL_MASK | SHIFT_MASK | ALT_MASK)) by {
        law_shortcut_key_keeps_modifiers(bindings[i].mods, bindings[i].keyval, mods, keyval);
    }
}

} // verus!
