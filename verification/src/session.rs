//! The session snapshot written to `session.json`, and the rule deciding
//! which loaded snapshots are restored.
//!
//! A snapshot carries each workspace's pane layout; the layout tree is owned
//! by the terminal side of the application and is a type parameter here
//! (`L`). Turning the snapshot into JSON and back, and the file I/O, happen
//! at the application's edge.

use vstd::prelude::*;

verus! {

/// Serializable snapshot of one tab of a workspace.
pub struct TabSession<L> {
    /// Tab label. A user rename is preserved; an auto-derived title is not
    /// meaningful to restore, so it is recomputed from the cwd on load.
    pub title: String,
    /// True when `title` came from an explicit rename rather than the
    /// working directory, so restore knows whether to keep it or re-derive it.
    pub renamed: bool,
    /// The pane layout tree of the tab.
    pub layout: L,
    /// UUID of the tab's active pane, if any.
    pub active_pane_uuid: Option<String>,
}

/// Serializable snapshot of a single workspace.
pub struct WorkspaceSession<L> {
    pub uuid: String,
    pub name: String,
    /// UUID of the active pane in this workspace, if any.
    pub active_pane_uuid: Option<String>,
    /// The pane layout tree of the workspace (its active tab's layout), kept
    /// so that a session with tabs still loads on a tab-less build and a
    /// session without tabs needs no special case.
    pub layout: L,
    /// Every tab of this workspace. Empty in sessions written before tabs
    /// existed, in which case `layout` is the single tab.
    pub tabs: Vec<TabSession<L>>,
    /// Index of the active tab within `tabs`.
    pub active_tab: usize,
    /// Workspace working directory (the active pane's cwd). Restored panes
    /// reopen here. Empty for sessions written before it was tracked.
    pub cwd: String,
}

/// Root session data written to `session.json`.
pub struct SessionData<L> {
    /// Format version; see `CURRENT_SESSION_VERSION`.
    pub version: u32,
    /// Index of the active workspace in the workspaces array.
    pub active_index: usize,
    pub workspaces: Vec<WorkspaceSession<L>>,
    /// Sidebar width in px. `None` in sessions written before the sidebar
    /// became resizable; restore falls back to the default width.
    pub sidebar_width: Option<i32>,
    /// Window geometry at last save. `None` in sessions written before this
    /// was tracked, in which case restore keeps the built-in default size.
    pub window_width: Option<i32>,
    pub window_height: Option<i32>,
    pub window_maximized: Option<bool>,
    /// Window position in root coordinates (X11 only), so a multi-monitor
    /// setup reopens on the monitor it was closed on.
    pub window_x: Option<i32>,
    pub window_y: Option<i32>,
}

/// Highest session format this build writes and can read.
/// 1: names only. 2: full split tree per workspace. 3: tabs per workspace.
pub const CURRENT_SESSION_VERSION: u32 = 3;

/// The versions the loader accepts: every format up to the current one.
pub open spec fn supported_version(version: u32) -> bool {
    1 <= version <= CURRENT_SESSION_VERSION
}

/// True when a session of format `version` can be restored.
///
/// Anything up to the current format is accepted. Rejecting a version means
/// starting fresh, and starting fresh immediately overwrites the file, so a
/// version the loader does not know is not merely ignored, it is destroyed.
pub fn is_supported_session_version(version: u32) -> (b: bool)
    ensures
        b == supported_version(version),
{
    version != 0 && version <= CURRENT_SESSION_VERSION
}

/// The decision taken on a session that parsed: restored when its version
/// is supported, dropped otherwise.
pub fn accept_loaded_session<L>(data: SessionData<L>) -> (r: Option<SessionData<L>>)
    ensures
        supported_version(data.version) ==> r == Some(data),
        !supported_version(data.version) ==> r is None,
{
    if is_supported_session_version(data.version) {
        Some(data)
    } else {
        None
    }
}

/// The version the writer emits is one the loader accepts, and a version
/// from a future build is refused: the loader and the writer cannot drift.
pub proof fn law_loader_accepts_written_version()
    ensures
        supported_version(CURRENT_SESSION_VERSION),
        !supported_version((CURRENT_SESSION_VERSION + 1) as u32),
        !supported_version(0),
{
}

} // verus!
