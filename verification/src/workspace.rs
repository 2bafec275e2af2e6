//! A workspace as the sidebar shows it: its name, working directory,
//! connection state and attention flag, and the texts derived from them.

use vstd::prelude::*;
use vstd::string::*;
use crate::paths::{basename_spec, parent_spec, path_basename, path_parent, shorten_path, shorten_spec};
use crate::text::{all_digits, decimal, is_digit, lemma_decimal_digits, prefixed_decimal, starts_with};

verus! {

/// Connection state of a workspace: local, or the state of its SSH link.
#[derive(Debug, Clone, Copy, PartialEq, Eq, Structural)]
pub enum ConnectionState {
    Local,
    Connected,
    Reconnecting,
    Disconnected,
}

impl ConnectionState {
    /// True for the states of an SSH workspace.
    pub open spec fn is_remote_spec(self) -> bool {
        self != ConnectionState::Local
    }

    /// True for the states of an SSH workspace.
    pub fn is_remote(&self) -> (b: bool)
        ensures
            b == self.is_remote_spec(),
    {
        match self {
            ConnectionState::Local => false,
            _ => true,
        }
    }

    /// Text of the sidebar subtitle of an SSH workspace.
    pub open spec fn display_text_spec(self) -> Seq<char> {
        match self {
            ConnectionState::Local => "Local"@,
            ConnectionState::Connected => "Connected"@,
            ConnectionState::Reconnecting => "Reconnecting"@,
            ConnectionState::Disconnected => "Disconnected"@,
        }
    }

    /// Text of the sidebar subtitle of an SSH workspace.
    pub fn display_text(&self) -> (s: &'static str)
        ensures
            s@ == self.display_text_spec(),
    {
        match self {
            ConnectionState::Local => "Local",
            ConnectionState::Connected => "Connected",
            ConnectionState::Reconnecting => "Reconnecting",
            ConnectionState::Disconnected => "Disconnected",
        }
    }

    /// CSS class that colors the connection-state dot.
    pub fn css_class(&self) -> (s: &'static str)
        ensures
            s@ == match *self {
                ConnectionState::Local => "local"@,
                ConnectionState::Connected => "connected"@,
                ConnectionState::Reconnecting => "reconnecting"@,
                ConnectionState::Disconnected => "disconnected"@,
            },
    {
        match self {
            ConnectionState::Local => "local",
            ConnectionState::Connected => "connected",
            ConnectionState::Reconnecting => "reconnecting",
            ConnectionState::Disconnected => "disconnected",
        }
    }
}

/// One workspace of the sidebar.
pub struct Workspace {
    /// Workspace id, unique for the life of the process.
    pub id: u64,
    /// Persistent identity written to the session file.
    pub uuid: String,
    /// Display name: `Workspace N` until the user renames it.
    pub name: String,
    /// Working directory of the workspace's active pane (empty until known).
    pub cwd: String,
    /// Name of the workspace's page in the window's stack.
    pub stack_page_name: String,
    pub connection_state: ConnectionState,
    /// `user@host` of an SSH workspace.
    pub remote_target: Option<String>,
    /// True while some pane of the workspace wants the user's attention.
    pub has_attention: bool,
    /// When the last desktop notification for this workspace went out, in
    /// milliseconds of a monotonic clock.
    pub last_notification_ms: Option<u64>,
}

/// The prefix of auto-generated workspace names.
pub open spec fn default_prefix() -> Seq<char> {
    seq!['W', 'o', 'r', 'k', 's', 'p', 'a', 'c', 'e', ' ']
}

/// The auto-generated name `Workspace <n>`.
pub open spec fn default_name(n: nat) -> Seq<char> {
    default_prefix() + decimal(n)
}

/// True for an auto-generated default name (`Workspace ` followed by at least
/// one ASCII digit and nothing else), i.e. a name the user has not chosen.
/// A user who literally types `Workspace 7` is treated as default.
pub open spec fn is_default_name(name: Seq<char>) -> bool {
    &&& name.len() > 10
    &&& name.take(10) == default_prefix()
    &&& all_digits(name.skip(10))
}

/// The sidebar title of a workspace: a user-chosen name wins; otherwise a
/// local workspace shows the basename of its working directory, an SSH one
/// (or one whose directory is not known yet) its default name.
pub open spec fn title_spec(ws: Workspace) -> Seq<char> {
    if !is_default_name(ws.name@) {
        ws.name@
    } else if ws.connection_state.is_remote_spec() {
        ws.name@
    } else if ws.cwd@.len() > 0 {
        basename_spec(ws.cwd@)
    } else {
        ws.name@
    }
}

/// The tooltip of a sidebar row: the SSH target, else the full working
/// directory, else the title.
pub open spec fn tooltip_spec(ws: Workspace) -> Seq<char> {
    match ws.remote_target {
        Some(t) => t@,
        None => if ws.cwd@.len() > 0 {
            ws.cwd@
        } else {
            title_spec(ws)
        },
    }
}

/// The page name of workspace `id` in the window's stack.
pub open spec fn page_name(id: u64) -> Seq<char> {
    seq!['w', 'o', 'r', 'k', 's', 'p', 'a', 'c', 'e', '-'] + decimal(id as nat)
}

/// Every generated default name is recognized as a default name.
pub proof fn lemma_default_name_is_default(n: nat)
    ensures
        is_default_name(default_name(n)),
{
    lemma_decimal_digits(n);
    assert(default_name(n).take(10) =~= default_prefix());
    assert(default_name(n).skip(10) =~= decimal(n));
}

impl Workspace {
    /// A new local workspace: named `Workspace <display_number>`, shown on
    /// stack page `workspace-<id>`, working directory not known yet.
    pub fn new(id: u64, display_number: u64, uuid: String) -> (ws: Workspace)
        ensures
            ws.id == id,
            ws.uuid == uuid,
            ws.name@ == default_name(display_number as nat),
            ws.cwd@ == Seq::<char>::empty(),
            ws.stack_page_name@ == page_name(id),
            ws.connection_state == ConnectionState::Local,
            ws.remote_target is None,
            !ws.has_attention,
            ws.last_notification_ms is None,
    {
        proof {
            reveal_strlit("Workspace ");
            reveal_strlit("workspace-");
            assert("Workspace "@ =~= default_prefix());
            assert("workspace-"@ =~= seq!['w', 'o', 'r', 'k', 's', 'p', 'a', 'c', 'e', '-']);
        }
        Workspace {
            id,
            uuid,
            name: prefixed_decimal("Workspace ", display_number),
            cwd: String::new(),
            stack_page_name: prefixed_decimal("workspace-", id),
            connection_state: ConnectionState::Local,
            remote_target: None,
            has_attention: false,
            last_notification_ms: None,
        }
    }

    /// A new SSH workspace for `target`, not connected yet.
    pub fn new_remote(id: u64, display_number: u64, uuid: String, target: String) -> (ws: Workspace)
        ensures
            ws.id == id,
            ws.uuid == uuid,
            ws.name@ == default_name(display_number as nat),
            ws.cwd@ == Seq::<char>::empty(),
            ws.stack_page_name@ == page_name(id),
            ws.connection_state == ConnectionState::Disconnected,
            ws.remote_target == Some(target),
            !ws.has_attention,
            ws.last_notification_ms is None,
    {
        let mut ws = Workspace::new(id, display_number, uuid);
        ws.connection_state = ConnectionState::Disconnected;
        ws.remote_target = Some(target);
        ws
    }

    /// Gives the workspace a user-chosen name.
    pub fn rename(&mut self, name: String)
        ensures
            final(self).name == name,
            final(self).id == old(self).id,
            final(self).uuid == old(self).uuid,
            final(self).cwd == old(self).cwd,
            final(self).stack_page_name == old(self).stack_page_name,
            final(self).connection_state == old(self).connection_state,
            final(self).remote_target == old(self).remote_target,
            final(self).has_attention == old(self).has_attention,
            final(self).last_notification_ms == old(self).last_notification_ms,
    {
        self.name = name;
    }
}

/// True if `name` is an auto-generated default (`Workspace <n>`), i.e. the
/// user has not renamed it. Decides which workspaces are kept sequentially
/// numbered.
pub fn is_default_workspace_name(name: &str) -> (b: bool)
    ensures
        b == is_default_name(name@),
{
    proof {
        reveal_strlit("Workspace ");
        assert("Workspace "@ =~= default_prefix());
    }
    if !starts_with(name, "Workspace ") {
        return false;
    }
    let n = name.unicode_len();
    if n == 10 {
        return false;
    }
    let mut i: usize = 10;
    while i < n
        invariant
            10 <= i <= n,
            n == name@.len(),
            forall|j: int| 10 <= j < i ==> is_digit(#[trigger] name@[j]),
        decreases n - i,
    {
        let c = name.get_char(i);
        if !('0' <= c && c <= '9') {
            assert(name@.skip(10)[i - 10] == c);
            return false;
        }
        i = i + 1;
    }
    assert forall|j: int| 0 <= j < name@.skip(10).len() implies is_digit(
        #[trigger] name@.skip(10)[j],
    ) by {
        assert(name@.skip(10)[j] == name@[j + 10]);
    }
    true
}

/// The sidebar title of a workspace: a user-chosen rename wins; otherwise a
/// local workspace is identified by its working-directory basename, a remote
/// one by its default name, falling back to the default name.
pub fn workspace_title(ws: &Workspace) -> (s: String)
    ensures
        s@ == title_spec(*ws),
{
    if !is_default_workspace_name(ws.name.as_str()) {
        ws.name.clone()
    } else if ws.connection_state.is_remote() {
        ws.name.clone()
    } else if ws.cwd.as_str().unicode_len() > 0 {
        path_basename(ws.cwd.as_str())
    } else {
        ws.name.clone()
    }
}

/// Tooltip text for a sidebar row: the remote target (SSH), else the full
/// working directory, else the title.
pub fn row_tooltip(ws: &Workspace) -> (s: String)
    ensures
        s@ == tooltip_spec(*ws),
{
    match &ws.remote_target {
        Some(t) => t.clone(),
        None => if ws.cwd.as_str().unicode_len() > 0 {
            ws.cwd.clone()
        } else {
            workspace_title(ws)
        },
    }
}

/// The sidebar subtitle of a workspace: for an SSH workspace a dot and its
/// connection state; otherwise the parent of its working directory, with the
/// home directory (`home`, the value of `$HOME` when set) shortened to `~`.
/// The title already shows the basename, so together they form the path.
pub fn row_subtitle(ws: &Workspace, home: Option<&str>) -> (s: String)
    ensures
        s@ == (if ws.connection_state.is_remote_spec() {
            seq!['\u{25CF}', ' '] + ws.connection_state.display_text_spec()
        } else {
            parent_spec(
                shorten_spec(
                    ws.cwd@,
                    match home {
                        Some(h) => Some(h@),
                        None => None,
                    },
                ),
            )
        }),
{
    if ws.connection_state.is_remote() {
        proof {
            reveal_strlit("\u{25CF} ");
            assert("\u{25CF} "@ =~= seq!['\u{25CF}', ' ']);
        }
        let mut s = String::from_str("\u{25CF} ");
        s.append(ws.connection_state.display_text());
        s
    } else {
        let short = shorten_path(ws.cwd.as_str(), home);
        path_parent(short.as_str())
    }
}

} // verus!
