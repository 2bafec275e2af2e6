//! The workspace list of the window: which workspaces exist, which one is
//! shown, how they are numbered and when they raise attention.
//!
//! Each workspace's split engine is held here too, in `split_engines`,
//! parallel to `workspaces`; the widgets are kept by the caller. Every
//! decision about the list is taken here, and the caller mirrors it on the
//! widgets.

use vstd::prelude::*;
use vstd::string::*;
use crate::session::{CURRENT_SESSION_VERSION, SessionData, WorkspaceSession};
use crate::text::prefixed_decimal;
use crate::workspace::{
    ConnectionState, Workspace, default_name, is_default_name, is_default_workspace_name,
    lemma_default_name_is_default, page_name, title_spec, workspace_title,
};

verus! {

/// Default sidebar width (px) when no session value is restored.
pub const DEFAULT_SIDEBAR_WIDTH: i32 = 170;
/// Smallest width of the resizable sidebar.
pub const MIN_SIDEBAR_WIDTH: i32 = 140;
/// Largest width of the resizable sidebar.
pub const MAX_SIDEBAR_WIDTH: i32 = 480;
/// Minimum time between two desktop notifications of one workspace.
pub const NOTIFICATION_INTERVAL_MS: u64 = 5000;

/// Everything of a workspace but its name and attention flag.
pub open spec fn same_identity(a: Workspace, b: Workspace) -> bool {
    &&& a.id == b.id
    &&& a.uuid == b.uuid
    &&& a.cwd == b.cwd
    &&& a.stack_page_name == b.stack_page_name
    &&& a.connection_state == b.connection_state
    &&& a.remote_target == b.remote_target
    &&& a.last_notification_ms == b.last_notification_ms
}

/// The name the workspace at position `i` has after renumbering: a default
/// name becomes `Workspace <i + 1>`, a user-chosen one is kept.
pub open spec fn renumbered_name(ws: Workspace, i: int) -> Seq<char> {
    if is_default_name(ws.name@) {
        default_name((i + 1) as nat)
    } else {
        ws.name@
    }
}

/// `new` is `src` with the names renumbered when `renumber` holds (kept
/// otherwise), and the attention flag of position `cleared` reset.
pub open spec fn updated(src: Seq<Workspace>, new: Seq<Workspace>, renumber: bool, cleared: int) -> bool {
    &&& new.len() == src.len()
    &&& forall|i: int|
        0 <= i < src.len() ==> {
            &&& same_identity(src[i], #[trigger] new[i])
            &&& new[i].name@ == (if renumber {
                renumbered_name(src[i], i)
            } else {
                src[i].name@
            })
            &&& !(renumber && is_default_name(src[i].name@)) ==> new[i].name == src[i].name
            &&& new[i].has_attention == (src[i].has_attention && i != cleared)
        }
}

/// The indices, below `n`, of the workspaces that renumbering renames.
pub open spec fn renamed_indices(ws: Seq<Workspace>, n: int) -> Seq<usize>
    decreases n,
{
    if n <= 0 {
        Seq::empty()
    } else {
        let rest = renamed_indices(ws, n - 1);
        if is_default_name(ws[n - 1].name@) && ws[n - 1].name@ != default_name(n as nat) {
            rest.push((n - 1) as usize)
        } else {
            rest
        }
    }
}

/// The selection after closing the workspace at `index`, leaving `new_len`
/// workspaces: it stays on a neighbour rather than jumping to the start.
pub open spec fn active_after_close(active: int, index: int, new_len: int) -> int {
    if active >= new_len {
        new_len - 1
    } else if index <= active && active > 0 {
        active - 1
    } else {
        active
    }
}

/// Index of the next workspace, wrapping around.
pub open spec fn next_index(active: int, len: int) -> int {
    (active + 1) % len
}

/// Index of the previous workspace, wrapping around.
pub open spec fn prev_index(active: int, len: int) -> int {
    if active == 0 {
        len - 1
    } else {
        active - 1
    }
}

/// True when a desktop notification for a workspace whose last one went out
/// at `last` may go out at `now`: never before, or at least the interval ago.
pub open spec fn notification_due(last: Option<u64>, now: u64) -> bool {
    match last {
        None => true,
        Some(t) => now >= t && now - t >= NOTIFICATION_INTERVAL_MS,
    }
}

/// Window geometry saved with the session.
pub struct WindowGeometry {
    pub width: Option<i32>,
    pub height: Option<i32>,
    pub maximized: Option<bool>,
    pub x: Option<i32>,
    pub y: Option<i32>,
}

/// Ids are distinct and below `next_id`.
pub open spec fn ids_ok(ws: Seq<Workspace>, next_id: u64) -> bool {
    &&& forall|i: int| 0 <= i < ws.len() ==> #[trigger] ws[i].id < next_id
    &&& forall|i: int, j: int|
        0 <= i < ws.len() && 0 <= j < ws.len() && i != j ==> #[trigger] ws[i].id != #[trigger] ws[j].id
}

/// Two workspace lists of one length with the same id at each position.
pub open spec fn same_ids(src: Seq<Workspace>, new: Seq<Workspace>) -> bool {
    &&& new.len() == src.len()
    &&& forall|i: int| 0 <= i < src.len() ==> #[trigger] new[i].id == src[i].id
}

proof fn lemma_same_ids(src: Seq<Workspace>, new: Seq<Workspace>, next_id: u64)
    requires
        ids_ok(src, next_id),
        same_ids(src, new),
    ensures
        ids_ok(new, next_id),
{
    assert forall|a: int| 0 <= a < new.len() implies #[trigger] new[a].id < next_id by {
        assert(new[a].id == src[a].id);
    }
    assert forall|a: int, b: int|
        0 <= a < new.len() && 0 <= b < new.len() && a != b implies #[trigger] new[a].id != #[trigger] new[b].id by {
        assert(new[a].id == src[a].id);
        assert(new[b].id == src[b].id);
    }
}

proof fn lemma_updated_ids(src: Seq<Workspace>, new: Seq<Workspace>, renumber: bool, cleared: int, next_id: u64)
    requires
        ids_ok(src, next_id),
        updated(src, new, renumber, cleared),
    ensures
        ids_ok(new, next_id),
{
    assert forall|i: int| 0 <= i < src.len() implies #[trigger] new[i].id == src[i].id by {
        assert(same_identity(src[i], new[i]));
    }
    lemma_same_ids(src, new, next_id);
}

/// The workspace list of a window, with the split engine (type `E`) of each
/// workspace.
pub struct AppState<E> {
    /// The split engine of each workspace, parallel to `workspaces`.
    pub split_engines: Vec<E>,
    /// All open workspaces, in sidebar order.
    pub workspaces: Vec<Workspace>,
    /// Index into `workspaces` of the visible workspace.
    pub active_index: usize,
    /// Next workspace id (monotonically increasing).
    pub next_id: u64,
    /// Next display number for default names (`Workspace N`).
    pub next_display_number: u64,
    /// Current sidebar width in px; persisted in the session.
    pub sidebar_width: i32,
    /// Chromium binary override from `[browser].chromium_path`.
    pub chromium_path_override: Option<String>,
}

impl<E> AppState<E> {
    /// Well-formedness: there is one split engine per workspace, the
    /// selection lies in the list (or is 0 for an empty list), and workspace
    /// ids are distinct and below the next id.
    pub open spec fn wf(&self) -> bool {
        &&& self.split_engines@.len() == self.workspaces@.len()
        &&& (self.active_index < self.workspaces@.len() || (self.workspaces@.len() == 0
            && self.active_index == 0))
        &&& ids_ok(self.workspaces@, self.next_id)
    }

    /// An empty workspace list: the first workspace is created by the caller
    /// once the window exists.
    pub fn new() -> (s: AppState<E>)
        ensures
            s.wf(),
            s.split_engines@.len() == 0,
            s.workspaces@.len() == 0,
            s.active_index == 0,
            s.next_id == 1,
            s.next_display_number == 1,
            s.sidebar_width == DEFAULT_SIDEBAR_WIDTH,
            s.chromium_path_override is None,
    {
        AppState {
            split_engines: Vec::new(),
            workspaces: Vec::new(),
            active_index: 0,
            next_id: 1,
            next_display_number: 1,
            sidebar_width: DEFAULT_SIDEBAR_WIDTH,
            chromium_path_override: None,
        }
    }

    /// The active workspace, if any.
    pub fn active_workspace(&self) -> (ws: Option<&Workspace>)
        ensures
            self.active_index < self.workspaces@.len() ==> ws == Some(
                &self.workspaces@[self.active_index as int],
            ),
            self.active_index >= self.workspaces@.len() ==> ws is None,
    {
        if self.active_index < self.workspaces.len() {
            Some(&self.workspaces[self.active_index])
        } else {
            None
        }
    }

    /// The split engine of the active workspace, if any.
    pub fn active_split_engine(&self) -> (e: Option<&E>)
        ensures
            self.active_index < self.split_engines@.len() ==> e == Some(
                &self.split_engines@[self.active_index as int],
            ),
            self.active_index >= self.split_engines@.len() ==> e is None,
    {
        if self.active_index < self.split_engines.len() {
            Some(&self.split_engines[self.active_index])
        } else {
            None
        }
    }

    /// The split engine of the active workspace, for changing it; `None`
    /// when there is no workspace.
    pub fn active_split_engine_mut(&mut self) -> (e: Option<&mut E>)
        requires
            old(self).wf(),
        ensures
            old(self).workspaces@.len() == 0 ==> e is None,
            old(self).workspaces@.len() > 0 ==> e is Some,
            e matches Some(r) ==> {
                &&& *r == old(self).split_engines@[old(self).active_index as int]
                &&& final(self).split_engines@ == old(self).split_engines@.update(
                    old(self).active_index as int,
                    *final(r),
                )
            },
            e is None ==> final(self).split_engines@ == old(self).split_engines@,
            final(self).wf(),
            final(self).workspaces@ == old(self).workspaces@,
            final(self).active_index == old(self).active_index,
            final(self).next_id == old(self).next_id,
            final(self).next_display_number == old(self).next_display_number,
            final(self).sidebar_width == old(self).sidebar_width,
            final(self).chromium_path_override == old(self).chromium_path_override,
    {
        let a = self.active_index;
        if a < self.split_engines.len() {
            Some(&mut self.split_engines[a])
        } else {
            None
        }
    }

    /// Keeps auto-named workspaces numbered by position (`Workspace 1`,
    /// `Workspace 2`, ...) so that closing one leaves no gap. Workspaces the
    /// user renamed are left alone. Returns the positions whose name changed,
    /// for the caller to refresh their sidebar rows.
    pub fn renumber_default_workspaces(&mut self) -> (changed: Vec<usize>)
        requires
            old(self).wf(),
        ensures
            final(self).wf(),
            updated(old(self).workspaces@, final(self).workspaces@, true, -1),
            changed@ == renamed_indices(old(self).workspaces@, old(self).workspaces@.len() as int),
            final(self).active_index == old(self).active_index,
            final(self).next_id == old(self).next_id,
            final(self).next_display_number == old(self).next_display_number,
            final(self).sidebar_width == old(self).sidebar_width,
            final(self).chromium_path_override == old(self).chromium_path_override,
            final(self).split_engines@ == old(self).split_engines@,
    {
        let ghost start = self.workspaces@;
        let mut changed: Vec<usize> = Vec::new();
        let n = self.workspaces.len();
        let mut i: usize = 0;
        while i < n
            invariant
                i <= n,
                n == start.len(),
                self.workspaces@.len() == n,
                self.active_index == old(self).active_index,
                self.next_id == old(self).next_id,
                self.next_display_number == old(self).next_display_number,
                self.sidebar_width == old(self).sidebar_width,
                self.chromium_path_override == old(self).chromium_path_override,
                self.split_engines@ == old(self).split_engines@,
                start == old(self).workspaces@,
                forall|j: int|
                    0 <= j < n ==> {
                        &&& same_identity(start[j], #[trigger] self.workspaces@[j])
                        &&& self.workspaces@[j].name@ == (if j < i {
                            renumbered_name(start[j], j)
                        } else {
                            start[j].name@
                        })
                        &&& self.workspaces@[j].has_attention == start[j].has_attention
                        &&& !(j < i && is_default_name(start[j].name@)) ==> self.workspaces@[j].name
                            == start[j].name
                    },
                changed@ == renamed_indices(start, i as int),
            decreases n - i,
        {
            if is_default_workspace_name(self.workspaces[i].name.as_str()) {
                let new_name = prefixed_decimal("Workspace ", (i + 1) as u64);
                proof {
                    reveal_strlit("Workspace ");
                    assert("Workspace "@ =~= crate::workspace::default_prefix());
                }
                if !(self.workspaces[i].name == new_name) {
                    self.workspaces[i].name = new_name;
                    changed.push(i);
                }
            }
            i = i + 1;
        }
        proof {
            assert(updated(start, self.workspaces@, true, -1));
            lemma_updated_ids(start, self.workspaces@, true, -1, self.next_id);
        }
        changed
    }

    /// Shows the workspace at `index` and clears its attention (the user is
    /// now looking at it). Does nothing when `index` is out of range.
    pub fn switch_to_index(&mut self, index: usize)
        requires
            old(self).wf(),
        ensures
            final(self).wf(),
            index < old(self).workspaces@.len() ==> {
                &&& updated(old(self).workspaces@, final(self).workspaces@, false, index as int)
                &&& final(self).active_index == index
            },
            index >= old(self).workspaces@.len() ==> {
                &&& final(self).workspaces@ == old(self).workspaces@
                &&& final(self).active_index == old(self).active_index
            },
            final(self).next_id == old(self).next_id,
            final(self).next_display_number == old(self).next_display_number,
            final(self).sidebar_width == old(self).sidebar_width,
            final(self).chromium_path_override == old(self).chromium_path_override,
            final(self).split_engines@ == old(self).split_engines@,
    {
        if index >= self.workspaces.len() {
            return;
        }
        self.clear_workspace_attention(index);
        self.active_index = index;
    }

    /// Clears the attention flag of the workspace at `index`, if there is one.
    pub fn clear_workspace_attention(&mut self, index: usize)
        requires
            old(self).wf(),
        ensures
            final(self).wf(),
            updated(old(self).workspaces@, final(self).workspaces@, false, index as int),
            final(self).active_index == old(self).active_index,
            final(self).next_id == old(self).next_id,
            final(self).next_display_number == old(self).next_display_number,
            final(self).sidebar_width == old(self).sidebar_width,
            final(self).chromium_path_override == old(self).chromium_path_override,
            final(self).split_engines@ == old(self).split_engines@,
    {
        if index < self.workspaces.len() {
            self.workspaces[index].has_attention = false;
        }
        proof {
            assert(updated(old(self).workspaces@, self.workspaces@, false, index as int));
            lemma_updated_ids(old(self).workspaces@, self.workspaces@, false, index as int, self.next_id);
        }
    }

    /// Switches to the next workspace, wrapping around.
    pub fn switch_next(&mut self)
        requires
            old(self).wf(),
        ensures
            final(self).wf(),
            old(self).workspaces@.len() == 0 ==> *final(self) == *old(self),
            old(self).workspaces@.len() > 0 ==> {
                let next = next_index(old(self).active_index as int, old(self).workspaces@.len() as int);
                &&& updated(old(self).workspaces@, final(self).workspaces@, false, next)
                &&& final(self).active_index == next
            },
            final(self).next_id == old(self).next_id,
            final(self).next_display_number == old(self).next_display_number,
            final(self).sidebar_width == old(self).sidebar_width,
            final(self).chromium_path_override == old(self).chromium_path_override,
            final(self).split_engines@ == old(self).split_engines@,
    {
        if self.workspaces.len() == 0 {
            return;
        }
        let next = (self.active_index + 1) % self.workspaces.len();
        self.switch_to_index(next);
    }

    /// Switches to the previous workspace, wrapping around.
    pub fn switch_prev(&mut self)
        requires
            old(self).wf(),
        ensures
            final(self).wf(),
            old(self).workspaces@.len() == 0 ==> *final(self) == *old(self),
            old(self).workspaces@.len() > 0 ==> {
                let prev = prev_index(old(self).active_index as int, old(self).workspaces@.len() as int);
                &&& updated(old(self).workspaces@, final(self).workspaces@, false, prev)
                &&& final(self).active_index == prev
            },
            final(self).next_id == old(self).next_id,
            final(self).next_display_number == old(self).next_display_number,
            final(self).sidebar_width == old(self).sidebar_width,
            final(self).chromium_path_override == old(self).chromium_path_override,
            final(self).split_engines@ == old(self).split_engines@,
    {
        if self.workspaces.len() == 0 {
            return;
        }
        let prev = if self.active_index == 0 {
            self.workspaces.len() - 1
        } else {
            self.active_index - 1
        };
        self.switch_to_index(prev);
    }
}

proof fn lemma_updated_compose(
    a: Seq<Workspace>,
    b: Seq<Workspace>,
    c: Seq<Workspace>,
    cleared: int,
)
    requires
        updated(a, b, false, cleared),
        updated(b, c, true, -1),
    ensures
        updated(a, c, true, cleared),
{
    assert forall|i: int| 0 <= i < a.len() implies {
        &&& same_identity(a[i], #[trigger] c[i])
        &&& c[i].name@ == renumbered_name(a[i], i)
        &&& c[i].has_attention == (a[i].has_attention && i != cleared)
        &&& !is_default_name(a[i].name@) ==> c[i].name == a[i].name
    } by {
        assert(same_identity(a[i], b[i]));
        assert(same_identity(b[i], c[i]));
    }
}

proof fn lemma_remove_ids(ws: Seq<Workspace>, index: int, next_id: u64)
    requires
        ids_ok(ws, next_id),
        0 <= index < ws.len(),
    ensures
        ids_ok(ws.remove(index), next_id),
{
    let r = ws.remove(index);
    assert forall|a: int| 0 <= a < r.len() implies #[trigger] r[a].id < next_id by {
        if a < index {
            assert(r[a] == ws[a]);
        } else {
            assert(r[a] == ws[a + 1]);
        }
    }
    assert forall|a: int, b: int|
        0 <= a < r.len() && 0 <= b < r.len() && a != b implies #[trigger] r[a].id != #[trigger] r[b].id by {
        let a2 = if a < index { a } else { a + 1 };
        let b2 = if b < index { b } else { b + 1 };
        assert(r[a] == ws[a2]);
        assert(r[b] == ws[b2]);
    }
}

impl<E> AppState<E> {
    /// Closes the workspace at `index` and drops its split engine. Refuses
    /// (returning false) when it is the only one: a window always keeps a
    /// workspace. The selection stays on a neighbour, the workspace then shown
    /// has its attention cleared, and the default names are renumbered. The
    /// caller frees the workspace's terminal surfaces first, and its widgets.
    pub fn close_workspace(&mut self, index: usize) -> (closed: bool)
        requires
            old(self).wf(),
            old(self).workspaces@.len() <= 1 || index < old(self).workspaces@.len(),
        ensures
            final(self).wf(),
            closed == (old(self).workspaces@.len() > 1),
            !closed ==> *final(self) == *old(self),
            closed ==> {
                let active = active_after_close(
                    old(self).active_index as int,
                    index as int,
                    old(self).workspaces@.len() - 1,
                );
                &&& final(self).active_index == active
                &&& updated(
                    old(self).workspaces@.remove(index as int),
                    final(self).workspaces@,
                    true,
                    active,
                )
            },
            final(self).next_id == old(self).next_id,
            final(self).next_display_number == old(self).next_display_number,
            final(self).sidebar_width == old(self).sidebar_width,
            final(self).chromium_path_override == old(self).chromium_path_override,
            closed ==> final(self).split_engines@ == old(self).split_engines@.remove(index as int),
    {
        if self.workspaces.len() <= 1 {
            return false;
        }
        proof {
            lemma_remove_ids(self.workspaces@, index as int, self.next_id);
        }
        self.split_engines.remove(index);
        self.workspaces.remove(index);
        let len = self.workspaces.len();
        if self.active_index >= len {
            self.active_index = len - 1;
        } else if index <= self.active_index && self.active_index > 0 {
            self.active_index = self.active_index - 1;
        }
        let ghost removed = self.workspaces@;
        let active = self.active_index;
        self.switch_to_index(active);
        let ghost switched = self.workspaces@;
        self.renumber_default_workspaces();
        proof {
            lemma_updated_compose(removed, switched, self.workspaces@, active as int);
        }
        true
    }

    /// Renames the active workspace. Returns false when there is none.
    pub fn rename_active(&mut self, new_name: String) -> (renamed: bool)
        requires
            old(self).wf(),
        ensures
            final(self).wf(),
            renamed == (old(self).active_index < old(self).workspaces@.len()),
            renamed ==> final(self).workspaces@ == old(self).workspaces@.update(
                old(self).active_index as int,
                final(self).workspaces@[old(self).active_index as int],
            ),
            renamed ==> same_identity(
                old(self).workspaces@[old(self).active_index as int],
                final(self).workspaces@[old(self).active_index as int],
            ),
            renamed ==> final(self).workspaces@[old(self).active_index as int].name == new_name,
            renamed ==> final(self).workspaces@[old(self).active_index as int].has_attention
                == old(self).workspaces@[old(self).active_index as int].has_attention,
            !renamed ==> final(self).workspaces@ == old(self).workspaces@,
            final(self).active_index == old(self).active_index,
            final(self).next_id == old(self).next_id,
            final(self).next_display_number == old(self).next_display_number,
            final(self).sidebar_width == old(self).sidebar_width,
            final(self).chromium_path_override == old(self).chromium_path_override,
            final(self).split_engines@ == old(self).split_engines@,
    {
        let i = self.active_index;
        if i < self.workspaces.len() {
            self.workspaces[i].rename(new_name);
            proof {
                assert(self.workspaces@ =~= old(self).workspaces@.update(i as int, self.workspaces@[i as int]));
                lemma_same_ids(old(self).workspaces@, self.workspaces@, self.next_id);
            }
            true
        } else {
            false
        }
    }
}

/// Closing a workspace other than the one shown keeps the shown one shown:
/// the selection follows it to its new position.
pub proof fn law_close_keeps_shown_workspace(ws: Seq<Workspace>, active: int, index: int)
    requires
        ws.len() > 1,
        0 <= active < ws.len(),
        0 <= index < ws.len(),
        index != active,
    ensures
        0 <= active_after_close(active, index, ws.len() - 1) < ws.len() - 1,
        ws.remove(index)[active_after_close(active, index, ws.len() - 1)] == ws[active],
{
    let r = ws.remove(index);
    let a = active_after_close(active, index, ws.len() - 1);
    if index < active {
        assert(a == active - 1);
        assert(r[active - 1] == ws[active]);
    } else {
        assert(a == active);
        assert(r[active] == ws[active]);
    }
}

/// Closing the shown workspace shows its left neighbour, or the new first
/// workspace when the first one was closed: the selection never jumps to the
/// start from further right.
pub proof fn law_close_shown_selects_left_neighbour(ws: Seq<Workspace>, index: int)
    requires
        ws.len() > 1,
        0 <= index < ws.len(),
    ensures
        index > 0 ==> active_after_close(index, index, ws.len() - 1) == index - 1,
        index > 0 ==> ws.remove(index)[active_after_close(index, index, ws.len() - 1)] == ws[index - 1],
        index == 0 ==> active_after_close(index, index, ws.len() - 1) == 0,
        index == 0 ==> ws.remove(index)[active_after_close(index, index, ws.len() - 1)] == ws[1],
{
}

/// Closing any workspace of a list of more than one leaves the selection on
/// a workspace of the remaining list.
pub proof fn law_close_selection_in_range(len: int, active: int, index: int)
    requires
        len > 1,
        0 <= active < len,
        0 <= index < len,
    ensures
        0 <= active_after_close(active, index, len - 1) < len - 1,
{
}

/// Switching to the next workspace moves one position right (from the last
/// to the first), the previous one position left (from the first to the
/// last), and each undoes the other.
pub proof fn law_next_prev_round_trip(active: int, len: int)
    requires
        0 <= active < len,
    ensures
        prev_index(next_index(active, len), len) == active,
        next_index(prev_index(active, len), len) == active,
        active + 1 < len ==> next_index(active, len) == active + 1,
        active == len - 1 ==> next_index(active, len) == 0,
        active > 0 ==> prev_index(active, len) == active - 1,
        active == 0 ==> prev_index(active, len) == len - 1,
        0 <= next_index(active, len) < len,
        0 <= prev_index(active, len) < len,
{
    if active + 1 < len {
        vstd::arithmetic::div_mod::lemma_small_mod((active + 1) as nat, len as nat);
    } else {
        vstd::arithmetic::div_mod::lemma_mod_self_0(len);
    }
    if active == 0 {
        vstd::arithmetic::div_mod::lemma_mod_self_0(len);
    } else {
        vstd::arithmetic::div_mod::lemma_small_mod(active as nat, len as nat);
    }
}

/// Renumbering is idempotent: a second pass renames nothing and changes no name.
pub proof fn law_renumber_idempotent(ws: Seq<Workspace>, once: Seq<Workspace>, twice: Seq<Workspace>)
    requires
        updated(ws, once, true, -1),
        updated(once, twice, true, -1),
    ensures
        renamed_indices(once, once.len() as int) == Seq::<usize>::empty(),
        forall|i: int| 0 <= i < ws.len() ==> (#[trigger] twice[i]).name@ == once[i].name@,
{
    assert forall|i: int| 0 <= i < ws.len() implies (#[trigger] twice[i]).name@ == once[i].name@ by {
        if is_default_name(ws[i].name@) {
            lemma_default_name_is_default((i + 1) as nat);
        }
    }
    lemma_renamed_none(ws, once, once.len() as int);
}

proof fn lemma_renamed_none(ws: Seq<Workspace>, once: Seq<Workspace>, n: int)
    requires
        updated(ws, once, true, -1),
        0 <= n <= once.len(),
    ensures
        renamed_indices(once, n) == Seq::<usize>::empty(),
    decreases n,
{
    if n > 0 {
        lemma_renamed_none(ws, once, n - 1);
        assert(once[n - 1].name@ == renumbered_name(ws[n - 1], n - 1));
        if is_default_name(ws[n - 1].name@) {
            assert(once[n - 1].name@ == default_name(n as nat));
        }
    }
}

/// The fields of a freshly created workspace.
pub open spec fn fresh_workspace(
    w: Workspace,
    id: u64,
    uuid: String,
    cwd: Seq<char>,
    state: ConnectionState,
    target: Option<String>,
) -> bool {
    &&& w.id == id
    &&& w.uuid == uuid
    &&& w.cwd@ == cwd
    &&& w.stack_page_name@ == page_name(id)
    &&& w.connection_state == state
    &&& w.remote_target == target
    &&& !w.has_attention
    &&& w.last_notification_ms is None
}

impl<E> AppState<E> {
    proof fn lemma_push_ids(&self, w: Workspace)
        requires
            self.wf(),
            w.id == self.next_id,
            self.next_id < u64::MAX,
        ensures
            ids_ok(self.workspaces@.push(w), (self.next_id + 1) as u64),
    {
        let p = self.workspaces@.push(w);
        assert forall|a: int| 0 <= a < p.len() implies #[trigger] p[a].id < self.next_id + 1 by {
            if a < self.workspaces@.len() {
                assert(p[a] == self.workspaces@[a]);
            }
        }
        assert forall|a: int, b: int|
            0 <= a < p.len() && 0 <= b < p.len() && a != b implies #[trigger] p[a].id != #[trigger] p[b].id by {
            if a < self.workspaces@.len() {
                assert(p[a] == self.workspaces@[a]);
            }
            if b < self.workspaces@.len() {
                assert(p[b] == self.workspaces@[b]);
            }
        }
    }

    /// Creates a local workspace whose working directory is seeded with
    /// `cwd` (the launch directory, until the shell reports its own) and
    /// whose split engine is `engine` (built by the caller around the first
    /// pane, `first_pane_id` of the id `next_id` hands out), makes it the
    /// shown one and renumbers the default names. Returns its id; the caller
    /// builds its sidebar row and page.
    pub fn create_workspace(&mut self, cwd: String, uuid: String, engine: E) -> (id: u64)
        requires
            old(self).wf(),
            old(self).next_id < u64::MAX,
            old(self).next_display_number < u64::MAX,
        ensures
            final(self).wf(),
            id == old(self).next_id,
            final(self).next_id == old(self).next_id + 1,
            final(self).next_display_number == old(self).next_display_number + 1,
            final(self).workspaces@.len() == old(self).workspaces@.len() + 1,
            final(self).active_index == old(self).workspaces@.len(),
            updated(
                old(self).workspaces@,
                final(self).workspaces@.take(old(self).workspaces@.len() as int),
                true,
                -1,
            ),
            fresh_workspace(
                final(self).workspaces@.last(),
                id,
                uuid,
                cwd@,
                ConnectionState::Local,
                None,
            ),
            final(self).workspaces@.last().name@ == default_name(
                final(self).workspaces@.len() as nat,
            ),
            final(self).split_engines@ == old(self).split_engines@.push(engine),
            final(self).sidebar_width == old(self).sidebar_width,
            final(self).chromium_path_override == old(self).chromium_path_override,
    {
        let id = self.next_id;
        let display = self.next_display_number;
        let mut ws = Workspace::new(id, display, uuid);
        ws.cwd = cwd;
        self.split_engines.push(engine);
        proof {
            old(self).lemma_push_ids(ws);
            lemma_default_name_is_default(display as nat);
        }
        self.next_id = self.next_id + 1;
        self.next_display_number = self.next_display_number + 1;
        self.workspaces.push(ws);
        let ghost pushed = self.workspaces@;
        let last = self.workspaces.len() - 1;
        self.switch_to_index(last);
        let ghost switched = self.workspaces@;
        self.renumber_default_workspaces();
        proof {
            lemma_updated_compose(pushed, switched, self.workspaces@, last as int);
            assert(pushed[last as int] == ws);
            assert forall|i: int| 0 <= i < old(self).workspaces@.len() implies {
                &&& same_identity(old(self).workspaces@[i], #[trigger] self.workspaces@.take(old(self).workspaces@.len() as int)[i])
                &&& self.workspaces@.take(old(self).workspaces@.len() as int)[i].name@ == renumbered_name(old(self).workspaces@[i], i)
                &&& self.workspaces@.take(old(self).workspaces@.len() as int)[i].has_attention == (old(self).workspaces@[i].has_attention && i != -1)
                &&& !is_default_name(old(self).workspaces@[i].name@) ==> self.workspaces@.take(old(self).workspaces@.len() as int)[i].name == old(self).workspaces@[i].name
            } by {
                assert(pushed[i] == old(self).workspaces@[i]);
            }
        }
        id
    }

    /// Restores a workspace of a saved session: its saved name, `cwd` as its
    /// working directory, and `engine` the split engine the caller rebuilt
    /// from the saved layout. An id and display number are used up even when
    /// the layout could not be rebuilt (`engine` is `None`); the workspace is
    /// then dropped and `None` returned. A restored workspace is appended
    /// without being shown and without renumbering.
    pub fn restore_workspace(&mut self, name: String, cwd: String, uuid: String, engine: Option<E>) -> (id: Option<u64>)
        requires
            old(self).wf(),
            old(self).next_id < u64::MAX,
            old(self).next_display_number < u64::MAX,
        ensures
            final(self).wf(),
            final(self).next_id == old(self).next_id + 1,
            final(self).next_display_number == old(self).next_display_number + 1,
            final(self).active_index == old(self).active_index,
            engine is None ==> {
                &&& id is None
                &&& final(self).workspaces@ == old(self).workspaces@
                &&& final(self).split_engines@ == old(self).split_engines@
            },
            engine matches Some(e) ==> {
                &&& id == Some(old(self).next_id)
                &&& final(self).split_engines@ == old(self).split_engines@.push(e)
                &&& final(self).workspaces@.drop_last() == old(self).workspaces@
                &&& final(self).workspaces@.len() == old(self).workspaces@.len() + 1
                &&& fresh_workspace(
                    final(self).workspaces@.last(),
                    old(self).next_id,
                    uuid,
                    cwd@,
                    ConnectionState::Local,
                    None,
                )
                &&& final(self).workspaces@.last().name == name
            },
            final(self).sidebar_width == old(self).sidebar_width,
            final(self).chromium_path_override == old(self).chromium_path_override,
    {
        let id = self.next_id;
        let display = self.next_display_number;
        self.next_id = self.next_id + 1;
        self.next_display_number = self.next_display_number + 1;
        let engine = match engine {
            None => {
                proof {
                    assert forall|a: int| 0 <= a < self.workspaces@.len() implies #[trigger] self.workspaces@[a].id
                        < self.next_id by {}
                }
                return None;
            },
            Some(e) => e,
        };
        self.split_engines.push(engine);
        let mut ws = Workspace::new(id, display, uuid);
        ws.name = name;
        ws.cwd = cwd;
        proof {
            old(self).lemma_push_ids(ws);
        }
        self.workspaces.push(ws);
        proof {
            assert(self.workspaces@.drop_last() =~= old(self).workspaces@);
            if old(self).workspaces@.len() == 0 {
                assert(self.active_index == 0);
            }
        }
        Some(id)
    }

    /// Creates an SSH workspace for `target`, whose split engine is `engine`
    /// (built by the caller around a remote pane), and makes it the shown
    /// one. Returns its id; the caller wires its remote pane to the bridge.
    pub fn create_remote_workspace(&mut self, target: String, uuid: String, engine: E) -> (id: u64)
        requires
            old(self).wf(),
            old(self).next_id < u64::MAX,
            old(self).next_display_number < u64::MAX,
        ensures
            final(self).wf(),
            id == old(self).next_id,
            final(self).next_id == old(self).next_id + 1,
            final(self).next_display_number == old(self).next_display_number + 1,
            final(self).workspaces@.len() == old(self).workspaces@.len() + 1,
            final(self).active_index == old(self).workspaces@.len(),
            final(self).workspaces@.drop_last() == old(self).workspaces@,
            fresh_workspace(
                final(self).workspaces@.last(),
                id,
                uuid,
                Seq::<char>::empty(),
                ConnectionState::Disconnected,
                Some(target),
            ),
            final(self).workspaces@.last().name@ == default_name(old(self).next_display_number as nat),
            final(self).split_engines@ == old(self).split_engines@.push(engine),
            final(self).sidebar_width == old(self).sidebar_width,
            final(self).chromium_path_override == old(self).chromium_path_override,
    {
        let id = self.next_id;
        let display = self.next_display_number;
        let ws = Workspace::new_remote(id, display, uuid, target);
        self.split_engines.push(engine);
        proof {
            old(self).lemma_push_ids(ws);
        }
        self.next_id = self.next_id + 1;
        self.next_display_number = self.next_display_number + 1;
        self.workspaces.push(ws);
        let ghost pushed = self.workspaces@;
        let last = self.workspaces.len() - 1;
        self.switch_to_index(last);
        proof {
            assert(self.workspaces@.drop_last() =~= old(self).workspaces@) by {
                assert forall|i: int| 0 <= i < old(self).workspaces@.len() implies #[trigger] self.workspaces@.drop_last()[i]
                    == old(self).workspaces@[i] by {
                    assert(pushed[i] == old(self).workspaces@[i]);
                    assert(same_identity(pushed[i], self.workspaces@[i]));
                    assert(self.workspaces@[i].name == pushed[i].name);
                }
            }
            assert(same_identity(ws, self.workspaces@.last()));
        }
        id
    }

    /// Records the new connection state of workspace `workspace_id`.
    /// Returns its position, for the caller to refresh its sidebar row, or
    /// `None` when no workspace has that id.
    pub fn update_connection_state(&mut self, workspace_id: u64, state: ConnectionState) -> (index: Option<usize>)
        requires
            old(self).wf(),
        ensures
            final(self).wf(),
            match index {
                Some(i) => {
                    &&& i < old(self).workspaces@.len()
                    &&& old(self).workspaces@[i as int].id == workspace_id
                    &&& forall|j: int| 0 <= j < i ==> old(self).workspaces@[j].id != workspace_id
                    &&& final(self).workspaces@ == old(self).workspaces@.update(i as int, final(self).workspaces@[i as int])
                    &&& final(self).workspaces@[i as int].connection_state == state
                    &&& final(self).workspaces@[i as int].id == old(self).workspaces@[i as int].id
                    &&& final(self).workspaces@[i as int].uuid == old(self).workspaces@[i as int].uuid
                    &&& final(self).workspaces@[i as int].name == old(self).workspaces@[i as int].name
                    &&& final(self).workspaces@[i as int].cwd == old(self).workspaces@[i as int].cwd
                    &&& final(self).workspaces@[i as int].stack_page_name == old(self).workspaces@[i as int].stack_page_name
                    &&& final(self).workspaces@[i as int].remote_target == old(self).workspaces@[i as int].remote_target
                    &&& final(self).workspaces@[i as int].has_attention == old(self).workspaces@[i as int].has_attention
                    &&& final(self).workspaces@[i as int].last_notification_ms == old(self).workspaces@[i as int].last_notification_ms
                },
                None => {
                    &&& forall|j: int| 0 <= j < old(self).workspaces@.len() ==> old(self).workspaces@[j].id != workspace_id
                    &&& final(self).workspaces@ == old(self).workspaces@
                },
            },
            final(self).active_index == old(self).active_index,
            final(self).next_id == old(self).next_id,
            final(self).next_display_number == old(self).next_display_number,
            final(self).sidebar_width == old(self).sidebar_width,
            final(self).chromium_path_override == old(self).chromium_path_override,
            final(self).split_engines@ == old(self).split_engines@,
    {
        let mut i: usize = 0;
        while i < self.workspaces.len()
            invariant
                i <= self.workspaces@.len(),
                self == old(self),
                self.wf(),
                forall|j: int| 0 <= j < i ==> self.workspaces@[j].id != workspace_id,
            decreases self.workspaces@.len() - i,
        {
            if self.workspaces[i].id == workspace_id {
                self.workspaces[i].connection_state = state;
                proof {
                    assert(self.workspaces@ =~= old(self).workspaces@.update(i as int, self.workspaces@[i as int]));
                    lemma_same_ids(old(self).workspaces@, self.workspaces@, self.next_id);
                }
                return Some(i);
            }
            i = i + 1;
        }
        None
    }
}

/// The first pane of workspace `workspace_id`: pane ids are allocated in
/// blocks of 1000 per workspace, so panes of different workspaces never collide.
pub fn first_pane_id(workspace_id: u64) -> (pane_id: u64)
    requires
        workspace_id <= u64::MAX / 1000,
    ensures
        pane_id == workspace_id * 1000,
{
    workspace_id * 1000
}

/// `new` differs from `src` only at position `k`, where it keeps everything
/// but the attention flag and the time of the last notification.
pub open spec fn attention_update(src: Seq<Workspace>, new: Seq<Workspace>, k: int) -> bool {
    &&& new.len() == src.len()
    &&& forall|i: int| 0 <= i < src.len() && i != k ==> #[trigger] new[i] == src[i]
    &&& new[k].id == src[k].id
    &&& new[k].uuid == src[k].uuid
    &&& new[k].name == src[k].name
    &&& new[k].cwd == src[k].cwd
    &&& new[k].stack_page_name == src[k].stack_page_name
    &&& new[k].connection_state == src[k].connection_state
    &&& new[k].remote_target == src[k].remote_target
}

impl<E> AppState<E> {
    proof fn lemma_point_update_wf(&self, old_ws: Seq<Workspace>, k: int)
        requires
            ids_ok(old_ws, self.next_id),
            self.workspaces@.len() == old_ws.len(),
            0 <= k < old_ws.len(),
            forall|i: int| 0 <= i < old_ws.len() && i != k ==> #[trigger] self.workspaces@[i] == old_ws[i],
            self.workspaces@[k].id == old_ws[k].id,
            self.active_index < self.workspaces@.len(),
            self.split_engines@.len() == self.workspaces@.len(),
        ensures
            self.wf(),
    {
        assert forall|i: int| 0 <= i < old_ws.len() implies #[trigger] self.workspaces@[i].id == old_ws[i].id by {
            if i != k {
                assert(self.workspaces@[i] == old_ws[i]);
            }
        }
        lemma_same_ids(old_ws, self.workspaces@, self.next_id);
    }

    /// A terminal bell rang in a pane of the workspace at `index`, whose
    /// split tree now reports `any_attention`. Sets the workspace's attention
    /// flag and, when the window is not focused, decides whether a desktop
    /// notification goes out now (at most one per workspace per
    /// `NOTIFICATION_INTERVAL_MS`, `now_ms` read from a monotonic clock).
    /// Returns true when the caller must send one.
    pub fn set_pane_attention(
        &mut self,
        index: usize,
        any_attention: bool,
        window_focused: bool,
        now_ms: u64,
    ) -> (notify: bool)
        requires
            old(self).wf(),
            index < old(self).workspaces@.len(),
        ensures
            final(self).wf(),
            notify == (!window_focused && any_attention && notification_due(
                old(self).workspaces@[index as int].last_notification_ms,
                now_ms,
            )),
            attention_update(old(self).workspaces@, final(self).workspaces@, index as int),
            final(self).workspaces@[index as int].has_attention == any_attention,
            final(self).workspaces@[index as int].last_notification_ms == (if notify {
                Some(now_ms)
            } else {
                old(self).workspaces@[index as int].last_notification_ms
            }),
            final(self).active_index == old(self).active_index,
            final(self).next_id == old(self).next_id,
            final(self).next_display_number == old(self).next_display_number,
            final(self).sidebar_width == old(self).sidebar_width,
            final(self).chromium_path_override == old(self).chromium_path_override,
            final(self).split_engines@ == old(self).split_engines@,
    {
        self.workspaces[index].has_attention = any_attention;
        let mut notify = false;
        if !window_focused && any_attention {
            let due = match self.workspaces[index].last_notification_ms {
                None => true,
                Some(t) => now_ms >= t && now_ms - t >= NOTIFICATION_INTERVAL_MS,
            };
            if due {
                self.workspaces[index].last_notification_ms = Some(now_ms);
                notify = true;
            }
        }
        proof {
            self.lemma_point_update_wf(old(self).workspaces@, index as int);
        }
        notify
    }

    /// True when the user is looking at the workspace at `index`: the window
    /// is focused and that workspace is the shown one. A terminal
    /// notification from it is then treated as already read.
    pub fn is_viewing(&self, index: usize, window_focused: bool) -> (b: bool)
        ensures
            b == (window_focused && index == self.active_index),
    {
        window_focused && index == self.active_index
    }

    /// A terminal notification (OSC 9 / OSC 777) arrived from a pane of the
    /// workspace at `index`, which the user is not viewing, and its split
    /// tree now reports `any_attention`. Raises the workspace's badge and
    /// decides, with the same rate limit as the bell, whether a desktop
    /// notification goes out. Returns its summary: the agent's `title`, or
    /// the workspace's title when the agent gave none.
    pub fn record_terminal_notification(
        &mut self,
        index: usize,
        any_attention: bool,
        title: String,
        now_ms: u64,
    ) -> (summary: Option<String>)
        requires
            old(self).wf(),
            index < old(self).workspaces@.len(),
        ensures
            final(self).wf(),
            attention_update(old(self).workspaces@, final(self).workspaces@, index as int),
            final(self).workspaces@[index as int].has_attention == any_attention,
            summary is Some == notification_due(
                old(self).workspaces@[index as int].last_notification_ms,
                now_ms,
            ),
            final(self).workspaces@[index as int].last_notification_ms == (if summary is Some {
                Some(now_ms)
            } else {
                old(self).workspaces@[index as int].last_notification_ms
            }),
            summary matches Some(s) ==> s@ == (if title@.len() == 0 {
                title_spec(old(self).workspaces@[index as int])
            } else {
                title@
            }),
            final(self).active_index == old(self).active_index,
            final(self).next_id == old(self).next_id,
            final(self).next_display_number == old(self).next_display_number,
            final(self).sidebar_width == old(self).sidebar_width,
            final(self).chromium_path_override == old(self).chromium_path_override,
            final(self).split_engines@ == old(self).split_engines@,
    {
        self.workspaces[index].has_attention = any_attention;
        let due = match self.workspaces[index].last_notification_ms {
            None => true,
            Some(t) => now_ms >= t && now_ms - t >= NOTIFICATION_INTERVAL_MS,
        };
        let mut summary = None;
        if due {
            self.workspaces[index].last_notification_ms = Some(now_ms);
            let s = if title.as_str().unicode_len() == 0 {
                workspace_title(&self.workspaces[index])
            } else {
                title
            };
            summary = Some(s);
        }
        proof {
            self.lemma_point_update_wf(old(self).workspaces@, index as int);
        }
        summary
    }

    /// The working directory of the active pane of the workspace at `index`
    /// became `pwd`. SSH workspaces keep their connection-state subtitle and
    /// are left untouched, as is a workspace already at `pwd`. Returns true
    /// when the directory changed, for the caller to refresh the sidebar row
    /// and save the session.
    pub fn update_pane_pwd(&mut self, index: usize, pwd: String) -> (changed: bool)
        requires
            old(self).wf(),
            index < old(self).workspaces@.len(),
        ensures
            final(self).wf(),
            changed == (!old(self).workspaces@[index as int].connection_state.is_remote_spec()
                && old(self).workspaces@[index as int].cwd@ != pwd@),
            changed ==> final(self).workspaces@ == old(self).workspaces@.update(
                index as int,
                final(self).workspaces@[index as int],
            ),
            changed ==> final(self).workspaces@[index as int].cwd == pwd,
            changed ==> {
                let (a, b) = (old(self).workspaces@[index as int], final(self).workspaces@[index as int]);
                &&& b.id == a.id
                &&& b.uuid == a.uuid
                &&& b.name == a.name
                &&& b.stack_page_name == a.stack_page_name
                &&& b.connection_state == a.connection_state
                &&& b.remote_target == a.remote_target
                &&& b.has_attention == a.has_attention
                &&& b.last_notification_ms == a.last_notification_ms
            },
            !changed ==> final(self).workspaces@ == old(self).workspaces@,
            final(self).active_index == old(self).active_index,
            final(self).next_id == old(self).next_id,
            final(self).next_display_number == old(self).next_display_number,
            final(self).sidebar_width == old(self).sidebar_width,
            final(self).chromium_path_override == old(self).chromium_path_override,
            final(self).split_engines@ == old(self).split_engines@,
    {
        if self.workspaces[index].connection_state.is_remote() {
            return false;
        }
        if self.workspaces[index].cwd == pwd {
            return false;
        }
        self.workspaces[index].cwd = pwd;
        proof {
            assert(self.workspaces@ =~= old(self).workspaces@.update(index as int, self.workspaces@[index as int]));
            self.lemma_point_update_wf(old(self).workspaces@, index as int);
        }
        true
    }

    /// The session snapshot of the window: one entry per workspace, with the
    /// layout tree and active pane the caller read from its split engine,
    /// the sidebar width and the window geometry.
    pub fn session_snapshot<L>(
        &self,
        layouts: Vec<L>,
        active_pane_uuids: Vec<Option<String>>,
        window: WindowGeometry,
    ) -> (data: SessionData<L>)
        requires
            layouts@.len() == self.workspaces@.len(),
            active_pane_uuids@.len() == self.workspaces@.len(),
        ensures
            data.version == CURRENT_SESSION_VERSION,
            data.active_index == self.active_index,
            data.sidebar_width == Some(self.sidebar_width),
            data.window_width == window.width,
            data.window_height == window.height,
            data.window_maximized == window.maximized,
            data.window_x == window.x,
            data.window_y == window.y,
            data.workspaces@.len() == self.workspaces@.len(),
            forall|i: int|
                0 <= i < self.workspaces@.len() ==> {
                    let w = #[trigger] data.workspaces@[i];
                    &&& w.uuid == self.workspaces@[i].uuid
                    &&& w.name == self.workspaces@[i].name
                    &&& w.cwd == self.workspaces@[i].cwd
                    &&& w.layout == layouts@[i]
                    &&& w.active_pane_uuid == active_pane_uuids@[i]
                    &&& w.tabs@.len() == 0
                    &&& w.active_tab == 0
                },
    {
        let n = self.workspaces.len();
        let mut layouts = layouts;
        let mut uuids = active_pane_uuids;
        let ghost all_layouts = layouts@;
        let ghost all_uuids = uuids@;
        let mut out: Vec<WorkspaceSession<L>> = Vec::new();
        let mut i: usize = 0;
        while i < n
            invariant
                i <= n,
                n == self.workspaces@.len(),
                all_layouts.len() == n,
                all_uuids.len() == n,
                layouts@ == all_layouts.skip(i as int),
                uuids@ == all_uuids.skip(i as int),
                out@.len() == i,
                forall|j: int|
                    0 <= j < i ==> {
                        let w = #[trigger] out@[j];
                        &&& w.uuid == self.workspaces@[j].uuid
                        &&& w.name == self.workspaces@[j].name
                        &&& w.cwd == self.workspaces@[j].cwd
                        &&& w.layout == all_layouts[j]
                        &&& w.active_pane_uuid == all_uuids[j]
                        &&& w.tabs@.len() == 0
                        &&& w.active_tab == 0
                    },
            decreases n - i,
        {
            let layout = layouts.remove(0);
            let active_pane_uuid = uuids.remove(0);
            let ws = &self.workspaces[i];
            out.push(
                WorkspaceSession {
                    uuid: ws.uuid.clone(),
                    name: ws.name.clone(),
                    active_pane_uuid,
                    layout,
                    tabs: Vec::new(),
                    active_tab: 0,
                    cwd: ws.cwd.clone(),
                },
            );
            proof {
                assert(layouts@ =~= all_layouts.skip(i + 1));
                assert(uuids@ =~= all_uuids.skip(i + 1));
            }
            i = i + 1;
        }
        SessionData {
            version: CURRENT_SESSION_VERSION,
            active_index: self.active_index,
            workspaces: out,
            sidebar_width: Some(self.sidebar_width),
            window_width: window.width,
            window_height: window.height,
            window_maximized: window.maximized,
            window_x: window.x,
            window_y: window.y,
        }
    }
}

/// After a notification goes out, no other one goes out for that workspace
/// before `NOTIFICATION_INTERVAL_MS` has passed, and one may go out again
/// once it has.
pub proof fn law_notification_rate_limit(sent_at: u64, now: u64)
    ensures
        now >= sent_at && now - sent_at < NOTIFICATION_INTERVAL_MS ==> !notification_due(
            Some(sent_at),
            now,
        ),
        now >= sent_at && now - sent_at >= NOTIFICATION_INTERVAL_MS ==> notification_due(
            Some(sent_at),
            now,
        ),
        notification_due(None, now),
{
}

/// The headline of a desktop notification: `summary`, or `cmux` when empty.
pub fn notification_summary(summary: &str) -> (s: String)
    ensures
        s@ == (if summary@.len() == 0 {
            "cmux"@
        } else {
            summary@
        }),
{
    if summary.unicode_len() == 0 {
        String::from_str("cmux")
    } else {
        String::from_str(summary)
    }
}

/// The body of the desktop notification of a terminal bell in workspace
/// `workspace_name`: `<name> - Terminal bell`.
pub fn bell_notification_body(workspace_name: &str) -> (s: String)
    ensures
        s@ == workspace_name@ + " - Terminal bell"@,
{
    let mut s = String::from_str(workspace_name);
    s.append(" - Terminal bell");
    s
}

/// True when `pane` is among `ids`.
pub fn contains_pane(ids: &Vec<u64>, pane: u64) -> (b: bool)
    ensures
        b == ids@.contains(pane),
{
    let mut i: usize = 0;
    while i < ids.len()
        invariant
            i <= ids@.len(),
            forall|j: int| 0 <= j < i ==> ids@[j] != pane,
        decreases ids@.len() - i,
    {
        if ids[i] == pane {
            return true;
        }
        i = i + 1;
    }
    false
}

/// The workspace that owns `pane`: the first position whose pane ids (those
/// the caller collected from each workspace's split tree, in workspace
/// order) contain it, or `None` when no workspace has that pane.
pub fn workspace_of_pane(pane_ids: &Vec<Vec<u64>>, pane: u64) -> (owner: Option<usize>)
    ensures
        match owner {
            Some(i) => {
                &&& i < pane_ids@.len()
                &&& pane_ids@[i as int]@.contains(pane)
                &&& forall|j: int| 0 <= j < i ==> !(#[trigger] pane_ids@[j])@.contains(pane)
            },
            None => forall|j: int| 0 <= j < pane_ids@.len() ==> !(#[trigger] pane_ids@[j])@.contains(pane),
        },
{
    let mut i: usize = 0;
    while i < pane_ids.len()
        invariant
            i <= pane_ids@.len(),
            forall|j: int| 0 <= j < i ==> !(#[trigger] pane_ids@[j])@.contains(pane),
        decreases pane_ids@.len() - i,
    {
        if contains_pane(&pane_ids[i], pane) {
            return Some(i);
        }
        i = i + 1;
    }
    None
}

/// The workspace whose directory a `.pwd` report from `pane` sets: the
/// first position where `pane` is the active pane (`active_panes`, one per
/// workspace) and belongs to the split tree (`pane_ids`, one list per
/// workspace). Only the active pane drives a workspace's directory; a
/// background split changing directory retitles nothing.
pub fn pwd_workspace(active_panes: &Vec<u64>, pane_ids: &Vec<Vec<u64>>, pane: u64) -> (target: Option<usize>)
    requires
        active_panes@.len() == pane_ids@.len(),
    ensures
        match target {
            Some(i) => {
                &&& i < pane_ids@.len()
                &&& active_panes@[i as int] == pane
                &&& pane_ids@[i as int]@.contains(pane)
                &&& forall|j: int|
                    0 <= j < i ==> !(active_panes@[j] == pane && (#[trigger] pane_ids@[j])@.contains(pane))
            },
            None => forall|j: int|
                0 <= j < pane_ids@.len() ==> !(active_panes@[j] == pane && (#[trigger] pane_ids@[j])@.contains(pane)),
        },
{
    let mut i: usize = 0;
    while i < pane_ids.len()
        invariant
            i <= pane_ids@.len(),
            active_panes@.len() == pane_ids@.len(),
            forall|j: int|
                0 <= j < i ==> !(active_panes@[j] == pane && (#[trigger] pane_ids@[j])@.contains(pane)),
        decreases pane_ids@.len() - i,
    {
        if active_panes[i] == pane && contains_pane(&pane_ids[i], pane) {
            return Some(i);
        }
        i = i + 1;
    }
    None
}

/// A workspace created next gets an id no open workspace has.
pub proof fn law_next_id_is_fresh<E>(state: AppState<E>)
    requires
        state.wf(),
    ensures
        forall|i: int| 0 <= i < state.workspaces@.len() ==> #[trigger] state.workspaces@[i].id != state.next_id,
{
}

} // verus!
