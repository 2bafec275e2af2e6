//! Decisions behind the sidebar's interactive parts: inline renaming, the
//! per-row close button and the wiring of a newly added row.

use vstd::prelude::*;
use crate::text::{trim, trim_spec};

verus! {

/// The outcome of committing an inline rename.
pub struct RenameCommit {
    /// The new workspace name, when the entry held more than white space.
    pub rename: Option<String>,
    /// The title the row shows afterwards.
    pub display: String,
}

/// Commits an inline rename (Enter or focus-out). The entry text is trimmed;
/// a non-empty result renames the workspace and becomes the row's title,
/// while an empty one renames nothing and brings back `current_title` (which
/// may be the directory-derived title).
pub fn rename_commit(entry_text: &str, current_title: &str) -> (c: RenameCommit)
    ensures
        trim_spec(entry_text@).len() > 0 ==> {
            &&& c.rename matches Some(n) && n@ == trim_spec(entry_text@)
            &&& c.display@ == trim_spec(entry_text@)
        },
        trim_spec(entry_text@).len() == 0 ==> {
            &&& c.rename is None
            &&& c.display@ == current_title@
        },
{
    let trimmed = trim(entry_text);
    if trimmed.as_str().unicode_len() > 0 {
        let display = trimmed.clone();
        RenameCommit { rename: Some(trimmed), display }
    } else {
        RenameCommit { rename: None, display: String::from_str(current_title) }
    }
}

/// True when a row's close button may close its workspace: never the last one.
pub fn close_button_may_close(workspace_count: usize) -> (b: bool)
    ensures
        b == (workspace_count > 1),
{
    workspace_count > 1
}

/// The row to wire after one was added: the last of `row_count` rows, none
/// when the list is empty.
pub fn latest_row_index(row_count: u32) -> (i: Option<u32>)
    ensures
        row_count == 0 ==> i is None,
        row_count > 0 ==> i == Some((row_count - 1) as u32),
{
    if row_count == 0 {
        None
    } else {
        Some(row_count - 1)
    }
}

} // verus!
