//! Workspace, tab, shortcut and session logic of the cmux terminal
//! multiplexer, with its contracts.

use vstd::prelude::*;

pub mod text;
pub mod instance;
pub mod config;
pub mod paths;
pub mod session;
pub mod workspace;
pub mod app_state;
pub mod tabs;
pub mod input;
pub mod window_geometry;
pub mod sidebar;

verus! {
} // verus!
