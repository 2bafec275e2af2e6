//! Keyboard input handed to the terminal: GDK modifier bits mapped to
//! the terminal's modifier set, and the unshifted codepoint of a key.

use vstd::prelude::*;
use crate::config::{ALT_MASK, CONTROL_MASK, SHIFT_MASK, SUPER_MASK};

verus! {

/// Terminal modifier bit: Shift.
pub const GHOSTTY_MODS_SHIFT: u32 = 1;
/// Terminal modifier bit: Control.
pub const GHOSTTY_MODS_CTRL: u32 = 2;
/// Terminal modifier bit: Alt.
pub const GHOSTTY_MODS_ALT: u32 = 4;
/// Terminal modifier bit: Super.
pub const GHOSTTY_MODS_SUPER: u32 = 8;

/// The terminal modifier set of a GDK modifier state: each of Shift,
/// Control, Alt and Super held in `state` sets its terminal bit; nothing
/// else is carried over.
pub open spec fn map_mods_spec(state: u32) -> u32 {
    (if state & SHIFT_MASK != 0 { GHOSTTY_MODS_SHIFT } else { 0u32 }) | (if state & CONTROL_MASK
        != 0 {
        GHOSTTY_MODS_CTRL
    } else {
        0u32
    }) | (if state & ALT_MASK != 0 { GHOSTTY_MODS_ALT } else { 0u32 }) | (if state & SUPER_MASK
        != 0 {
        GHOSTTY_MODS_SUPER
    } else {
        0u32
    })
}

/// Maps GDK modifier state bits to the terminal's modifier bits; 0 when no
/// modifier is held.
pub fn map_mods(state: u32) -> (mods: u32)
    ensures
        mods == map_mods_spec(state),
{
    let shift: u32 = if state & SHIFT_MASK != 0 { GHOSTTY_MODS_SHIFT } else { 0 };
    let ctrl: u32 = if state & CONTROL_MASK != 0 { GHOSTTY_MODS_CTRL } else { 0 };
    let alt: u32 = if state & ALT_MASK != 0 { GHOSTTY_MODS_ALT } else { 0 };
    let sup: u32 = if state & SUPER_MASK != 0 { GHOSTTY_MODS_SUPER } else { 0 };
    shift | ctrl | alt | sup
}

/// One mapping of a physical key in the keymap: the layout group and shift
/// level it belongs to, and the Unicode codepoint of its keyval, if it has one.
pub struct KeymapEntry {
    pub group: i32,
    pub level: i32,
    pub codepoint: Option<u32>,
}

/// True for the mapping of the event's layout group at level 0 (no Shift or
/// AltGr applied).
pub open spec fn is_unshifted(e: KeymapEntry, layout: i32) -> bool {
    e.group == layout && e.level == 0
}

/// The unshifted codepoint of a key given all its keymap mappings: the
/// codepoint of the first mapping of the event's layout group at level 0,
/// and 0 when there is no such mapping or its keyval has no codepoint.
///
/// The terminal needs it to choose the legacy control encoding: with it left
/// at 0, `Ctrl+[` cannot be resolved to ESC and reaches the shell as a CSI-u
/// sequence.
pub fn unshifted_codepoint(entries: &Vec<KeymapEntry>, layout: i32) -> (cp: u32)
    ensures
        (forall|i: int| 0 <= i < entries@.len() ==> !is_unshifted(#[trigger] entries@[i], layout))
            ==> cp == 0,
        forall|i: int|
            0 <= i < entries@.len() && is_unshifted(#[trigger] entries@[i], layout) && (forall|j: int|
                0 <= j < i ==> !is_unshifted(#[trigger] entries@[j], layout)) ==> cp == match entries@[i].codepoint {
                Some(c) => c,
                None => 0,
            },
{
    let mut i: usize = 0;
    while i < entries.len()
        invariant
            i <= entries@.len(),
            forall|j: int| 0 <= j < i ==> !is_unshifted(#[trigger] entries@[j], layout),
        decreases entries@.len() - i,
    {
        let e = &entries[i];
        if e.group == layout && e.level == 0 {
            return match e.codepoint {
                Some(c) => c,
                None => 0,
            };
        }
        i = i + 1;
    }
    0
}

/// Each GDK modifier held sets its own terminal bit and nothing else: Shift
/// gives Shift, Control gives Control, Alt gives Alt and Super gives Super,
/// and a modifier not held leaves its bit clear.
pub proof fn law_map_mods_bits(state: u32)
    ensures
        (map_mods_spec(state) & 1u32 != 0) == (state & 1u32 != 0),
        (map_mods_spec(state) & 2u32 != 0) == (state & 4u32 != 0),
        (map_mods_spec(state) & 4u32 != 0) == (state & 8u32 != 0),
        (map_mods_spec(state) & 8u32 != 0) == (state & 0x400_0000u32 != 0),
        map_mods_spec(state) & !15u32 == 0,
{
    let s1: u32 = if state & 1u32 != 0 { 1u32 } else { 0u32 };
    let s2: u32 = if state & 4u32 != 0 { 2u32 } else { 0u32 };
    let s3: u32 = if state & 8u32 != 0 { 4u32 } else { 0u32 };
    let s4: u32 = if state & 0x400_0000u32 != 0 { 8u32 } else { 0u32 };
    assert(map_mods_spec(state) == s1 | s2 | s3 | s4);
    assert({
        let m = s1 | s2 | s3 | s4;
        &&& (m & 1u32 != 0) == (s1 != 0)
        &&& (m & 2u32 != 0) == (s2 != 0)
        &&& (m & 4u32 != 0) == (s3 != 0)
        &&& (m & 8u32 != 0) == (s4 != 0)
        &&& m & !15u32 == 0
    }) by (bit_vector)
        requires
            s1 == 0 || s1 == 1,
            s2 == 0 || s2 == 2,
            s3 == 0 || s3 == 4,
            s4 == 0 || s4 == 8,
    ;
}

} // verus!
