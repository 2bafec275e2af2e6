//! Instance slots.
//!
//! cmux keeps its session and control socket at fixed paths, so two processes
//! sharing them would race: the socket bind collides and the last writer wins
//! the session file. A "new window" is therefore a second *instance* with its
//! own slot. Slot 1 is the default and keeps the historical file names
//! (`session.json`, `cmux.sock`); higher slots suffix both (`session-2.json`,
//! `cmux-2.sock`).
//!
//! Reading the environment and probing sockets is the caller's business; this
//! module holds the decisions made on what those return.

use vstd::prelude::*;
use vstd::string::*;
use crate::text::{decimal, law_parse_decimal_round_trip, parse_u32, parse_u32_spec, prefixed_decimal};

verus! {

/// Environment variable carrying the slot for a spawned instance.
pub const SLOT_ENV: &'static str = "CMUX_INSTANCE";

/// Highest slot handed out. The bound keeps the free-slot search finite.
pub const MAX_SLOT: u32 = 8;

/// The slot that an environment value selects: the value parsed as a `u32`
/// when it parses and lies in `1..=MAX_SLOT`, slot 1 otherwise.
pub open spec fn slot_of(value: Option<Seq<char>>) -> u32 {
    match value {
        Some(v) => match parse_u32_spec(v) {
            Some(n) => if 1 <= n <= MAX_SLOT {
                n
            } else {
                1
            },
            None => 1,
        },
        None => 1,
    }
}

/// The suffix of per-instance file names: empty for the default slot (and for
/// slot 0, which is not a real slot), `-N` for slot `N` otherwise.
pub open spec fn suffix_of(slot: u32) -> Seq<char> {
    if slot <= 1 {
        Seq::empty()
    } else {
        seq!['-'] + decimal(slot as nat)
    }
}

/// This process's slot, given the value of `CMUX_INSTANCE` (`None` when unset).
pub fn current_slot(env_value: Option<&str>) -> (slot: u32)
    ensures
        slot == slot_of(
            match env_value {
                Some(v) => Some(v@),
                None => None,
            },
        ),
        1 <= slot <= MAX_SLOT,
{
    match env_value {
        Some(v) => match parse_u32(v) {
            Some(n) => if 1 <= n && n <= MAX_SLOT {
                n
            } else {
                1
            },
            None => 1,
        },
        None => 1,
    }
}

/// Suffix applied to the file names of slot `slot`.
pub fn suffix(slot: u32) -> (s: String)
    ensures
        s@ == suffix_of(slot),
{
    proof {
        reveal_strlit("-");
    }
    if slot <= 1 {
        String::new()
    } else {
        prefixed_decimal("-", slot as u64)
    }
}

/// File name of the control socket of slot `slot` (`cmux.sock`, `cmux-2.sock`, ...).
pub fn socket_file_name(slot: u32) -> (s: String)
    ensures
        s@ == seq!['c', 'm', 'u', 'x'] + suffix_of(slot) + seq!['.', 's', 'o', 'c', 'k'],
{
    proof {
        reveal_strlit("cmux");
        reveal_strlit(".sock");
        reveal_strlit("-");
    }
    let mut s = String::from_str("cmux");
    let sfx = suffix(slot);
    s.append(sfx.as_str());
    s.append(".sock");
    s
}

/// File name of the session file of slot `slot` (`session.json`, `session-2.json`, ...).
pub fn session_file_name(slot: u32) -> (s: String)
    ensures
        s@ == seq!['s', 'e', 's', 's', 'i', 'o', 'n'] + suffix_of(slot) + seq![
            '.',
            'j',
            's',
            'o',
            'n',
        ],
{
    proof {
        reveal_strlit("session");
        reveal_strlit(".json");
        reveal_strlit("-");
    }
    let mut s = String::from_str("session");
    let sfx = suffix(slot);
    s.append(sfx.as_str());
    s.append(".json");
    s
}

/// One step of the search for a free slot: what to do next.
#[derive(Debug, Clone, Copy, PartialEq, Eq, Structural)]
pub enum SlotProbe {
    /// Probe the socket of this slot.
    Probe(u32),
    /// This slot's socket accepts no connection: the slot is free.
    Free(u32),
    /// Every slot from 2 to `MAX_SLOT` is in use.
    Exhausted,
}

/// The step taken after probing `slot`: a slot whose socket is not accepting
/// connections (missing, or stale from a crashed instance) is free.
pub open spec fn probe_step(slot: u32, accepting: bool) -> SlotProbe {
    if !accepting {
        SlotProbe::Free(slot)
    } else if slot < MAX_SLOT {
        SlotProbe::Probe((slot + 1) as u32)
    } else {
        SlotProbe::Exhausted
    }
}

/// The search starts at slot 2: slot 1 is the default instance's own.
pub fn first_slot_probe() -> (p: SlotProbe)
    ensures
        p == SlotProbe::Probe(2),
{
    SlotProbe::Probe(2)
}

/// Decides the next step after learning whether `slot`'s socket accepts connections.
pub fn next_slot_probe(slot: u32, accepting: bool) -> (p: SlotProbe)
    requires
        2 <= slot <= MAX_SLOT,
    ensures
        p == probe_step(slot, accepting),
{
    if !accepting {
        SlotProbe::Free(slot)
    } else if slot < MAX_SLOT {
        SlotProbe::Probe(slot + 1)
    } else {
        SlotProbe::Exhausted
    }
}

/// Where the search ends when started at `slot` and every probe of slot `s`
/// answers `accepting(s)`.
pub open spec fn search_from(accepting: spec_fn(u32) -> bool, slot: u32) -> SlotProbe
    decreases MAX_SLOT - slot,
{
    if 2 <= slot <= MAX_SLOT {
        match probe_step(slot, accepting(slot)) {
            SlotProbe::Probe(next) => search_from(accepting, next),
            other => other,
        }
    } else {
        SlotProbe::Exhausted
    }
}

proof fn lemma_search_from(accepting: spec_fn(u32) -> bool, slot: u32)
    requires
        2 <= slot <= MAX_SLOT,
    ensures
        forall|s: u32|
            search_from(accepting, slot) == SlotProbe::Free(s) <==> (slot <= s <= MAX_SLOT
                && !accepting(s) && forall|t: u32| slot <= t < s ==> #[trigger] accepting(t)),
        search_from(accepting, slot) == SlotProbe::Exhausted <==> forall|t: u32|
            slot <= t <= MAX_SLOT ==> #[trigger] accepting(t),
        search_from(accepting, slot) !is Probe,
    decreases MAX_SLOT - slot,
{
    if accepting(slot) && slot < MAX_SLOT {
        lemma_search_from(accepting, (slot + 1) as u32);
        assert forall|s: u32|
            search_from(accepting, slot) == SlotProbe::Free(s) <==> (slot <= s <= MAX_SLOT
                && !accepting(s) && forall|t: u32| slot <= t < s ==> #[trigger] accepting(t)) by {
            if slot <= s <= MAX_SLOT && !accepting(s) && forall|t: u32|
                slot <= t < s ==> #[trigger] accepting(t) {
                assert(s != slot);
                assert forall|t: u32| slot + 1 <= t < s implies #[trigger] accepting(t) by {}
            }
        }
        if forall|t: u32| (slot + 1) as u32 <= t <= MAX_SLOT ==> #[trigger] accepting(t) {
            assert forall|t: u32| slot <= t <= MAX_SLOT implies #[trigger] accepting(t) by {
                if t != slot {
                }
            }
        }
    } else if accepting(slot) {
        assert forall|s: u32|
            search_from(accepting, slot) == SlotProbe::Free(s) <==> (slot <= s <= MAX_SLOT
                && !accepting(s) && forall|t: u32| slot <= t < s ==> #[trigger] accepting(t)) by {
            if slot <= s <= MAX_SLOT && !accepting(s) {
                assert(s == slot);
            }
        }
    } else {
        assert forall|s: u32|
            search_from(accepting, slot) == SlotProbe::Free(s) <==> (slot <= s <= MAX_SLOT
                && !accepting(s) && forall|t: u32| slot <= t < s ==> #[trigger] accepting(t)) by {
            if slot <= s <= MAX_SLOT && !accepting(s) && forall|t: u32|
                slot <= t < s ==> #[trigger] accepting(t) {
                if s > slot {
                    assert(accepting(slot));
                }
            }
        }
    }
}

/// The search for a free slot, run from `first_slot_probe` through
/// `next_slot_probe`, finds the lowest slot in `2..=MAX_SLOT` whose socket is
/// not accepting connections, and reports `Exhausted` exactly when every one
/// of them is.
pub proof fn law_search_finds_lowest_free_slot(accepting: spec_fn(u32) -> bool)
    ensures
        forall|s: u32|
            search_from(accepting, 2) == SlotProbe::Free(s) <==> (2 <= s <= MAX_SLOT
                && !accepting(s) && forall|t: u32| 2 <= t < s ==> #[trigger] accepting(t)),
        search_from(accepting, 2) == SlotProbe::Exhausted <==> forall|t: u32|
            2 <= t <= MAX_SLOT ==> #[trigger] accepting(t),
{
    lemma_search_from(accepting, 2);
}

/// An instance spawned with `CMUX_INSTANCE` set to the decimal number of a
/// valid slot runs in that slot, so a slot found free by the search is the
/// one the new instance takes.
pub proof fn law_slot_env_round_trip(slot: u32)
    requires
        1 <= slot <= MAX_SLOT,
    ensures
        slot_of(Some(decimal(slot as nat))) == slot,
{
    law_parse_decimal_round_trip(slot);
}

} // verus!
