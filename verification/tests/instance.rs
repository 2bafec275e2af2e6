use cmux::instance::{
    current_slot, first_slot_probe, next_slot_probe, session_file_name, socket_file_name, suffix,
    SlotProbe, MAX_SLOT, SLOT_ENV,
};

/// Slot 1 must keep the historical names: an existing install's session and
/// the `cmux` CLI both depend on the unsuffixed names.
#[test]
fn slot_one_has_no_suffix() {
    assert_eq!(socket_file_name(1), "cmux.sock");
    assert_eq!(socket_file_name(2), "cmux-2.sock");
    // Slot 0 is not a thing; treat it as the default rather than emitting
    // a "cmux-0.sock" nobody looks for.
    assert_eq!(socket_file_name(0), "cmux.sock");
}

#[test]
fn out_of_range_slot_falls_back_to_default() {
    let parse = |v: &str| current_slot(Some(v));
    assert_eq!(parse("3"), 3);
    assert_eq!(parse("0"), 1);
    assert_eq!(parse("99"), 1);
    assert_eq!(parse("garbage"), 1);
}

#[test]
fn unset_slot_is_default() {
    assert_eq!(current_slot(None), 1);
    assert_eq!(current_slot(Some("")), 1);
    assert_eq!(current_slot(Some("+8")), 8);
    assert_eq!(current_slot(Some("9")), 1);
    assert_eq!(current_slot(Some("-2")), 1);
    assert_eq!(current_slot(Some(" 2")), 1);
    assert_eq!(current_slot(Some("4294967296")), 1);
    assert_eq!(SLOT_ENV, "CMUX_INSTANCE");
}

#[test]
fn suffix_and_session_names() {
    assert_eq!(suffix(1), "");
    assert_eq!(suffix(0), "");
    assert_eq!(suffix(2), "-2");
    assert_eq!(suffix(8), "-8");
    assert_eq!(suffix(12), "-12");
    assert_eq!(session_file_name(1), "session.json");
    assert_eq!(session_file_name(3), "session-3.json");
    assert_eq!(socket_file_name(8), "cmux-8.sock");
}

fn run_search(accepting: &dyn Fn(u32) -> bool) -> SlotProbe {
    let mut step = first_slot_probe();
    while let SlotProbe::Probe(slot) = step {
        step = next_slot_probe(slot, accepting(slot));
    }
    step
}

#[test]
fn free_slot_search_finds_lowest_free() {
    assert_eq!(run_search(&|_| false), SlotProbe::Free(2));
    assert_eq!(run_search(&|s| s < 5), SlotProbe::Free(5));
    assert_eq!(run_search(&|s| s != 8), SlotProbe::Free(8));
    assert_eq!(run_search(&|_| true), SlotProbe::Exhausted);
    assert_eq!(MAX_SLOT, 8);
}

#[test]
fn spawned_slot_reads_back() {
    for slot in 1..=MAX_SLOT {
        let value = cmux::text::decimal_string(slot as u64);
        assert_eq!(current_slot(Some(&value)), slot);
    }
}
