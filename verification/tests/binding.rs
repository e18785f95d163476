use dylink::Attempt;
use dylink::CandidateOutcome;
use dylink::CloseableLibrary;
use dylink::DylinkError;
use dylink::LazyFn;
use dylink::Library;
use dylink::LinkType;
use dylink::SlotTable;
use dylink::resolve_candidates;

const PLACEHOLDER: usize = 0xdead_0001;

fn fresh_slot(table: &mut SlotTable, name: &str, libs: &[&str]) -> usize {
    let list = libs.iter().map(|s| s.to_string()).collect::<Vec<String>>();
    table.add(LazyFn::new(
        PLACEHOLDER,
        name.to_string(),
        LinkType::System(list),
    ))
}

/// A fake loader: the only library that opens is `present`, with handle
/// `7`, and every symbol in it resolves to `addr`.  Each probe of the
/// loader bumps `os_calls`.
fn fake_open(lib: &str, present: &str, os_calls: &mut usize) -> Result<usize, String> {
    *os_calls += 1;
    if lib == present {
        Ok(7)
    } else {
        Err(format!("{lib}: cannot open"))
    }
}

/// Drives one resolution of a slot against a registry, the way a binder
/// would: answer from the cache if the guard has fired, otherwise walk
/// the candidates through the fake loader and complete the slot with the
/// outcome.
fn resolve_slot(
    table: &mut SlotTable,
    idx: usize,
    lib: &mut Library,
    present: &str,
    addr: usize,
    os_calls: &mut usize,
) -> Result<usize, String> {
    if let Some(cached) = table.slot(idx).try_link() {
        return cached.map_err(|_| "resolution failed".to_string());
    }
    let mut att = Attempt::begin();
    loop {
        let name = match lib.next_candidate(&att) {
            Some(n) => n.clone(),
            None => break,
        };
        match fake_open(&name, present, os_calls) {
            Ok(handle) => lib.note_opened(handle),
            Err(msg) => att.record_failure(msg),
        }
    }
    if lib.handle().is_some() {
        // the symbol lookup against the opened handle
        *os_calls += 1;
        let prev = lib.install(table, idx, addr);
        assert_eq!(prev, PLACEHOLDER, "first bind must displace the placeholder");
        table.slot_mut(idx).complete_success(addr);
        Ok(addr)
    } else {
        table.slot_mut(idx).complete_failure(att.into_exhausted());
        Err("resolution failed".to_string())
    }
}

#[test]
fn test_empty_candidate_list_rejected() {
    assert!(matches!(
        Library::new(Vec::new()),
        Err(DylinkError::EmptyCandidateList)
    ));
    assert!(matches!(
        CloseableLibrary::new(Vec::new()),
        Err(DylinkError::EmptyCandidateList)
    ));
}

#[test]
fn test_candidates_kept_in_priority_order() {
    let lib = Library::new(vec!["liba.so".to_string(), "libb.so".to_string()]).unwrap();
    assert_eq!(lib.candidate_count(), 2);
    assert_eq!(lib.candidate(0).as_str(), "liba.so");
    assert_eq!(lib.candidate(1).as_str(), "libb.so");
    assert!(lib.handle().is_none());
}

#[test]
fn test_slot_starts_unresolved_at_placeholder() {
    let mut table = SlotTable::new();
    let idx = fresh_slot(&mut table, "foo", &["libfoo.so"]);
    assert_eq!(table.slot(idx).load(), PLACEHOLDER);
    assert!(table.slot(idx).try_link().is_none());
}

#[test]
fn test_resolution_happens_exactly_once() {
    let mut table = SlotTable::new();
    let idx = fresh_slot(&mut table, "foo", &["present.so"]);
    let mut lib = Library::new(vec!["present.so".to_string()]).unwrap();
    let mut os_calls: usize = 0;

    let first = resolve_slot(&mut table, idx, &mut lib, "present.so", 0xf00d, &mut os_calls);
    let calls_after_first = os_calls;
    let second = resolve_slot(&mut table, idx, &mut lib, "present.so", 0xf00d, &mut os_calls);
    let third = resolve_slot(&mut table, idx, &mut lib, "present.so", 0xf00d, &mut os_calls);

    assert_eq!(first, Ok(0xf00d));
    assert_eq!(second, first);
    assert_eq!(third, first);
    assert_eq!(calls_after_first, 2, "one open probe and one symbol lookup");
    assert_eq!(os_calls, calls_after_first, "repeat calls reach the loader zero times");
    assert_eq!(table.slot(idx).load(), 0xf00d);
}

#[test]
fn test_failed_resolution_is_terminal_and_cached() {
    let mut table = SlotTable::new();
    let idx = fresh_slot(&mut table, "foo", &["missing.so"]);
    let mut lib = Library::new(vec!["missing.so".to_string()]).unwrap();
    let mut os_calls: usize = 0;

    let first = resolve_slot(&mut table, idx, &mut lib, "other.so", 0xf00d, &mut os_calls);
    let calls_after_first = os_calls;
    let second = resolve_slot(&mut table, idx, &mut lib, "other.so", 0xf00d, &mut os_calls);

    assert!(first.is_err());
    assert_eq!(second, first);
    assert_eq!(os_calls, calls_after_first, "a terminal error is never retried");
    // call sites still go through the placeholder
    assert_eq!(table.slot(idx).load(), PLACEHOLDER);
    match table.slot(idx).try_link() {
        Some(Err(DylinkError::AllCandidatesExhausted(msgs))) => {
            assert_eq!(msgs.len(), 1);
            assert!(msgs[0].starts_with("missing.so"));
        }
        other => panic!("expected the aggregated terminal error, got {other:?}"),
    }
}

#[test]
fn test_fallback_resolves_via_second_candidate() {
    let mut table = SlotTable::new();
    let idx = fresh_slot(&mut table, "foo", &["missing.so", "present.so"]);
    let mut lib =
        Library::new(vec!["missing.so".to_string(), "present.so".to_string()]).unwrap();
    let mut os_calls: usize = 0;

    let got = resolve_slot(&mut table, idx, &mut lib, "present.so", 0xbeef, &mut os_calls);
    assert_eq!(got, Ok(0xbeef), "the aggregated-failure path must never surface");
    assert_eq!(table.slot(idx).load(), 0xbeef);
    assert!(matches!(
        table.slot(idx).try_link(),
        Some(Ok(0xbeef))
    ));
}

#[test]
fn test_resolve_candidates_first_success_wins() {
    let outs = vec![
        CandidateOutcome::NotLoaded("missing.so: cannot open".to_string()),
        CandidateOutcome::Loaded(0xbeef),
        CandidateOutcome::Loaded(0x1111),
    ];
    assert!(matches!(resolve_candidates(&outs), Ok(0xbeef)));
}

#[test]
fn test_resolve_candidates_aggregates_failures_in_order() {
    let outs = vec![
        CandidateOutcome::NotLoaded("first failure".to_string()),
        CandidateOutcome::NotLoaded("second failure".to_string()),
    ];
    match resolve_candidates(&outs) {
        Err(DylinkError::AllCandidatesExhausted(msgs)) => {
            assert_eq!(msgs, vec!["first failure", "second failure"]);
        }
        other => panic!("expected exhaustion, got {other:?}"),
    }
}

#[test]
fn test_resolve_candidates_empty_list_exhausts() {
    let outs: Vec<CandidateOutcome> = Vec::new();
    match resolve_candidates(&outs) {
        Err(DylinkError::AllCandidatesExhausted(msgs)) => assert!(msgs.is_empty()),
        other => panic!("expected exhaustion, got {other:?}"),
    }
}

#[test]
fn test_install_reports_previous_value() {
    let mut table = SlotTable::new();
    let idx = fresh_slot(&mut table, "foo", &["libfoo.so"]);
    let mut lib = CloseableLibrary::new(vec!["libfoo.so".to_string()]).unwrap();
    lib.note_opened(3);
    let first = lib.install(&mut table, idx, 0x100);
    let second = lib.install(&mut table, idx, 0x200);
    assert_eq!(first, PLACEHOLDER, "first bind sees the placeholder");
    assert_eq!(second, 0x100, "rebind sees the previously installed address");
}

#[test]
fn test_close_round_trip_restores_placeholder() {
    let mut table = SlotTable::new();
    let idx = fresh_slot(&mut table, "sym_s", &["libs.so"]);
    let mut lib = CloseableLibrary::new(vec!["libs.so".to_string()]).unwrap();

    // bind S and observe a non-placeholder slot value
    lib.note_opened(11);
    let prev = lib.install(&mut table, idx, 0xabcd);
    table.slot_mut(idx).complete_success(0xabcd);
    assert_eq!(prev, PLACEHOLDER);
    assert_ne!(table.slot(idx).load(), PLACEHOLDER);

    // close: the handle comes back, the slot is exactly its old self
    assert!(lib.undo_within(&table));
    let closed = lib.close(&mut table);
    assert!(matches!(closed, Ok(11)));
    assert!(lib.handle().is_none());
    assert_eq!(table.slot(idx).load(), PLACEHOLDER);
    assert!(table.slot(idx).try_link().is_none(), "the guard is reset");

    // bind S again after a fresh open: a valid, possibly different address
    lib.note_opened(12);
    let prev = lib.install(&mut table, idx, 0x7777);
    table.slot_mut(idx).complete_success(0x7777);
    assert_eq!(prev, PLACEHOLDER);
    assert_eq!(table.slot(idx).load(), 0x7777);
}

#[test]
fn test_close_restores_only_touched_slots() {
    let mut table = SlotTable::new();
    let bound = fresh_slot(&mut table, "a", &["liba.so"]);
    let untouched = fresh_slot(&mut table, "b", &["liba.so"]);
    let mut lib = CloseableLibrary::new(vec!["liba.so".to_string()]).unwrap();
    lib.note_opened(5);
    lib.install(&mut table, bound, 0x100);
    table.slot_mut(untouched).complete_success(0x200);

    assert!(lib.undo_within(&table));
    lib.close(&mut table).unwrap();
    assert_eq!(table.slot(bound).load(), PLACEHOLDER);
    assert_eq!(table.slot(untouched).load(), 0x200, "other registries' work stays");
}

#[test]
fn test_close_before_any_open_fails() {
    let mut table = SlotTable::new();
    let mut lib = CloseableLibrary::new(vec!["liba.so".to_string()]).unwrap();
    assert!(lib.undo_within(&table));
    assert!(matches!(
        lib.close(&mut table),
        Err(DylinkError::NeverOpened)
    ));
}

#[test]
fn test_close_twice_fails_distinctly() {
    let mut table = SlotTable::new();
    let mut lib = CloseableLibrary::new(vec!["liba.so".to_string()]).unwrap();
    lib.note_opened(5);
    assert!(lib.undo_within(&table));
    lib.close(&mut table).unwrap();
    assert!(matches!(
        lib.close(&mut table),
        Err(DylinkError::AlreadyClosed)
    ));
}

#[test]
fn test_open_judgment() {
    assert!(matches!(dylink::judge_open(Ok(5)), Ok(5)));
    match dylink::judge_open(Err("no such file".to_string())) {
        Err(DylinkError::CandidateOpenFailed(m)) => assert_eq!(m, "no such file"),
        other => panic!("expected the candidate's own failure, got {other:?}"),
    }
}

#[test]
fn test_symbol_judgment() {
    assert!(matches!(dylink::judge_symbol("frob".to_string(), Some(0x30)), Ok(0x30)));
    match dylink::judge_symbol("frob".to_string(), None) {
        Err(DylinkError::SymbolNotFound(n)) => assert_eq!(n, "frob"),
        other => panic!("expected a missing symbol, got {other:?}"),
    }
}

#[test]
fn test_into_inner_returns_current_cell() {
    let slot = LazyFn::new(PLACEHOLDER, "foo".to_string(), LinkType::Vulkan);
    assert_eq!(slot.into_inner(), PLACEHOLDER);
    let mut slot = LazyFn::new(PLACEHOLDER, "foo".to_string(), LinkType::Vulkan);
    slot.complete_success(0x42);
    assert_eq!(slot.into_inner(), 0x42);
}
