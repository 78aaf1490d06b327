use pow_search::instances::{ExactInstance, ModuloInstance, NeverInstance};
use pow_search::ranges::partition;
use pow_search::search::{search, search_auto, ConfigError};
use pow_search::predicate::Instance;
use pow_search::slot::ResultSlot;
use pow_search::worker::{run_worker, SearchState, WorkerOutcome};

#[test]
fn partition_exact_even() {
    let rs = partition(1000, 4);
    assert_eq!(rs.len(), 4);
    let bounds: Vec<(u64, u64)> = rs.iter().map(|r| (r.start, r.end)).collect();
    assert_eq!(bounds, vec![(0, 250), (250, 500), (500, 750), (750, 1000)]);
}

#[test]
fn partition_last_absorbs_remainder() {
    let rs = partition(10, 3);
    let bounds: Vec<(u64, u64)> = rs.iter().map(|r| (r.start, r.end)).collect();
    assert_eq!(bounds, vec![(0, 3), (3, 6), (6, 10)]);
}

#[test]
fn partition_covers_without_gap_or_overlap() {
    for (bound, workers) in [(1u64, 1usize), (1, 8), (97, 8), (1000, 7), (5, 5), (3, 8)] {
        let rs = partition(bound, workers);
        assert_eq!(rs.len(), workers);
        assert_eq!(rs[0].start, 0);
        assert_eq!(rs[workers - 1].end, bound);
        for w in rs.windows(2) {
            assert_eq!(w[0].end, w[1].start);
            assert!(w[0].start <= w[0].end);
        }
        // every candidate falls in exactly one range
        for c in 0..bound {
            let holders = rs.iter().filter(|r| r.start <= c && c < r.end).count();
            assert_eq!(holders, 1);
        }
    }
}

#[test]
fn partition_huge_bound() {
    let rs = partition(u64::MAX, 3);
    assert_eq!(rs.len(), 3);
    assert_eq!(rs[0].start, 0);
    assert_eq!(rs[2].end, u64::MAX);
    let chunk = u64::MAX / 3;
    assert_eq!(rs[1].start, chunk);
    assert_eq!(rs[1].end, 2 * chunk);
}

#[test]
fn partition_nonempty_when_enough_candidates() {
    let rs = partition(8, 8);
    for r in rs.iter() {
        assert!(r.start < r.end);
    }
}

#[test]
fn scenario_multiples_of_97() {
    let instance = ModuloInstance { modulus: 97 };
    for workers in [1usize, 2, 4, 8] {
        let found = search(&instance, 1000, workers)
            .expect("configuration is valid")
            .expect("0 is a multiple of 97, so a solution exists");
        assert!(found < 1000);
        assert_eq!(found % 97, 0);
    }
}

#[test]
fn scenario_always_false() {
    let instance = NeverInstance {};
    assert_eq!(search(&instance, 500, 4), Ok(None));
}

#[test]
fn scenario_last_candidate_only() {
    // the sole solution is the very last value, which the partitioning rule
    // puts in the last worker's range
    for workers in [1usize, 2, 3, 4, 8, 17] {
        let bound = 1000u64;
        let instance = ExactInstance { target: bound - 1 };
        assert_eq!(search(&instance, bound, workers), Ok(Some(bound - 1)));
    }
}

#[test]
fn scenario_zero_workers_rejected() {
    let instance = ModuloInstance { modulus: 97 };
    assert_eq!(search(&instance, 1000, 0), Err(ConfigError::ZeroWorkers));
}

#[test]
fn zero_bound_rejected() {
    let instance = ModuloInstance { modulus: 97 };
    assert_eq!(search(&instance, 0, 4), Err(ConfigError::ZeroBound));
}

#[test]
fn search_auto_uses_host_parallelism() {
    let instance = ModuloInstance { modulus: 97 };
    let found = search_auto(&instance, 1000)
        .expect("bound is nonzero")
        .expect("a solution exists");
    assert_eq!(found % 97, 0);
    assert_eq!(search_auto(&instance, 0), Err(ConfigError::ZeroBound));
    assert_eq!(search_auto(&NeverInstance {}, 300), Ok(None));
}

#[test]
fn slot_written_exactly_once() {
    // many competing claims: exactly one wins, and the slot keeps the
    // winner's value
    let mut slot = ResultSlot::new();
    assert_eq!(slot.get(), None);
    let mut wins = 0;
    for candidate in 0..100u64 {
        if slot.try_publish(candidate * 10) {
            wins += 1;
        }
    }
    assert_eq!(wins, 1);
    assert_eq!(slot.get(), Some(0));
}

#[test]
fn worker_finds_first_match_in_range() {
    let instance = ModuloInstance { modulus: 3 };
    let mut state = SearchState::new();
    let rs = partition(10, 1);
    let outcome = run_worker(&instance, rs[0], &mut state);
    assert_eq!(outcome, WorkerOutcome::Found(0));
    assert!(state.cancelled);
    assert_eq!(state.slot.get(), Some(0));
}

#[test]
fn worker_scans_ascending() {
    let instance = ModuloInstance { modulus: 7 };
    let mut state = SearchState::new();
    let rs = partition(100, 1);
    // 0 is a multiple of 7, but the range below starts at 8
    let outcome = run_worker(
        &instance,
        pow_search::ranges::SearchRange { start: 8, end: 100 },
        &mut state,
    );
    assert_eq!(outcome, WorkerOutcome::Found(14));
    assert_eq!(rs[0].start, 0);
}

#[test]
fn worker_stops_on_cancellation() {
    let instance = ModuloInstance { modulus: 3 };
    let mut state = SearchState::new();
    state.cancelled = true;
    let rs = partition(10, 1);
    let outcome = run_worker(&instance, rs[0], &mut state);
    assert_eq!(outcome, WorkerOutcome::Cancelled);
    assert_eq!(state.slot.get(), None);
}

#[test]
fn worker_loses_race_when_slot_occupied() {
    let instance = ModuloInstance { modulus: 3 };
    let mut slot = ResultSlot::new();
    assert!(slot.try_publish(99));
    let mut state = SearchState {
        cancelled: false,
        slot,
    };
    let rs = partition(10, 1);
    let outcome = run_worker(&instance, rs[0], &mut state);
    assert_eq!(outcome, WorkerOutcome::LostRace);
    assert_eq!(state.slot.get(), Some(99));
}

#[test]
fn worker_exhausts_empty_and_unmatched_ranges() {
    let never = NeverInstance {};
    let mut state = SearchState::new();
    let rs = partition(50, 1);
    assert_eq!(run_worker(&never, rs[0], &mut state), WorkerOutcome::Exhausted);
    assert_eq!(state.slot.get(), None);
    assert!(!state.cancelled);
    // an empty range is exhausted immediately, even under cancellation
    state.cancelled = true;
    let empty = pow_search::ranges::SearchRange { start: 5, end: 5 };
    assert_eq!(run_worker(&never, empty, &mut state), WorkerOutcome::Exhausted);
}

#[test]
fn modulo_instance_rejects_all_on_zero_modulus() {
    let instance = ModuloInstance { modulus: 0 };
    for c in 0..10u64 {
        assert!(!instance.evaluate(c));
    }
    assert_eq!(search(&instance, 100, 4), Ok(None));
}
