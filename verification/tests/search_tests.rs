use consensus_recursion::search::{PathFinder, SearchAction};

/// Drives the search with a deterministic verification oracle: `probe`
/// says whether the header at the candidate height verifies from the
/// trusted one.  Fetching is taken to always succeed.
fn run_search<F: Fn(u64, u64) -> bool>(genesis: u64, target: u64, probe: F) -> Vec<u64> {
    let mut finder = PathFinder::new(genesis, target);
    loop {
        match finder.next_action() {
            SearchAction::Done => return finder.path().clone(),
            SearchAction::Probe { trusted, candidate } => {
                let ok = probe(trusted, candidate);
                finder.record_probe(ok);
            }
            SearchAction::Extend { height: _ } => finder.record_extend(),
        }
    }
}

#[test]
fn direct_verification_gives_two_element_path() {
    // Genesis at height 1, target N, direct verification succeeds: the
    // path is exactly [1, N].
    let path = run_search(1, 100, |_, _| true);
    assert_eq!(path, vec![1, 100]);
}

#[test]
fn already_at_target_gives_singleton_path() {
    let path = run_search(7, 7, |_, _| true);
    assert_eq!(path, vec![7]);
}

#[test]
fn doubling_trust_gives_power_of_two_breakpoints() {
    // A header verifies from an anchor only while its height is at most
    // double the anchor's, so from genesis 1 exactly the powers of two
    // are reachable one from the next.
    let oracle = |trusted: u64, candidate: u64| candidate <= 2 * trusted;
    let path = run_search(1, 100, oracle);
    assert_eq!(path, vec![1, 2, 4, 8, 16, 32, 64, 100]);
    // Every consecutive pair verifies independently.
    for w in path.windows(2) {
        assert!(oracle(w[0], w[1]));
    }
    // No element can be removed: the pair bridging a removed element
    // would no longer verify.
    for i in 1..path.len() - 1 {
        assert!(!oracle(path[i - 1], path[i + 1]));
    }
}

#[test]
fn nothing_verifies_falls_back_to_single_steps() {
    // When no probe ever verifies, the fallback appends every height, so
    // the search still reaches the target.
    let path = run_search(1, 5, |_, _| false);
    assert_eq!(path, vec![1, 2, 3, 4, 5]);
}

#[test]
fn probe_trusted_height_is_last_chained() {
    let mut finder = PathFinder::new(3, 9);
    match finder.next_action() {
        SearchAction::Probe { trusted, candidate } => {
            assert_eq!(trusted, 3);
            assert_eq!(candidate, 9);
        }
        other => panic!("expected a probe, got {:?}", other),
    }
    finder.record_probe(true);
    assert!(finder.is_done());
    assert_eq!(finder.path(), &vec![3, 9]);
}
