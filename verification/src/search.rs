use vstd::prelude::*;

verus! {

// The minimal-path search selects which headers to fetch and chain so that
// every consecutive pair passes header verification, minimizing the number
// of recursive steps.  The search alternates outside work — fetching a
// header and verifying it against the current trusted one — with
// decisions.  The decisions live here as an explicit state machine: the
// caller asks for the next action, performs the fetch and verification,
// and reports the outcome.  A fetch failure is reported as a failed probe;
// it narrows the search and never aborts it.

/// Where the search stands.
#[derive(Clone, Copy, Debug, PartialEq, Eq)]
pub enum SearchPhase {
    /// About to try the maximal jump: probe the target itself from the
    /// last chained header.
    Direct,
    /// Binary search over `[left, right]`, always with `left <= right`,
    /// for the furthest height reachable from the last chained header;
    /// `best` is the furthest height that has probed successfully so far.
    Narrowing {
        /// Lower bound of the interval still to search.
        left: u64,
        /// Upper bound of the interval still to search.
        right: u64,
        /// The furthest successfully probed height, if any.
        best: Option<u64>,
    },
    /// The binary search yielded nothing: the next height is appended
    /// unconditionally to guarantee forward progress.
    Fallback,
    /// The chain has reached the target.
    Done,
}

/// What the caller must do next.
#[derive(Clone, Copy, Debug, PartialEq, Eq)]
pub enum SearchAction {
    /// Fetch the header at `candidate` and verify it from the chained
    /// header at `trusted`; report the outcome with `record_probe`.  A
    /// fetch failure counts as a failed probe.
    Probe {
        /// Height of the trusted header the probe verifies from.
        trusted: u64,
        /// Height to fetch and verify.
        candidate: u64,
    },
    /// Fetch the header at `height` and append it without verification;
    /// report it with `record_extend`.
    Extend {
        /// The single-step fallback height.
        height: u64,
    },
    /// The search is finished; the chain runs from genesis to the target.
    Done,
}

/// The minimal-path search state: the chained heights so far, the target
/// height, and the phase.
#[derive(Clone, Debug, PartialEq, Eq)]
pub struct PathFinder {
    /// Heights chained so far, strictly increasing, starting at genesis.
    pub chain: Vec<u64>,
    /// The height the search must reach.
    pub target: u64,
    /// Where the search stands.
    pub phase: SearchPhase,
}

/// The mathematical value of a search state.
pub ghost struct PathFinderModel {
    /// Heights chained so far.
    pub chain: Seq<u64>,
    /// The target height.
    pub target: u64,
    /// Where the search stands.
    pub phase: SearchPhase,
}

impl View for PathFinder {
    type V = PathFinderModel;

    open spec fn view(&self) -> PathFinderModel {
        PathFinderModel { chain: self.chain@, target: self.target, phase: self.phase }
    }
}

/// The invariant every search state satisfies: a nonempty, strictly
/// increasing chain that never passes the target, finished exactly when
/// the chain reaches the target, and a live interval within
/// `(last chained height, target]` while narrowing.
pub open spec fn finder_wf(m: PathFinderModel) -> bool {
    &&& m.chain.len() >= 1
    &&& forall|k: int| 0 <= k && k + 1 < m.chain.len() ==> m.chain[k] < #[trigger] m.chain[k + 1]
    &&& m.chain.last() <= m.target
    &&& (m.phase is Done <==> m.chain.last() == m.target)
    &&& match m.phase {
        SearchPhase::Narrowing { left, right, best } => {
            &&& m.chain.last() < left
            &&& left <= right
            &&& right <= m.target
            &&& match best {
                Some(b) => m.chain.last() < b && b < left && b <= right,
                None => true,
            }
        },
        _ => true,
    }
}

/// A fresh search from a trusted genesis height toward a target height.
pub open spec fn spec_new_finder(genesis: u64, target: u64) -> PathFinderModel {
    PathFinderModel {
        chain: seq![genesis],
        target,
        phase: if genesis == target {
            SearchPhase::Done
        } else {
            SearchPhase::Direct
        },
    }
}

/// The action a state calls for.
pub open spec fn spec_next_action(m: PathFinderModel) -> SearchAction {
    match m.phase {
        SearchPhase::Done => SearchAction::Done,
        SearchPhase::Direct => SearchAction::Probe { trusted: m.chain.last(), candidate: m.target },
        SearchPhase::Narrowing { left, right, best } => SearchAction::Probe {
            trusted: m.chain.last(),
            candidate: (left + (right - left) / 2) as u64,
        },
        SearchPhase::Fallback => SearchAction::Extend {
            height: (m.chain.last() + 1) as u64,
        },
    }
}

/// Ending a binary search: append the furthest verified height if one was
/// found, else fall back to a single unverified step.
pub open spec fn spec_resolve(m: PathFinderModel, best: Option<u64>) -> PathFinderModel {
    match best {
        Some(b) => PathFinderModel {
            chain: m.chain.push(b),
            target: m.target,
            phase: if b == m.target {
                SearchPhase::Done
            } else {
                SearchPhase::Direct
            },
        },
        None => PathFinderModel { chain: m.chain, target: m.target, phase: SearchPhase::Fallback },
    }
}

/// How a probe outcome advances the search.
pub open spec fn spec_record_probe(m: PathFinderModel, success: bool) -> PathFinderModel {
    match m.phase {
        SearchPhase::Direct => if success {
            PathFinderModel {
                chain: m.chain.push(m.target),
                target: m.target,
                phase: SearchPhase::Done,
            }
        } else {
            PathFinderModel {
                chain: m.chain,
                target: m.target,
                phase: SearchPhase::Narrowing {
                    left: (m.chain.last() + 1) as u64,
                    right: m.target,
                    best: None,
                },
            }
        },
        SearchPhase::Narrowing { left, right, best } => {
            let mid = (left + (right - left) / 2) as u64;
            if success {
                if mid >= right {
                    spec_resolve(m, Some(mid))
                } else {
                    PathFinderModel {
                        chain: m.chain,
                        target: m.target,
                        phase: SearchPhase::Narrowing {
                            left: (mid + 1) as u64,
                            right,
                            best: Some(mid),
                        },
                    }
                }
            } else {
                if mid <= left {
                    spec_resolve(m, best)
                } else {
                    PathFinderModel {
                        chain: m.chain,
                        target: m.target,
                        phase: SearchPhase::Narrowing { left, right: (mid - 1) as u64, best },
                    }
                }
            }
        },
        _ => m,
    }
}

/// How the fallback step advances the search.
pub open spec fn spec_record_extend(m: PathFinderModel) -> PathFinderModel {
    let h = (m.chain.last() + 1) as u64;
    PathFinderModel {
        chain: m.chain.push(h),
        target: m.target,
        phase: if h == m.target {
            SearchPhase::Done
        } else {
            SearchPhase::Direct
        },
    }
}

impl PathFinder {
    /// Starts a search from a trusted genesis height toward a target
    /// height at or above it.
    pub fn new(genesis: u64, target: u64) -> (r: PathFinder)
        requires
            genesis <= target,
        ensures
            r@ == spec_new_finder(genesis, target),
            finder_wf(r@),
    {
        let mut chain: Vec<u64> = Vec::new();
        chain.push(genesis);
        let phase = if genesis == target {
            SearchPhase::Done
        } else {
            SearchPhase::Direct
        };
        let r = PathFinder { chain, target, phase };
        proof {
            assert(r@.chain =~= seq![genesis]);
        }
        r
    }

    /// The heights chained so far, in order.
    pub fn path(&self) -> (r: &Vec<u64>)
        ensures
            r@ == self@.chain,
    {
        &self.chain
    }

    /// Whether the chain has reached the target.
    pub fn is_done(&self) -> (r: bool)
        ensures
            r == (self@.phase is Done),
    {
        match self.phase {
            SearchPhase::Done => true,
            _ => false,
        }
    }

    /// The action the search calls for next.
    pub fn next_action(&self) -> (r: SearchAction)
        requires
            finder_wf(self@),
        ensures
            r == spec_next_action(self@),
    {
        let last = self.chain[self.chain.len() - 1];
        match self.phase {
            SearchPhase::Done => SearchAction::Done,
            SearchPhase::Direct => SearchAction::Probe { trusted: last, candidate: self.target },
            SearchPhase::Narrowing { left, right, best: _ } => SearchAction::Probe {
                trusted: last,
                candidate: left + (right - left) / 2,
            },
            SearchPhase::Fallback => SearchAction::Extend { height: last + 1 },
        }
    }

    /// Records the outcome of the probe that `next_action` asked for.
    pub fn record_probe(&mut self, success: bool)
        requires
            finder_wf(old(self)@),
            spec_next_action(old(self)@) is Probe,
        ensures
            final(self)@ == spec_record_probe(old(self)@, success),
            finder_wf(final(self)@),
    {
        let last = self.chain[self.chain.len() - 1];
        match self.phase {
            SearchPhase::Direct => {
                if success {
                    self.chain.push(self.target);
                    self.phase = SearchPhase::Done;
                    proof {
                        lemma_push_keeps_increasing(old(self)@.chain, old(self)@.target);
                    }
                } else {
                    self.phase = SearchPhase::Narrowing {
                        left: last + 1,
                        right: self.target,
                        best: None,
                    };
                }
            },
            SearchPhase::Narrowing { left, right, best } => {
                let mid = left + (right - left) / 2;
                if success {
                    if mid >= right {
                        self.chain.push(mid);
                        self.phase = if mid == self.target {
                            SearchPhase::Done
                        } else {
                            SearchPhase::Direct
                        };
                        proof {
                            lemma_push_keeps_increasing(old(self)@.chain, mid);
                        }
                    } else {
                        self.phase = SearchPhase::Narrowing {
                            left: mid + 1,
                            right,
                            best: Some(mid),
                        };
                    }
                } else {
                    if mid <= left {
                        match best {
                            Some(b) => {
                                self.chain.push(b);
                                self.phase = if b == self.target {
                                    SearchPhase::Done
                                } else {
                                    SearchPhase::Direct
                                };
                                proof {
                                    lemma_push_keeps_increasing(old(self)@.chain, b);
                                }
                            },
                            None => {
                                self.phase = SearchPhase::Fallback;
                            },
                        }
                    } else {
                        self.phase = SearchPhase::Narrowing { left, right: mid - 1, best };
                    }
                }
            },
            SearchPhase::Fallback => vstd::pervasive::unreached(),
            SearchPhase::Done => vstd::pervasive::unreached(),
        }
    }

    /// Records the unconditional single-step append that `next_action`
    /// asked for.
    pub fn record_extend(&mut self)
        requires
            finder_wf(old(self)@),
            spec_next_action(old(self)@) is Extend,
        ensures
            final(self)@ == spec_record_extend(old(self)@),
            finder_wf(final(self)@),
    {
        let last = self.chain[self.chain.len() - 1];
        let h = last + 1;
        self.chain.push(h);
        self.phase = if h == self.target {
            SearchPhase::Done
        } else {
            SearchPhase::Direct
        };
        proof {
            lemma_push_keeps_increasing(old(self)@.chain, h);
        }
    }
}

/// Appending a height above the last keeps a chain strictly increasing.
proof fn lemma_push_keeps_increasing(chain: Seq<u64>, h: u64)
    requires
        chain.len() >= 1,
        forall|k: int| 0 <= k && k + 1 < chain.len() ==> chain[k] < #[trigger] chain[k + 1],
        chain.last() < h,
    ensures
        forall|k: int|
            0 <= k && k + 1 < chain.push(h).len() ==> chain.push(h)[k] < #[trigger] chain.push(
                h,
            )[k + 1],
{
    let c2 = chain.push(h);
    assert forall|k: int| 0 <= k && k + 1 < c2.len() implies c2[k] < #[trigger] c2[k + 1] by {
        if k + 1 < chain.len() {
            assert(c2[k] == chain[k] && c2[k + 1] == chain[k + 1]);
        } else {
            assert(c2[k] == chain[k] && k == chain.len() - 1);
            assert(c2[k + 1] == h);
        }
    }
}

// ---------------------------------------------------------------------------
// Laws of the search.
// ---------------------------------------------------------------------------
/// How many phases can still pass before the chain must grow: the direct
/// try, then the binary search, then the fallback.
pub open spec fn phase_rank(p: SearchPhase) -> int {
    match p {
        SearchPhase::Direct => 2,
        SearchPhase::Narrowing { .. } => 1,
        SearchPhase::Fallback => 0,
        SearchPhase::Done => 0,
    }
}

/// How many heights the live binary-search interval still holds.
pub open spec fn narrowing_width(p: SearchPhase) -> int {
    match p {
        SearchPhase::Narrowing { left, right, .. } => right - left + 1,
        _ => 0,
    }
}

/// Monotone verifiability from the anchor `t`: a header at or below
/// `reach` verifies from `t`, one above `reach` does not.  `reach == t`
/// means no header verifies from `t`.  This is the shape header
/// verification has when trust decays with distance: once a height fails
/// to verify from an anchor, so does every greater height.
pub open spec fn reaches(o: spec_fn(u64, u64) -> bool, t: u64, reach: u64, target: u64) -> bool {
    &&& t <= reach <= target
    &&& forall|h: u64| t < h <= target ==> (#[trigger] o(t, h) <==> h <= reach)
}

/// The height the pending probe would try.
pub open spec fn probe_candidate(m: PathFinderModel) -> u64 {
    match spec_next_action(m) {
        SearchAction::Probe { candidate, .. } => candidate,
        _ => 0,
    }
}

/// What a search round maintains from the moment the last chained height
/// became `m.chain.last()` until the round appends or falls back, when
/// verifiability from that anchor reaches exactly `reach`: the furthest
/// verifiable height never lies above the live interval, the best probed
/// height is the one just below the interval, and the fallback is reached
/// only when nothing verifies at all.
pub open spec fn round_inv(m: PathFinderModel, o: spec_fn(u64, u64) -> bool, reach: u64) -> bool {
    let t = m.chain.last();
    &&& finder_wf(m)
    &&& reaches(o, t, reach, m.target)
    &&& match m.phase {
        SearchPhase::Narrowing { left, right, best } => {
            &&& reach <= right
            &&& match best {
                Some(b) => b == left - 1 && t < b && b <= reach,
                None => left == t + 1,
            }
        },
        SearchPhase::Fallback => reach == t,
        _ => true,
    }
}

/// Law: under monotone verifiability from the current anchor, every probe
/// outcome keeps the round invariant while the round runs, and when the
/// round ends by appending it appends exactly the furthest verifiable
/// height — which the anchor verifies — so each round makes the maximal
/// verified jump.  A round never appends when nothing verifies from its
/// anchor; it reaches the fallback instead.
pub proof fn lemma_round_probe(m: PathFinderModel, o: spec_fn(u64, u64) -> bool, reach: u64)
    requires
        round_inv(m, o, reach),
        spec_next_action(m) is Probe,
    ensures
        ({
            let m2 = spec_record_probe(m, o(m.chain.last(), probe_candidate(m)));
            &&& (m2.chain == m.chain ==> round_inv(m2, o, reach))
            &&& (m2.chain != m.chain ==> {
                &&& m.chain.last() < reach
                &&& m2.chain == m.chain.push(reach)
                &&& o(m.chain.last(), reach)
                &&& finder_wf(m2)
            })
        }),
{
    let t = m.chain.last();
    let succ = o(t, probe_candidate(m));
    let m2 = spec_record_probe(m, succ);
    match m.phase {
        SearchPhase::Direct => {
            if succ {
                assert(m.target <= reach);
                lemma_push_keeps_increasing(m.chain, reach);
            }
        },
        SearchPhase::Narrowing { left, right, best } => {
            let mid = (left + (right - left) / 2) as u64;
            assert(left <= mid <= right);
            if succ {
                assert(mid <= reach);
                if mid >= right {
                    assert(mid == right && reach == mid);
                    lemma_push_keeps_increasing(m.chain, reach);
                }
            } else {
                assert(reach < mid);
                if mid <= left {
                    match best {
                        Some(b) => {
                            assert(b == reach);
                            lemma_push_keeps_increasing(m.chain, reach);
                        },
                        None => {
                            assert(mid == left == t + 1);
                            assert(reach == t);
                        },
                    }
                }
            }
        },
        SearchPhase::Fallback => {},
        SearchPhase::Done => {},
    }
}

/// Law: heights beyond the furthest verifiable one cannot be bridged
/// from the anchor.  In particular, when a round has appended the
/// furthest height verifiable from its anchor, no later chained height
/// verifies from that anchor directly — so no chained height can be
/// dropped while keeping every adjacent pair verifiable.
pub proof fn lemma_appended_not_bridgeable(
    o: spec_fn(u64, u64) -> bool,
    t: u64,
    reach: u64,
    target: u64,
    c: u64,
)
    requires
        reaches(o, t, reach, target),
        reach < c <= target,
    ensures
        !o(t, c),
{
}

/// Law: every probe outcome makes progress — it grows the chain, or moves
/// the phase forward, or strictly narrows the live interval — and the
/// fallback append always grows the chain.  Since the chain is strictly
/// increasing and bounded by the target, the search terminates.
pub proof fn lemma_probe_progress(m: PathFinderModel, success: bool)
    requires
        finder_wf(m),
        spec_next_action(m) is Probe,
    ensures
        ({
            let m2 = spec_record_probe(m, success);
            ||| m2.chain.len() > m.chain.len()
            ||| (m2.chain == m.chain && phase_rank(m2.phase) < phase_rank(m.phase))
            ||| (m2.chain == m.chain && phase_rank(m2.phase) == phase_rank(m.phase)
                && narrowing_width(m2.phase) < narrowing_width(m.phase))
        }),
{
}

/// Law: the fallback append grows the chain by one height.
pub proof fn lemma_extend_progress(m: PathFinderModel)
    requires
        finder_wf(m),
        spec_next_action(m) is Extend,
    ensures
        spec_record_extend(m).chain.len() == m.chain.len() + 1,
{
}


/// Law: when the target verifies directly from genesis, the search asks
/// for exactly one probe — genesis against the target — and a successful
/// probe finishes with the two-element chain `[genesis, target]`.
pub proof fn lemma_direct_path(genesis: u64, target: u64)
    requires
        genesis < target,
    ensures
        spec_next_action(spec_new_finder(genesis, target)) == (SearchAction::Probe {
            trusted: genesis,
            candidate: target,
        }),
        spec_record_probe(spec_new_finder(genesis, target), true).chain == seq![genesis, target],
        spec_record_probe(spec_new_finder(genesis, target), true).phase is Done,
{
    assert(seq![genesis].push(target) =~= seq![genesis, target]);
}

} // verus!
