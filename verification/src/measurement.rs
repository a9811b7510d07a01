//! Convergence measurement.
//!
//! After a fragment is submitted through an entry node, every node of a
//! target set is polled until its observable state reflects the fragment
//! or a timeout elapses.  The polling itself (REST calls, sleeps, clocks)
//! is the driver's business; this module owns every decision: when to poll
//! again, when a node counts as converged, and what a finished measurement
//! reports.  A measurement that times out fails naming the nodes that did
//! not converge — it never silently succeeds on partial data.

use vstd::prelude::*;

use crate::errors::ScenarioError;
use crate::fragment::{Digest, FragmentStatus};
use crate::sync::SyncNode;

verus! {

/// Timing thresholds of a polling loop: the longest the whole wait may
/// take and the longest pause between two polls.  Cadence adapts: near the
/// deadline the pause shrinks so the deadline is hit exactly.
#[derive(Debug, Clone, Copy, PartialEq, Eq, Structural)]
pub struct SyncWaitParams {
    pub max_duration_ms: u64,
    pub interval_ms: u64,
}

impl SyncWaitParams {
    /// Thresholds with a positive polling interval.
    pub fn new(max_duration_ms: u64, interval_ms: u64) -> (r: Option<SyncWaitParams>)
        ensures
            match r {
                Some(t) => interval_ms >= 1 && t.max_duration_ms == max_duration_ms
                    && t.interval_ms == interval_ms,
                None => interval_ms == 0,
            },
    {
        if interval_ms >= 1 {
            Some(SyncWaitParams { max_duration_ms, interval_ms })
        } else {
            None
        }
    }
}

/// What a polling loop must do next.
#[derive(Debug, Clone, Copy, PartialEq, Eq, Structural)]
pub enum PollDecision {
    /// The awaited condition holds; stop polling.
    Converged,
    /// Poll again after the given pause.
    Retry { wait_ms: u64 },
    /// The deadline elapsed before the condition held.
    TimedOut,
}

/// Decides one round of a cooperative polling loop from the elapsed time
/// and whether the awaited condition was observed.
pub fn poll_decision(thresholds: &SyncWaitParams, elapsed_ms: u64, done: bool) -> (r:
    PollDecision)
    requires
        thresholds.interval_ms >= 1,
    ensures
        done ==> r is Converged,
        !done && elapsed_ms >= thresholds.max_duration_ms ==> r is TimedOut,
        !done && elapsed_ms < thresholds.max_duration_ms ==> (r matches PollDecision::Retry {
            wait_ms,
        } && 1 <= wait_ms <= thresholds.interval_ms && elapsed_ms + wait_ms
            <= thresholds.max_duration_ms),
{
    if done {
        PollDecision::Converged
    } else if elapsed_ms >= thresholds.max_duration_ms {
        PollDecision::TimedOut
    } else {
        let remaining = thresholds.max_duration_ms - elapsed_ms;
        let wait_ms = if remaining < thresholds.interval_ms {
            remaining
        } else {
            thresholds.interval_ms
        };
        PollDecision::Retry { wait_ms }
    }
}

/// One per-node timing result: how long after submission the node's state
/// reflected the fragment.
#[derive(Debug, Clone, PartialEq, Eq)]
pub struct Sample {
    pub alias: String,
    pub duration_ms: u64,
}

/// A failed measurement: the nodes that never converged within the
/// configured window, in target order.
#[derive(Debug, Clone, PartialEq, Eq)]
pub struct PropagationFailure {
    pub non_converged: Vec<String>,
    pub max_duration_ms: u64,
}

/// The aliases of the targets whose sample slot is still empty, in order.
pub open spec fn non_converged_aliases(targets: Seq<String>, samples: Seq<Option<u64>>) -> Seq<
    Seq<char>,
>
    decreases targets.len(),
{
    if targets.len() == 0 {
        Seq::empty()
    } else {
        let rest = non_converged_aliases(targets.drop_first(), samples.drop_first());
        if samples[0] is None {
            seq![targets[0]@] + rest
        } else {
            rest
        }
    }
}

/// Tracks, per target node, the wall-clock duration from submission of
/// one fragment to observed convergence.
///
/// The driver reports observations with `observe`; an observation only
/// counts when it arrived inside the window, so every recorded sample is
/// at most the configured maximum duration.
#[derive(Debug, Clone, PartialEq, Eq)]
pub struct PropagationMeasurement {
    pub fragment_id: Digest,
    pub targets: Vec<String>,
    pub samples: Vec<Option<u64>>,
    pub thresholds: SyncWaitParams,
}

impl PropagationMeasurement {
    /// One result slot per target; a sample, once recorded, lies inside
    /// the window.
    pub open spec fn wf(&self) -> bool {
        &&& self.samples@.len() == self.targets@.len()
        &&& forall|i: int|
            0 <= i < self.samples@.len() ==> (#[trigger] self.samples@[i] matches Some(d)
                ==> d <= self.thresholds.max_duration_ms)
    }

    /// Every target has converged.
    pub open spec fn complete(&self) -> bool {
        forall|i: int| 0 <= i < self.samples@.len() ==> #[trigger] self.samples@[i] is Some
    }

    /// A measurement for one submitted fragment and a set of target
    /// nodes, with no observation recorded yet.
    pub fn new(fragment_id: Digest, targets: Vec<String>, thresholds: SyncWaitParams) -> (r:
        PropagationMeasurement)
        ensures
            r.wf(),
            r.fragment_id == fragment_id,
            r.targets == targets,
            r.thresholds == thresholds,
            forall|i: int| 0 <= i < r.samples@.len() ==> #[trigger] r.samples@[i] is None,
    {
        let n = targets.len();
        let mut samples: Vec<Option<u64>> = Vec::new();
        let mut i: usize = 0;
        while i < n
            invariant
                0 <= i <= n,
                samples@.len() == i,
                forall|k: int| 0 <= k < i ==> #[trigger] samples@[k] is None,
            decreases n - i,
        {
            samples.push(None);
            i = i + 1;
        }
        PropagationMeasurement { fragment_id, targets, samples, thresholds }
    }

    /// How many targets the measurement watches.
    pub fn target_count(&self) -> (r: usize)
        ensures
            r == self.targets@.len(),
    {
        self.targets.len()
    }

    /// Records one poll of the target at `index`: `converged` says whether
    /// the node's state reflected the fragment, `elapsed_ms` how long
    /// after submission the poll happened.
    ///
    /// The first convergence observed inside the window is recorded;
    /// anything else (not converged, late, or already recorded) changes
    /// nothing.
    pub fn observe(&mut self, index: usize, elapsed_ms: u64, converged: bool)
        requires
            old(self).wf(),
            index < old(self).targets@.len(),
        ensures
            final(self).wf(),
            final(self).fragment_id == old(self).fragment_id,
            final(self).targets == old(self).targets,
            final(self).thresholds == old(self).thresholds,
            if converged && elapsed_ms <= old(self).thresholds.max_duration_ms && old(
                self,
            ).samples@[index as int] is None {
                final(self).samples@ == old(self).samples@.update(
                    index as int,
                    Some(elapsed_ms),
                )
            } else {
                final(self).samples@ == old(self).samples@
            },
    {
        if converged && elapsed_ms <= self.thresholds.max_duration_ms {
            let already = match self.samples[index] {
                Some(_) => true,
                None => false,
            };
            if !already {
                self.samples.set(index, Some(elapsed_ms));
                return ;
            }
        }
        proof {
            assert(final(self).samples@ =~= old(self).samples@);
        }
    }

    /// Whether every target has converged.
    pub fn is_complete(&self) -> (r: bool)
        requires
            self.wf(),
        ensures
            r == self.complete(),
    {
        let n = self.samples.len();
        let mut i: usize = 0;
        while i < n
            invariant
                0 <= i <= n,
                n == self.samples@.len(),
                forall|k: int| 0 <= k < i ==> #[trigger] self.samples@[k] is Some,
            decreases n - i,
        {
            match self.samples[i] {
                Some(_) => {
                    i = i + 1;
                },
                None => {
                    return false;
                },
            }
        }
        true
    }

    /// Closes the measurement.
    ///
    /// When every target converged, yields one timing sample per target,
    /// in target order, each within the configured window.  Otherwise the
    /// measurement fails, naming exactly the targets that never
    /// converged.
    pub fn finish(&self) -> (r: Result<Vec<Sample>, PropagationFailure>)
        requires
            self.wf(),
        ensures
            r is Ok <==> self.complete(),
            r matches Ok(samples) ==> {
                &&& samples@.len() == self.targets@.len()
                &&& forall|i: int|
                    0 <= i < samples@.len() ==> (#[trigger] samples@[i].alias@
                        == self.targets@[i]@ && Some(samples@[i].duration_ms)
                        == self.samples@[i] && samples@[i].duration_ms
                        <= self.thresholds.max_duration_ms)
            },
            r matches Err(f) ==> {
                &&& f.max_duration_ms == self.thresholds.max_duration_ms
                &&& f.non_converged.deep_view() == non_converged_aliases(
                    self.targets@,
                    self.samples@,
                )
                &&& f.non_converged@.len() >= 1
            },
    {
        if self.is_complete() {
            let n = self.targets.len();
            let mut out: Vec<Sample> = Vec::new();
            let mut i: usize = 0;
            while i < n
                invariant
                    0 <= i <= n,
                    self.wf(),
                    self.complete(),
                    n == self.targets@.len(),
                    out@.len() == i,
                    forall|k: int|
                        0 <= k < i ==> (#[trigger] out@[k].alias@ == self.targets@[k]@ && Some(
                            out@[k].duration_ms,
                        ) == self.samples@[k] && out@[k].duration_ms
                            <= self.thresholds.max_duration_ms),
                decreases n - i,
            {
                let duration_ms = self.samples[i].unwrap();
                out.push(Sample { alias: self.targets[i].clone(), duration_ms });
                i = i + 1;
            }
            Ok(out)
        } else {
            let n = self.targets.len();
            let mut missing: Vec<String> = Vec::new();
            let mut i: usize = 0;
            proof {
                assert(self.targets@.skip(0) =~= self.targets@);
                assert(self.samples@.skip(0) =~= self.samples@);
            }
            while i < n
                invariant
                    0 <= i <= n,
                    self.wf(),
                    n == self.targets@.len(),
                    non_converged_aliases(self.targets@, self.samples@) == missing.deep_view()
                        + non_converged_aliases(
                        self.targets@.skip(i as int),
                        self.samples@.skip(i as int),
                    ),
                decreases n - i,
            {
                proof {
                    assert(self.targets@.skip(i as int)[0] == self.targets@[i as int]);
                    assert(self.samples@.skip(i as int)[0] == self.samples@[i as int]);
                    assert(self.targets@.skip(i as int).drop_first() =~= self.targets@.skip(
                        i + 1,
                    ));
                    assert(self.samples@.skip(i as int).drop_first() =~= self.samples@.skip(
                        i + 1,
                    ));
                }
                let ghost old_missing = missing.deep_view();
                match self.samples[i] {
                    Some(_) => {},
                    None => {
                        missing.push(self.targets[i].clone());
                        proof {
                            assert(missing.deep_view() =~= old_missing.push(
                                self.targets@[i as int]@,
                            ));
                            assert(old_missing.push(self.targets@[i as int]@) =~= old_missing
                                + seq![self.targets@[i as int]@]);
                        }
                    },
                }
                proof {
                    assert(missing.deep_view() + non_converged_aliases(
                        self.targets@.skip(i + 1),
                        self.samples@.skip(i + 1),
                    ) =~= non_converged_aliases(self.targets@, self.samples@));
                }
                i = i + 1;
            }
            proof {
                assert(self.targets@.skip(n as int) =~= Seq::<String>::empty());
                assert(self.samples@.skip(n as int) =~= Seq::<Option<u64>>::empty());
                assert(missing.deep_view() + Seq::<Seq<char>>::empty() =~= missing.deep_view());
                let s = non_converged_aliases(self.targets@, self.samples@);
                let ghost j = choose|j: int|
                    0 <= j < self.samples@.len() && !(#[trigger] self.samples@[j] is Some);
                lemma_non_converged_nonempty(self.targets@, self.samples@, j);
            }
            Err(
                PropagationFailure {
                    non_converged: missing,
                    max_duration_ms: self.thresholds.max_duration_ms,
                },
            )
        }
    }
}

/// A target with an empty sample slot puts at least one alias in the
/// non-converged list.
proof fn lemma_non_converged_nonempty(targets: Seq<String>, samples: Seq<Option<u64>>, j: int)
    requires
        targets.len() == samples.len(),
        0 <= j < samples.len(),
        samples[j] is None,
    ensures
        non_converged_aliases(targets, samples).len() >= 1,
    decreases j,
{
    if j > 0 && !(samples[0] is None) {
        lemma_non_converged_nonempty(targets.drop_first(), samples.drop_first(), j - 1);
    }
}

/// How many of the polled liveness snapshots say "running": the one-shot
/// census a liveness measurement reports.
pub open spec fn count_true(s: Seq<bool>) -> nat
    decreases s.len(),
{
    if s.len() == 0 {
        0
    } else {
        count_true(s.drop_last()) + (if s.last() {
            1nat
        } else {
            0nat
        })
    }
}

/// Counts the nodes whose polled snapshot reported the running state.
pub fn how_many_nodes_are_running(states: &Vec<bool>) -> (r: usize)
    ensures
        r == count_true(states@),
{
    let n = states.len();
    let mut count: usize = 0;
    let mut i: usize = 0;
    while i < n
        invariant
            0 <= i <= n,
            n == states@.len(),
            count == count_true(states@.subrange(0, i as int)),
            count <= i,
        decreases n - i,
    {
        proof {
            assert(states@.subrange(0, i + 1).drop_last() =~= states@.subrange(0, i as int));
        }
        if states[i] {
            count = count + 1;
        }
        i = i + 1;
    }
    proof {
        assert(states@.subrange(0, n as int) =~= states@);
    }
    count
}

/// Whether every polled tip equals every other: the convergence condition
/// of a whole-network sync measurement.
pub fn all_at_common_tip(tips: &Vec<Digest>) -> (r: bool)
    ensures
        r == (forall|i: int, j: int|
            0 <= i < tips@.len() && 0 <= j < tips@.len() ==> tips@[i] == tips@[j]),
{
    let n = tips.len();
    if n == 0 {
        return true;
    }
    let first = tips[0];
    let mut i: usize = 1;
    while i < n
        invariant
            1 <= i <= n,
            n == tips@.len(),
            first == tips@[0],
            forall|k: int| 0 <= k < i ==> tips@[k] == first,
        decreases n - i,
    {
        if !(tips[i].lo == first.lo && tips[i].hi == first.hi) {
            return false;
        }
        i = i + 1;
    }
    true
}

/// Checks that a submitted fragment reached the terminal "in a block"
/// state on the given node; a failure names the node, the observed
/// status and the node's log for diagnosis.
pub fn assert_is_in_block<A: SyncNode>(status: FragmentStatus, node: &A) -> (r: Result<
    (),
    ScenarioError,
>)
    ensures
        match r {
            Ok(()) => status.spec_is_in_a_block(),
            Err(e) => {
                &&& !status.spec_is_in_a_block()
                &&& e matches ScenarioError::AssertionFailed(m)
                &&& m@ == "fragment sent to node "@ + node.alias_view()
                    + " is not in a block (status: "@ + status.describe_view() + "); node log: "@
                    + node.log_view()
            },
        },
{
    if status.is_in_a_block() {
        Ok(())
    } else {
        let mut message: String = "fragment sent to node ".to_owned();
        let alias = node.alias();
        message.append(alias.as_str());
        message.append(" is not in a block (status: ");
        let rendered = status.describe();
        message.append(rendered.as_str());
        message.append("); node log: ");
        let log = node.log_content();
        message.append(log.as_str());
        Err(ScenarioError::AssertionFailed(message))
    }
}

} // verus!
