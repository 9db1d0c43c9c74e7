//! The stake-weighted epoch-close handshake and the convergence wait.
//!
//! The coordinator closes the epoch on nodes in a fixed iteration order,
//! accumulating each node's stake, and stops issuing close calls as soon as
//! the running total reaches the committee's quorum threshold: the closed
//! nodes always form the minimal prefix of the order that reaches the
//! threshold. Afterwards every node is polled until it observes the next
//! epoch, under one overall timeout that is fatal for the run.
use vstd::prelude::*;

verus! {

/// Overall bound, in poll time units, on the cluster-wide convergence wait.
pub const RECONFIG_TIMEOUT: u64 = 40;

/// Time units between two polls of one node.
pub const POLL_INTERVAL: u64 = 1;

/// A warning is logged each time a node's consecutive unsatisfied poll count
/// reaches a multiple of this.
pub const WARN_EVERY: u64 = 5;

/// A committee read from one node at the start of a reconfiguration: the
/// epoch it serves, its members' stake weights in the coordinator's fixed
/// iteration order, and the stake total that certifies an epoch close.
pub struct Committee {
    /// The epoch this committee serves.
    pub epoch: u64,
    /// Stake weight of each node, in the order the coordinator visits them.
    pub weights: Vec<u64>,
    /// Minimum cumulative stake that closes the epoch.
    pub quorum_threshold: u64,
}

/// The sum of the first `k` stake weights.
pub open spec fn stake_prefix_sum(weights: Seq<u64>, k: int) -> int
    decreases k,
{
    if k <= 0 {
        0
    } else {
        stake_prefix_sum(weights, k - 1) + weights[k - 1]
    }
}

/// How many nodes, visited in order, the coordinator closes the epoch on:
/// the count of the shortest non-empty prefix whose cumulative stake reaches
/// the threshold, or every node when no prefix reaches it.
pub open spec fn quorum_prefix_spec(weights: Seq<u64>, threshold: u64, k: int) -> int
    decreases weights.len() - k,
{
    if k < 0 {
        0
    } else if k >= weights.len() {
        weights.len() as int
    } else if stake_prefix_sum(weights, k + 1) >= threshold {
        k + 1
    } else {
        quorum_prefix_spec(weights, threshold, k + 1)
    }
}

/// Prefix sums never shrink as the prefix grows.
proof fn lemma_stake_prefix_sum_monotonic(weights: Seq<u64>, j: int, k: int)
    requires
        0 <= j <= k <= weights.len(),
    ensures
        stake_prefix_sum(weights, j) <= stake_prefix_sum(weights, k),
    decreases k - j,
{
    if j < k {
        lemma_stake_prefix_sum_monotonic(weights, j, k - 1);
    }
}

impl Committee {
    /// A committee is well formed when its total stake fits the stake type.
    pub open spec fn wf(&self) -> bool {
        stake_prefix_sum(self.weights@, self.weights@.len() as int) <= u64::MAX
    }

    /// How many nodes, in iteration order, the coordinator issues a
    /// close-epoch call to: it visits nodes in order, accumulating their
    /// stake, and stops as soon as the running total reaches the quorum
    /// threshold, so the closed nodes are the minimal non-empty prefix
    /// reaching the threshold — or all nodes, when the total stake stays
    /// below it.
    pub fn quorum_prefix_len(&self) -> (k: usize)
        requires
            self.wf(),
        ensures
            k == quorum_prefix_spec(self.weights@, self.quorum_threshold, 0),
            k <= self.weights@.len(),
            self.weights@.len() > 0 ==> 1 <= k,
            k < self.weights@.len() ==> stake_prefix_sum(self.weights@, k as int)
                >= self.quorum_threshold,
            forall|j: int|
                1 <= j < k ==> stake_prefix_sum(self.weights@, j) < self.quorum_threshold,
    {
        let n = self.weights.len();
        let mut cur_stake: u64 = 0;
        let mut i: usize = 0;
        while i < n
            invariant
                self.wf(),
                n == self.weights@.len(),
                i <= n,
                cur_stake == stake_prefix_sum(self.weights@, i as int),
                quorum_prefix_spec(self.weights@, self.quorum_threshold, 0)
                    == quorum_prefix_spec(self.weights@, self.quorum_threshold, i as int),
                forall|j: int|
                    1 <= j <= i ==> stake_prefix_sum(self.weights@, j) < self.quorum_threshold,
            decreases n - i,
        {
            proof {
                lemma_stake_prefix_sum_monotonic(self.weights@, i + 1, n as int);
            }
            cur_stake = cur_stake + self.weights[i];
            if cur_stake >= self.quorum_threshold {
                return i + 1;
            }
            i += 1;
        }
        n
    }
}

/// Whether the coordinator issues a close-epoch call to the node at position
/// `i` of the iteration order.
pub open spec fn node_closed(weights: Seq<u64>, threshold: u64, i: int) -> bool {
    0 <= i < quorum_prefix_spec(weights, threshold, 0)
}

/// The law of the close-epoch phase: the set of nodes the coordinator closes
/// is downward closed in the iteration order (a node is only closed when all
/// nodes preceding it were closed too), it is never grown past the first
/// point where the cumulative stake reaches the threshold, and it reaches the
/// threshold whenever any prefix does.
pub proof fn lemma_closed_nodes_minimal_prefix(weights: Seq<u64>, threshold: u64)
    ensures
        ({
            let k = quorum_prefix_spec(weights, threshold, 0);
            &&& 0 <= k <= weights.len()
            &&& forall|i: int, j: int|
                #![trigger node_closed(weights, threshold, i), node_closed(weights, threshold, j)]
                0 <= i <= j && node_closed(weights, threshold, j) ==> node_closed(
                    weights,
                    threshold,
                    i,
                )
            &&& forall|j: int| 1 <= j < k ==> stake_prefix_sum(weights, j) < threshold
            &&& (k < weights.len() ==> stake_prefix_sum(weights, k) >= threshold)
        }),
{
    lemma_quorum_prefix_spec_props(weights, threshold, 0);
}

/// Properties of `quorum_prefix_spec` from any starting index `s` at which
/// the threshold is not yet reached.
proof fn lemma_quorum_prefix_spec_props(weights: Seq<u64>, threshold: u64, s: int)
    requires
        0 <= s <= weights.len(),
        forall|j: int| 1 <= j <= s ==> stake_prefix_sum(weights, j) < threshold,
    ensures
        ({
            let k = quorum_prefix_spec(weights, threshold, s);
            &&& s <= k <= weights.len()
            &&& forall|j: int| 1 <= j < k ==> stake_prefix_sum(weights, j) < threshold
            &&& (k < weights.len() ==> stake_prefix_sum(weights, k) >= threshold)
        }),
    decreases weights.len() - s,
{
    if s < weights.len() && stake_prefix_sum(weights, s + 1) < threshold {
        lemma_quorum_prefix_spec_props(weights, threshold, s + 1);
    }
}

/// What one node's poll loop does next.
pub enum NodePoll {
    /// The node has observed the target epoch; its poll task ends.
    Converged,
    /// The node is still behind: wait one poll interval and retry; `warn`
    /// asks for a non-fatal warning log about the slow node.
    Wait { warn: bool },
}

/// One step of a node's convergence poll: the node converged exactly when it
/// observes the target epoch; otherwise the poll count grows by one and every
/// `WARN_EVERY`-th consecutive unsatisfied poll asks for a warning.
pub fn node_poll_step(observed_epoch: u64, target_epoch: u64, polls_so_far: u64) -> (r: (
    NodePoll,
    u64,
))
    requires
        polls_so_far < u64::MAX,
    ensures
        observed_epoch == target_epoch <==> r.0 is Converged,
        observed_epoch != target_epoch ==> {
            &&& r.1 == polls_so_far + 1
            &&& r.0 == (NodePoll::Wait { warn: ((polls_so_far + 1) as u64) % WARN_EVERY == 0 })
        },
        observed_epoch == target_epoch ==> r.1 == polls_so_far,
{
    if observed_epoch == target_epoch {
        (NodePoll::Converged, polls_so_far)
    } else {
        let polls = polls_so_far + 1;
        (NodePoll::Wait { warn: polls % WARN_EVERY == 0 }, polls)
    }
}

/// Whether every node observes the target epoch.
pub open spec fn all_at_epoch(observed: Seq<u64>, target: u64) -> bool {
    forall|i: int| 0 <= i < observed.len() ==> observed[i] == target
}

/// The coordinator's view of the convergence wait as a whole.
pub enum ConvergenceVerdict {
    /// Every node has reached the target epoch: reconfiguration is complete.
    Complete,
    /// The overall timeout expired with at least one node behind: fatal for
    /// the run.
    TimedOut,
    /// Some node is still behind and time remains: keep polling.
    InProgress,
}

/// Judge the convergence wait: complete exactly when every node observes the
/// target epoch; otherwise fatal exactly when the elapsed time has reached
/// the overall timeout; otherwise the wait goes on.
pub fn convergence_verdict(observed: &Vec<u64>, target_epoch: u64, elapsed: u64) -> (v:
    ConvergenceVerdict)
    ensures
        v is Complete <==> all_at_epoch(observed@, target_epoch),
        v is TimedOut <==> (!all_at_epoch(observed@, target_epoch) && elapsed >= RECONFIG_TIMEOUT),
        v is InProgress <==> (!all_at_epoch(observed@, target_epoch) && elapsed
            < RECONFIG_TIMEOUT),
{
    let mut i: usize = 0;
    let mut all: bool = true;
    while i < observed.len()
        invariant
            i <= observed@.len(),
            all <==> forall|j: int| 0 <= j < i ==> observed@[j] == target_epoch,
        decreases observed@.len() - i,
    {
        if observed[i] != target_epoch {
            all = false;
        }
        i += 1;
    }
    if all {
        ConvergenceVerdict::Complete
    } else if elapsed >= RECONFIG_TIMEOUT {
        ConvergenceVerdict::TimedOut
    } else {
        ConvergenceVerdict::InProgress
    }
}

} // verus!
