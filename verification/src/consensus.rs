//! The weighted-consensus state machine of a single task.
//!
//! A task accrues the weight of each guardian vote; it resolves (`is_done`)
//! once its accrued weight reaches the threshold, and stays resolved.
use vstd::prelude::*;

verus! {

/// Consensus progress of one task.
#[derive(Clone, Copy, Debug, PartialEq, Eq, Structural)]
pub struct ConsensusState {
    pub total_weight_accrued: u64,
    pub votes: u32,
    pub is_done: bool,
}

/// Why a vote was rejected.
#[derive(Clone, Copy, Debug, PartialEq, Eq, Structural)]
pub enum ConsensusError {
    /// The vote carries no weight.
    ZeroWeight,
    /// Adding the vote's weight would overflow the accrued total.
    WeightOverflow,
}

impl ConsensusState {
    pub open spec fn initial() -> ConsensusState {
        ConsensusState { total_weight_accrued: 0, votes: 0, is_done: false }
    }

    /// A state with no votes.
    pub fn new() -> (s: ConsensusState)
        ensures
            s == ConsensusState::initial(),
    {
        ConsensusState { total_weight_accrued: 0, votes: 0, is_done: false }
    }
}

/// The safety invariant: a resolved task has accrued at least the threshold.
pub open spec fn resolution_invariant(s: ConsensusState, threshold: u64) -> bool {
    s.is_done ==> s.total_weight_accrued >= threshold
}

/// The vote counter after one more vote: it saturates at `u32::MAX`.
pub open spec fn saturating_incr(votes: u32) -> u32 {
    if votes == u32::MAX { u32::MAX } else { (votes + 1) as u32 }
}

/// The outcome of applying a vote of `weight` to `s` under `threshold`.
pub open spec fn vote_outcome(s: ConsensusState, weight: u64, threshold: u64) -> Result<
    ConsensusState,
    ConsensusError,
> {
    if weight == 0 {
        Err(ConsensusError::ZeroWeight)
    } else if s.total_weight_accrued + weight > u64::MAX {
        Err(ConsensusError::WeightOverflow)
    } else {
        let total = (s.total_weight_accrued + weight) as u64;
        Ok(
            ConsensusState {
                total_weight_accrued: total,
                votes: saturating_incr(s.votes),
                is_done: s.is_done || total >= threshold,
            },
        )
    }
}

/// Applies one guardian vote of `weight` to `state`.
///
/// A zero weight is rejected with `ZeroWeight`, an accrued total that would
/// overflow with `WeightOverflow`; on either error the state is unchanged.
/// Otherwise the weight is added, the vote counter grows by one (saturating),
/// and the task resolves once its total reaches `threshold`.
pub fn apply_vote(state: &mut ConsensusState, weight: u64, threshold: u64) -> (result: Result<
    (),
    ConsensusError,
>)
    ensures
        match vote_outcome(*old(state), weight, threshold) {
            Ok(next) => result == Ok::<(), ConsensusError>(()) && *final(state) == next,
            Err(e) => result == Err::<(), ConsensusError>(e) && *final(state) == *old(state),
        },
{
    if weight == 0 {
        return Err(ConsensusError::ZeroWeight);
    }
    let total = match state.total_weight_accrued.checked_add(weight) {
        Some(v) => v,
        None => {
            return Err(ConsensusError::WeightOverflow);
        },
    };
    state.total_weight_accrued = total;
    state.votes = state.votes.saturating_add(1);
    if total >= threshold {
        state.is_done = true;
    }
    Ok(())
}

/// Checks the safety invariant on a state.
pub fn resolution_invariant_holds(state: &ConsensusState, threshold: u64) -> (holds: bool)
    ensures
        holds == resolution_invariant(*state, threshold),
{
    !state.is_done || state.total_weight_accrued >= threshold
}

/// The outcome of applying the votes `weights` in order; the first rejected
/// vote stops the sequence.
pub open spec fn votes_outcome(s: ConsensusState, weights: Seq<u64>, threshold: u64) -> Result<
    ConsensusState,
    ConsensusError,
>
    decreases weights.len(),
{
    if weights.len() == 0 {
        Ok(s)
    } else {
        match vote_outcome(s, weights[0], threshold) {
            Ok(next) => votes_outcome(next, weights.drop_first(), threshold),
            Err(e) => Err(e),
        }
    }
}

/// The sum of a sequence of weights.
pub open spec fn weight_sum(weights: Seq<u64>) -> int
    decreases weights.len(),
{
    if weights.len() == 0 {
        0
    } else {
        weights[0] + weight_sum(weights.drop_first())
    }
}

/// An accepted vote keeps the safety invariant: a state in which every
/// resolved task has reached the threshold stays so.
pub proof fn lemma_vote_preserves_resolution_invariant(
    s: ConsensusState,
    weight: u64,
    threshold: u64,
)
    requires
        resolution_invariant(s, threshold),
    ensures
        vote_outcome(s, weight, threshold) matches Ok(next) ==> resolution_invariant(
            next,
            threshold,
        ),
{
}

/// No vote resolves a task whose accrued weight stays below the threshold.
pub proof fn lemma_no_below_threshold_resolution(s: ConsensusState, weight: u64, threshold: u64)
    requires
        !s.is_done,
    ensures
        vote_outcome(s, weight, threshold) matches Ok(next) ==> (next.is_done
            <==> next.total_weight_accrued >= threshold),
{
}

/// Once resolved, a task stays resolved through every vote.
pub proof fn lemma_resolution_is_monotone(s: ConsensusState, weight: u64, threshold: u64)
    requires
        s.is_done,
    ensures
        vote_outcome(s, weight, threshold) matches Ok(next) ==> next.is_done,
{
}

/// A rejected vote leaves no trace, and an accepted one adds exactly its
/// weight: the accrued total never wraps around.
pub proof fn lemma_no_silent_overflow(s: ConsensusState, weight: u64, threshold: u64)
    ensures
        vote_outcome(s, weight, threshold) is Err <==> (weight == 0
            || s.total_weight_accrued + weight > u64::MAX),
        vote_outcome(s, weight, threshold) matches Ok(next) ==> next.total_weight_accrued
            == s.total_weight_accrued + weight,
        vote_outcome(s, weight, threshold) matches Ok(next) ==> next.votes >= s.votes,
{
}

/// With a zero threshold the first accepted vote resolves the task.
pub proof fn lemma_zero_threshold_resolves(s: ConsensusState, weight: u64)
    ensures
        vote_outcome(s, weight, 0) matches Ok(next) ==> next.is_done,
{
}

/// Votes of positive weight whose sum fits the accrued total are all
/// accepted, and the accrued total grows by exactly their sum.
pub proof fn lemma_votes_accumulate(s: ConsensusState, weights: Seq<u64>, threshold: u64)
    requires
        forall|i: int| 0 <= i < weights.len() ==> weights[i] > 0,
        s.total_weight_accrued + weight_sum(weights) <= u64::MAX,
    ensures
        votes_outcome(s, weights, threshold) matches Ok(last) && last.total_weight_accrued
            == s.total_weight_accrued + weight_sum(weights),
    decreases weights.len(),
{
    if weights.len() > 0 {
        let rest = weights.drop_first();
        assert forall|i: int| 0 <= i < rest.len() implies rest[i] > 0 by {
            assert(rest[i] == weights[i + 1]);
        }
        assert(weight_sum(rest) >= 0) by {
            lemma_weight_sum_nonneg(rest);
        }
        let next = vote_outcome(s, weights[0], threshold)->Ok_0;
        lemma_votes_accumulate(next, rest, threshold);
    }
}

proof fn lemma_weight_sum_nonneg(weights: Seq<u64>)
    ensures
        weight_sum(weights) >= 0,
    decreases weights.len(),
{
    if weights.len() > 0 {
        lemma_weight_sum_nonneg(weights.drop_first());
    }
}

} // verus!
