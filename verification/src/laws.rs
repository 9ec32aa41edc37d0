use vstd::prelude::*;
use crate::model::{cast_vote, new_proposal, GovernorModel};
use crate::types::{
    AccountId, Balance, GovernorError, ProposalId, Timestamp, VoteType,
};
use crate::weight::{spec_quorum_threshold, spec_weight, weight_outcome};

verus! {

/// `propose` validates its inputs: a zero amount is rejected as
/// `AmountShouldNotBeZero` and a zero duration as `DurationError`, each with
/// the state untouched; otherwise the stored proposal opens at the call's
/// timestamp, closes `duration` later, and is not executed.
pub proof fn lemma_propose_validates(
    m: GovernorModel,
    to: AccountId,
    amount: Balance,
    duration: u64,
    now: Timestamp,
)
    requires
        now + duration <= u64::MAX,
    ensures
        amount == 0 ==> m.propose_outcome(amount, duration) == Err::<ProposalId, GovernorError>(
            GovernorError::AmountShouldNotBeZero,
        ) && m.propose_step(to, amount, duration, now) == m,
        amount != 0 && duration == 0 ==> m.propose_outcome(amount, duration) == Err::<
            ProposalId,
            GovernorError,
        >(GovernorError::DurationError) && m.propose_step(to, amount, duration, now) == m,
        amount != 0 && duration != 0 ==> m.propose_step(
            to,
            amount,
            duration,
            now,
        ).proposals[m.proposals.len() as int] == new_proposal(to, amount, duration, now)
            && new_proposal(to, amount, duration, now).vote_start == now && new_proposal(
            to,
            amount,
            duration,
            now,
        ).vote_end == now + duration && !new_proposal(to, amount, duration, now).executed,
{
}

/// Proposal identifiers are assigned strictly in order and never reused: a
/// successful `propose` returns exactly the current count, advances it by
/// one, and leaves every existing proposal in place; a failed `propose`
/// leaves the state — the counter included — unchanged.
pub proof fn lemma_proposal_ids_never_reused(
    m: GovernorModel,
    to: AccountId,
    amount: Balance,
    duration: u64,
    now: Timestamp,
)
    requires
        m.wf(),
    ensures
        m.propose_outcome(amount, duration) matches Ok(id) ==> id == m.proposals.len()
            && m.propose_step(to, amount, duration, now).proposals.len() == m.proposals.len() + 1
            && (forall|j: int|
            0 <= j < m.proposals.len() ==> m.propose_step(to, amount, duration, now).proposals[j]
                == m.proposals[j]),
        m.propose_outcome(amount, duration) is Err ==> m.propose_step(to, amount, duration, now)
            == m,
{
    if amount != 0 && duration != 0 {
        let m1 = m.propose_step(to, amount, duration, now);
        assert(m1.proposals == m.proposals.push(new_proposal(to, amount, duration, now)));
        assert forall|j: int| 0 <= j < m.proposals.len() implies m1.proposals[j]
            == m.proposals[j] by {
            assert(m.proposals.push(new_proposal(to, amount, duration, now))[j]
                == m.proposals[j]);
        }
    }
}

/// The double-vote guard: after an account's vote on a proposal is accepted,
/// a second `vote` by the same account on the same proposal — at any later
/// point where the earlier guards still pass — returns `AlreadyVoted` and
/// changes nothing, so the tally reflects only the first call's weight.
pub proof fn lemma_double_vote_rejected(
    m: GovernorModel,
    proposal_id: ProposalId,
    choice1: VoteType,
    choice2: VoteType,
    caller: AccountId,
    now1: Timestamp,
    now2: Timestamp,
    balance1: Option<Balance>,
    supply1: Option<Balance>,
    balance2: Option<Balance>,
    supply2: Option<Balance>,
)
    requires
        m.vote_outcome(proposal_id, caller, now1, balance1, supply1) is Ok,
        now2 < m.proposals[proposal_id as int].vote_end,
        !m.proposals[proposal_id as int].executed,
        weight_outcome(balance2, supply2) is Ok,
    ensures
        ({
            let m1 = m.vote_step(proposal_id, choice1, caller, now1, balance1, supply1);
            m1.vote_outcome(proposal_id, caller, now2, balance2, supply2) == Err::<
                (),
                GovernorError,
            >(GovernorError::AlreadyVoted) && m1.vote_step(
                proposal_id,
                choice2,
                caller,
                now2,
                balance2,
                supply2,
            ) == m1
        }),
{
    let m1 = m.vote_step(proposal_id, choice1, caller, now1, balance1, supply1);
    assert(m1.proposals == m.proposals);
    assert(m1.voters.contains((proposal_id, caller)));
}

/// Votes cast at or after `vote_end` are rejected as `VotePeriodEnded`,
/// whatever the proposal's later fate, and the tally stays unchanged.
pub proof fn lemma_vote_after_end_rejected(
    m: GovernorModel,
    proposal_id: ProposalId,
    choice: VoteType,
    caller: AccountId,
    now: Timestamp,
    balance: Option<Balance>,
    total_supply: Option<Balance>,
)
    requires
        (proposal_id as int) < m.proposals.len(),
        now >= m.proposals[proposal_id as int].vote_end,
    ensures
        m.vote_outcome(proposal_id, caller, now, balance, total_supply) == Err::<
            (),
            GovernorError,
        >(GovernorError::VotePeriodEnded),
        m.vote_step(proposal_id, choice, caller, now, balance, total_supply) == m,
{
}

/// `execute` below quorum fails: while the total cast weight falls short of
/// the threshold, the outcome is `QuorumNotReached` and nothing changes.
pub proof fn lemma_execute_requires_quorum(m: GovernorModel, proposal_id: ProposalId)
    requires
        m.wf(),
        (proposal_id as int) < m.proposals.len(),
        !m.proposals[proposal_id as int].executed,
        m.tallies[proposal_id as int].for_votes + m.tallies[proposal_id as int].against_votes
            < spec_quorum_threshold(m.quorum),
    ensures
        m.execute_outcome(proposal_id) == Err::<crate::types::Transfer, GovernorError>(
            GovernorError::QuorumNotReached,
        ),
        m.execute_step(proposal_id) == m,
{
}

/// `execute` after quorum but without a strict majority in favour fails:
/// with `for_votes <= against_votes` the outcome is `ProposalNotAccepted`
/// and nothing changes.
pub proof fn lemma_execute_requires_majority(m: GovernorModel, proposal_id: ProposalId)
    requires
        m.wf(),
        (proposal_id as int) < m.proposals.len(),
        !m.proposals[proposal_id as int].executed,
        m.tallies[proposal_id as int].for_votes + m.tallies[proposal_id as int].against_votes
            >= spec_quorum_threshold(m.quorum),
        m.tallies[proposal_id as int].for_votes <= m.tallies[proposal_id as int].against_votes,
    ensures
        m.execute_outcome(proposal_id) == Err::<crate::types::Transfer, GovernorError>(
            GovernorError::ProposalNotAccepted,
        ),
        m.execute_step(proposal_id) == m,
{
}

/// Execution happens exactly once: after a successful `execute`, a second
/// `execute` of the same proposal returns `ProposalAlreadyExecuted` and
/// changes nothing.
pub proof fn lemma_execute_exactly_once(m: GovernorModel, proposal_id: ProposalId)
    requires
        m.execute_outcome(proposal_id) is Ok,
    ensures
        ({
            let m1 = m.execute_step(proposal_id);
            m1.execute_outcome(proposal_id) == Err::<crate::types::Transfer, GovernorError>(
                GovernorError::ProposalAlreadyExecuted,
            ) && m1.execute_step(proposal_id) == m1
        }),
{
}

/// The lifecycle never runs backwards: once a proposal's executed flag is
/// set, every transition — another proposal's creation, any vote, any
/// execution — leaves it set.
pub proof fn lemma_executed_never_reverts(
    m: GovernorModel,
    i: int,
    to: AccountId,
    amount: Balance,
    duration: u64,
    now: Timestamp,
    proposal_id: ProposalId,
    choice: VoteType,
    caller: AccountId,
    vote_now: Timestamp,
    balance: Option<Balance>,
    total_supply: Option<Balance>,
    execute_id: ProposalId,
)
    requires
        0 <= i < m.proposals.len(),
        m.proposals[i].executed,
    ensures
        m.propose_step(to, amount, duration, now).proposals[i].executed,
        m.vote_step(proposal_id, choice, caller, vote_now, balance, total_supply).proposals[i]
            .executed,
        m.execute_step(execute_id).proposals[i].executed,
{
}

/// Tally accumulators never decrease: whatever a `vote` call does, every
/// proposal's `for_votes` and `against_votes` are at least what they were.
pub proof fn lemma_tallies_monotone(
    m: GovernorModel,
    i: int,
    proposal_id: ProposalId,
    choice: VoteType,
    caller: AccountId,
    now: Timestamp,
    balance: Option<Balance>,
    total_supply: Option<Balance>,
)
    requires
        m.wf(),
        0 <= i < m.tallies.len(),
    ensures
        ({
            let m1 = m.vote_step(proposal_id, choice, caller, now, balance, total_supply);
            m1.tallies.len() == m.tallies.len() && m1.tallies[i].for_votes >= m.tallies[i].for_votes
                && m1.tallies[i].against_votes >= m.tallies[i].against_votes
        }),
{
    let m1 = m.vote_step(proposal_id, choice, caller, now, balance, total_supply);
    match (balance, total_supply) {
        (Some(b), Some(ts)) => {
            if m.vote_outcome(proposal_id, caller, now, balance, total_supply) is Ok {
                let updated = cast_vote(
                    m.tallies[proposal_id as int],
                    choice,
                    spec_weight(b, ts),
                );
                assert(m1.tallies == m.tallies.update(proposal_id as int, updated));
                if i == proposal_id as int {
                    match choice {
                        VoteType::For => {},
                        VoteType::Against => {},
                    }
                } else {
                    assert(m1.tallies[i] == m.tallies[i]);
                }
            } else {
                assert(m1 == m);
            }
        },
        _ => {
            assert(m1 == m);
        },
    }
}

} // verus!
