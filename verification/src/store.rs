use vstd::prelude::*;
use vstd::pervasive::VecAdditionalExecFns;
use crate::model::{new_proposal, wf_proposal};
use crate::types::{AccountId, Balance, GovernorError, Proposal, ProposalId, Timestamp};

verus! {

/// Durable store of proposal metadata. The proposal with identifier `i` sits
/// at index `i`, so the next identifier to be assigned is the current count
/// and identifiers are never reused.
pub struct ProposalStore {
    proposals: Vec<Proposal>,
}

impl View for ProposalStore {
    type V = Seq<Proposal>;

    closed spec fn view(&self) -> Seq<Proposal> {
        self.proposals@
    }
}

impl ProposalStore {
    /// Every stored proposal is well formed and the identifier space is not
    /// exhausted.
    pub open spec fn wf(self) -> bool {
        &&& self@.len() <= u32::MAX
        &&& forall|i: int| 0 <= i < self@.len() ==> wf_proposal(#[trigger] self@[i])
    }

    /// An empty store.
    pub fn new() -> (s: ProposalStore)
        ensures
            s.wf(),
            s@ == Seq::<Proposal>::empty(),
    {
        let s = ProposalStore { proposals: Vec::new() };
        proof {
            assert(s@ =~= Seq::<Proposal>::empty());
        }
        s
    }

    /// How many proposals exist; equally, the identifier the next one gets.
    pub fn count(&self) -> (n: ProposalId)
        requires
            self.wf(),
        ensures
            n == self@.len(),
    {
        self.proposals.len() as ProposalId
    }

    /// Validates and stores a new proposal: a zero amount or a zero duration
    /// is rejected with nothing stored; otherwise the proposal is appended
    /// with its window `[now, now + duration)` and its fresh identifier is
    /// returned. The counter advance and the insert are one atomic unit, and
    /// happen only on success.
    pub fn create(
        &mut self,
        to: AccountId,
        amount: Balance,
        duration: u64,
        now: Timestamp,
    ) -> (r: Result<ProposalId, GovernorError>)
        requires
            old(self).wf(),
            amount != 0 && duration != 0 ==> old(self)@.len() < u32::MAX && now + duration
                <= u64::MAX,
        ensures
            final(self).wf(),
            amount == 0 ==> r == Err::<ProposalId, GovernorError>(
                GovernorError::AmountShouldNotBeZero,
            ) && final(self)@ == old(self)@,
            amount != 0 && duration == 0 ==> r == Err::<ProposalId, GovernorError>(
                GovernorError::DurationError,
            ) && final(self)@ == old(self)@,
            amount != 0 && duration != 0 ==> r == Ok::<ProposalId, GovernorError>(
                old(self)@.len() as ProposalId,
            ) && final(self)@ == old(self)@.push(new_proposal(to, amount, duration, now)),
    {
        if amount == 0 {
            return Err(GovernorError::AmountShouldNotBeZero);
        }
        if duration == 0 {
            return Err(GovernorError::DurationError);
        }
        let id = self.proposals.len() as ProposalId;
        let proposal = Proposal {
            to,
            vote_start: now,
            vote_end: now + duration,
            executed: false,
            amount,
        };
        self.proposals.push(proposal);
        Ok(id)
    }

    /// Looks a proposal up by identifier; an identifier that was never
    /// assigned yields `ProposalNotFound`.
    pub fn get(&self, proposal_id: ProposalId) -> (r: Result<Proposal, GovernorError>)
        ensures
            (proposal_id as int) < self@.len() ==> r == Ok::<Proposal, GovernorError>(
                self@[proposal_id as int],
            ),
            (proposal_id as int) >= self@.len() ==> r == Err::<Proposal, GovernorError>(
                GovernorError::ProposalNotFound,
            ),
    {
        if (proposal_id as usize) < self.proposals.len() {
            Ok(self.proposals[proposal_id as usize])
        } else {
            Err(GovernorError::ProposalNotFound)
        }
    }

    /// Sets the executed flag of a proposal the caller has already validated:
    /// it exists and has not been executed before. Nothing else changes.
    pub fn mark_executed(&mut self, proposal_id: ProposalId)
        requires
            old(self).wf(),
            (proposal_id as int) < old(self)@.len(),
            !old(self)@[proposal_id as int].executed,
        ensures
            final(self).wf(),
            final(self)@ == old(self)@.update(
                proposal_id as int,
                (Proposal { executed: true, ..old(self)@[proposal_id as int] }),
            ),
    {
        let mut p = self.proposals[proposal_id as usize];
        p.executed = true;
        self.proposals.set(proposal_id as usize, p);
    }
}

} // verus!
