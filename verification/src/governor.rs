use vstd::prelude::*;
use crate::ledger::VoteLedger;
use crate::model::GovernorModel;
use crate::store::ProposalStore;
use crate::types::{
    AccountId, Balance, GovernorError, Proposal, ProposalId, ProposalVote, Timestamp, Transfer,
    VoteType,
};
use crate::weight::{quorum_threshold, sat_add, weight_of, SCALE};

verus! {

/// The governance orchestrator: the module's only externally visible state.
/// It exclusively owns the proposal store and the vote ledger, and its entry
/// points enforce every ordering, window and eligibility rule. The host
/// passes the current timestamp, the calling account and the asset
/// contract's query results in as plain arguments; each call's outcome and
/// state change are exactly the `*_outcome` and `*_step` functions of
/// `GovernorModel` on the view.
pub struct Governor {
    governance_token: AccountId,
    quorum: u8,
    store: ProposalStore,
    ledger: VoteLedger,
}

impl View for Governor {
    type V = GovernorModel;

    closed spec fn view(&self) -> GovernorModel {
        GovernorModel {
            governance_token: self.governance_token,
            quorum: self.quorum,
            proposals: self.store@,
            tallies: self.ledger@.tallies,
            voters: self.ledger@.voters,
        }
    }
}

impl Governor {
    /// The components agree with each other and with the model invariant.
    pub closed spec fn well_formed(self) -> bool {
        &&& self.store.wf()
        &&& self.ledger.wf()
        &&& self.ledger@.tallies.len() == self.store@.len()
    }

    /// Constructs the module with the reference asset contract's identity
    /// and the quorum percentage, both immutable afterwards; no proposals
    /// and no votes exist yet.
    pub fn new(governance_token: AccountId, quorum: u8) -> (g: Governor)
        ensures
            g.well_formed(),
            g@.wf(),
            g@ == GovernorModel::initial(governance_token, quorum),
    {
        let g = Governor {
            governance_token,
            quorum,
            store: ProposalStore::new(),
            ledger: VoteLedger::new(),
        };
        proof {
            assert(g@ =~= GovernorModel::initial(governance_token, quorum));
        }
        g
    }

    /// The identifier the next successful `propose` will assign: one more
    /// than the last assigned, never reused.
    pub fn next_proposal_id(&self) -> (id: ProposalId)
        requires
            self.well_formed(),
        ensures
            id == self@.proposals.len(),
    {
        self.store.count()
    }

    /// Creates a proposal to transfer `amount` to `to`, open for voting from
    /// `now` until `now + duration`. A zero amount or duration is rejected
    /// with nothing stored; on success the fresh identifier comes back and
    /// the identifier counter has advanced by exactly one.
    pub fn propose(
        &mut self,
        to: AccountId,
        amount: Balance,
        duration: u64,
        now: Timestamp,
    ) -> (r: Result<ProposalId, GovernorError>)
        requires
            old(self).well_formed(),
            amount != 0 && duration != 0 ==> old(self)@.proposals.len() < u32::MAX && now
                + duration <= u64::MAX,
        ensures
            final(self).well_formed(),
            final(self)@.wf(),
            r == old(self)@.propose_outcome(amount, duration),
            final(self)@ == old(self)@.propose_step(to, amount, duration, now),
    {
        let id = match self.store.create(to, amount, duration, now) {
            Ok(id) => id,
            Err(e) => {
                return Err(e);
            },
        };
        self.ledger.open_tally();
        proof {
            assert(self@ =~= old(self)@.propose_step(to, amount, duration, now));
        }
        Ok(id)
    }

    /// Looks a proposal up; an identifier that was never assigned yields
    /// `ProposalNotFound`.
    pub fn get_proposal(&self, proposal_id: ProposalId) -> (r: Result<Proposal, GovernorError>)
        ensures
            (proposal_id as int) < self@.proposals.len() ==> r == Ok::<Proposal, GovernorError>(
                self@.proposals[proposal_id as int],
            ),
            (proposal_id as int) >= self@.proposals.len() ==> r == Err::<Proposal, GovernorError>(
                GovernorError::ProposalNotFound,
            ),
    {
        self.store.get(proposal_id)
    }

    /// Reads a proposal's weighted tally; an identifier that was never
    /// assigned yields `ProposalNotFound`.
    pub fn get_tally(&self, proposal_id: ProposalId) -> (r: Result<ProposalVote, GovernorError>)
        requires
            self.well_formed(),
        ensures
            (proposal_id as int) < self@.proposals.len() ==> r == Ok::<
                ProposalVote,
                GovernorError,
            >(self@.tallies[proposal_id as int]),
            (proposal_id as int) >= self@.proposals.len() ==> r == Err::<
                ProposalVote,
                GovernorError,
            >(GovernorError::ProposalNotFound),
    {
        self.ledger.tally(proposal_id)
    }

    /// Casts the calling account's vote on a proposal. The proposal must
    /// exist, its window must still be open at `now`, and it must not have
    /// been executed; then the weighting oracle turns the asset contract's
    /// query results (`balance` and `total_supply`, `None` where the
    /// external call failed) into the caller's weight, and the ledger
    /// rejects a second vote by the same account. On success exactly one
    /// tally accumulator grows by that weight and the caller is recorded,
    /// in one atomic step; on any error nothing changes.
    pub fn vote(
        &mut self,
        proposal_id: ProposalId,
        choice: VoteType,
        caller: AccountId,
        now: Timestamp,
        balance: Option<Balance>,
        total_supply: Option<Balance>,
    ) -> (r: Result<(), GovernorError>)
        requires
            old(self).well_formed(),
        ensures
            final(self).well_formed(),
            final(self)@.wf(),
            r == old(self)@.vote_outcome(proposal_id, caller, now, balance, total_supply),
            final(self)@ == old(self)@.vote_step(
                proposal_id,
                choice,
                caller,
                now,
                balance,
                total_supply,
            ),
    {
        let proposal = match self.store.get(proposal_id) {
            Ok(p) => p,
            Err(e) => {
                return Err(e);
            },
        };
        if !proposal.is_open(now) {
            return Err(GovernorError::VotePeriodEnded);
        }
        if proposal.is_executed() {
            return Err(GovernorError::ProposalAlreadyExecuted);
        }
        let weight = match weight_of(balance, total_supply) {
            Ok(w) => w,
            Err(e) => {
                return Err(e);
            },
        };
        let r = self.ledger.record_vote(proposal_id, caller, choice, weight);
        proof {
            assert(self@ =~= old(self)@.vote_step(
                proposal_id,
                choice,
                caller,
                now,
                balance,
                total_supply,
            ));
        }
        r
    }

    /// Executes a passed proposal: it must exist, must not have been
    /// executed before, and its tally must meet the quorum threshold and
    /// then hold strictly more weight for than against. On success the
    /// proposal is marked executed — exactly once, ever — and the returned
    /// `Transfer` is what the host must perform atomically with this call;
    /// on any error nothing changes. Whether the executor voted is
    /// irrelevant.
    pub fn execute(&mut self, proposal_id: ProposalId) -> (r: Result<Transfer, GovernorError>)
        requires
            old(self).well_formed(),
        ensures
            final(self).well_formed(),
            final(self)@.wf(),
            r == old(self)@.execute_outcome(proposal_id),
            final(self)@ == old(self)@.execute_step(proposal_id),
    {
        let proposal = match self.store.get(proposal_id) {
            Ok(p) => p,
            Err(e) => {
                return Err(e);
            },
        };
        if proposal.is_executed() {
            return Err(GovernorError::ProposalAlreadyExecuted);
        }
        let tally = match self.ledger.tally(proposal_id) {
            Ok(t) => t,
            Err(e) => {
                return Err(e);
            },
        };
        if !tally.has_quorum(self.quorum) {
            return Err(GovernorError::QuorumNotReached);
        }
        if !tally.is_accepted() {
            return Err(GovernorError::ProposalNotAccepted);
        }
        self.store.mark_executed(proposal_id);
        proof {
            assert(self@ =~= old(self)@.execute_step(proposal_id));
        }
        Ok(Transfer { to: proposal.to, amount: proposal.amount })
    }
}

impl ProposalVote {
    /// Named guard for the quorum rule: whether the total cast weight
    /// reaches `quorum` percent of the total possible voting power.
    pub fn has_quorum(&self, quorum: u8) -> (r: bool)
        ensures
            r == crate::model::spec_has_quorum(*self, quorum),
    {
        let threshold = quorum_threshold(quorum);
        let total = sat_add(self.for_votes, self.against_votes);
        proof {
            assert((quorum as int) * (SCALE as int) <= 255 * (SCALE as int)) by (nonlinear_arith)
                requires
                    quorum <= 255,
            ;
            assert(crate::weight::spec_quorum_threshold(quorum) < u128::MAX);
        }
        total >= threshold
    }

    /// Named guard for the majority rule: strictly more weight for than
    /// against.
    pub fn is_accepted(&self) -> (r: bool)
        ensures
            r == crate::model::spec_is_accepted(*self),
    {
        self.for_votes > self.against_votes
    }
}

} // verus!
