use vstd::prelude::*;
use crate::types::{
    AccountId, Balance, GovernorError, Proposal, ProposalId, ProposalVote, Timestamp, Transfer,
    VoteType, Weight,
};
use crate::weight::{spec_quorum_threshold, spec_sat_add, spec_weight, weight_outcome};

verus! {

/// Mathematical model of the whole governance state. Every entry point's
/// contract is stated against this model: its outcome is given by one of the
/// `*_outcome` functions below, and the state it leaves behind by the matching
/// `*_step` function, which on every error path is the identity — no call
/// partially applies its effect.
#[verifier::ext_equal]
pub struct GovernorModel {
    /// Identity of the reference asset contract, fixed at construction.
    pub governance_token: AccountId,
    /// Quorum threshold as a percentage of total voting power, fixed at
    /// construction.
    pub quorum: u8,
    /// All proposals ever created; the proposal with identifier `i` is entry
    /// `i`, so the next identifier to be assigned is the length.
    pub proposals: Seq<Proposal>,
    /// One weighted tally per proposal, opened at creation.
    pub tallies: Seq<ProposalVote>,
    /// The pairs `(proposal, account)` that have voted; sole authority for
    /// the double-vote guard.
    pub voters: Set<(ProposalId, AccountId)>,
}

/// Every stored proposal carries a positive amount and a non-empty window.
pub open spec fn wf_proposal(p: Proposal) -> bool {
    &&& p.amount > 0
    &&& p.vote_start < p.vote_end
}

/// A tally with nothing cast yet.
pub open spec fn zero_tally() -> ProposalVote {
    ProposalVote { for_votes: 0, against_votes: 0 }
}

/// The proposal that a successful `propose(to, amount, duration)` call at
/// time `now` stores.
pub open spec fn new_proposal(
    to: AccountId,
    amount: Balance,
    duration: u64,
    now: Timestamp,
) -> Proposal
    recommends
        amount > 0,
        duration > 0,
        now + duration <= u64::MAX,
{
    Proposal {
        to,
        vote_start: now,
        vote_end: (now + duration) as Timestamp,
        executed: false,
        amount,
    }
}

/// The updated tally after a vote of direction `choice` and power `weight`.
pub open spec fn cast_vote(t: ProposalVote, choice: VoteType, weight: Weight) -> ProposalVote {
    match choice {
        VoteType::For => ProposalVote {
            for_votes: spec_sat_add(t.for_votes, weight),
            against_votes: t.against_votes,
        },
        VoteType::Against => ProposalVote {
            for_votes: t.for_votes,
            against_votes: spec_sat_add(t.against_votes, weight),
        },
    }
}

/// Whether a tally meets the quorum threshold for the configured percentage.
pub open spec fn spec_has_quorum(t: ProposalVote, quorum: u8) -> bool {
    t.for_votes + t.against_votes >= spec_quorum_threshold(quorum)
}

/// Simple majority over the cast weighted votes: strictly more power in
/// favour than against.
pub open spec fn spec_is_accepted(t: ProposalVote) -> bool {
    t.for_votes > t.against_votes
}

impl GovernorModel {
    /// Well-formedness: tallies match proposals one to one, the identifier
    /// space is not exhausted, every proposal is well formed, and every
    /// recorded voter pair names an existing proposal.
    pub open spec fn wf(self) -> bool {
        &&& self.tallies.len() == self.proposals.len()
        &&& self.proposals.len() <= u32::MAX
        &&& forall|i: int|
            0 <= i < self.proposals.len() ==> wf_proposal(#[trigger] self.proposals[i])
        &&& forall|v: (ProposalId, AccountId)|
            #[trigger] self.voters.contains(v) ==> (v.0 as int) < self.proposals.len()
    }

    /// The state right after construction: no proposals, no votes.
    pub open spec fn initial(governance_token: AccountId, quorum: u8) -> GovernorModel {
        GovernorModel {
            governance_token,
            quorum,
            proposals: Seq::empty(),
            tallies: Seq::empty(),
            voters: Set::empty(),
        }
    }

    /// What `propose` returns: the validation errors in order, then the
    /// identifier the new proposal gets.
    pub open spec fn propose_outcome(self, amount: Balance, duration: u64) -> Result<
        ProposalId,
        GovernorError,
    > {
        if amount == 0 {
            Err(GovernorError::AmountShouldNotBeZero)
        } else if duration == 0 {
            Err(GovernorError::DurationError)
        } else {
            Ok(self.proposals.len() as ProposalId)
        }
    }

    /// The state `propose` leaves behind. On success one proposal and its
    /// zero tally are appended — the identifier counter advances exactly
    /// then; on a validation error nothing changes.
    pub open spec fn propose_step(
        self,
        to: AccountId,
        amount: Balance,
        duration: u64,
        now: Timestamp,
    ) -> GovernorModel {
        if amount != 0 && duration != 0 {
            GovernorModel {
                proposals: self.proposals.push(new_proposal(to, amount, duration, now)),
                tallies: self.tallies.push(zero_tally()),
                ..self
            }
        } else {
            self
        }
    }

    /// What `vote` returns, with the guards in their fixed order: the
    /// proposal must exist, its window must still be open, it must not have
    /// been executed, the weighting oracle must succeed, and the caller must
    /// not have voted before.
    pub open spec fn vote_outcome(
        self,
        proposal_id: ProposalId,
        caller: AccountId,
        now: Timestamp,
        balance: Option<Balance>,
        total_supply: Option<Balance>,
    ) -> Result<(), GovernorError> {
        if self.proposals.len() <= proposal_id {
            Err(GovernorError::ProposalNotFound)
        } else {
            let p = self.proposals[proposal_id as int];
            if !p.spec_is_open(now) {
                Err(GovernorError::VotePeriodEnded)
            } else if p.executed {
                Err(GovernorError::ProposalAlreadyExecuted)
            } else {
                match weight_outcome(balance, total_supply) {
                    Err(e) => Err(e),
                    Ok(_) => if self.voters.contains((proposal_id, caller)) {
                        Err(GovernorError::AlreadyVoted)
                    } else {
                        Ok(())
                    },
                }
            }
        }
    }

    /// The state `vote` leaves behind. On success the caller is recorded and
    /// exactly one tally accumulator grows by the caller's weight, in the
    /// same atomic step; on any error nothing changes.
    pub open spec fn vote_step(
        self,
        proposal_id: ProposalId,
        choice: VoteType,
        caller: AccountId,
        now: Timestamp,
        balance: Option<Balance>,
        total_supply: Option<Balance>,
    ) -> GovernorModel {
        if self.vote_outcome(proposal_id, caller, now, balance, total_supply) is Ok {
            match (balance, total_supply) {
                (Some(b), Some(ts)) => GovernorModel {
                    tallies: self.tallies.update(
                        proposal_id as int,
                        cast_vote(
                            self.tallies[proposal_id as int],
                            choice,
                            spec_weight(b, ts),
                        ),
                    ),
                    voters: self.voters.insert((proposal_id, caller)),
                    ..self
                },
                _ => self,
            }
        } else {
            self
        }
    }

    /// What `execute` returns: the proposal must exist, must not have been
    /// executed yet, its tally must meet quorum and then the majority rule;
    /// success carries the transfer the host is to perform. Voting
    /// eligibility of the executor plays no part.
    pub open spec fn execute_outcome(self, proposal_id: ProposalId) -> Result<
        Transfer,
        GovernorError,
    > {
        if self.proposals.len() <= proposal_id {
            Err(GovernorError::ProposalNotFound)
        } else {
            let p = self.proposals[proposal_id as int];
            let t = self.tallies[proposal_id as int];
            if p.executed {
                Err(GovernorError::ProposalAlreadyExecuted)
            } else if !spec_has_quorum(t, self.quorum) {
                Err(GovernorError::QuorumNotReached)
            } else if !spec_is_accepted(t) {
                Err(GovernorError::ProposalNotAccepted)
            } else {
                Ok(Transfer { to: p.to, amount: p.amount })
            }
        }
    }

    /// The state `execute` leaves behind: on success only the proposal's
    /// executed flag is set — once set it never reverts — and on any error
    /// nothing changes.
    pub open spec fn execute_step(self, proposal_id: ProposalId) -> GovernorModel {
        if self.execute_outcome(proposal_id) is Ok {
            let p = self.proposals[proposal_id as int];
            GovernorModel {
                proposals: self.proposals.update(
                    proposal_id as int,
                    Proposal { executed: true, ..p },
                ),
                ..self
            }
        } else {
            self
        }
    }
}

} // verus!
