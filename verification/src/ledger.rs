use vstd::prelude::*;
use vstd::pervasive::VecAdditionalExecFns;
use crate::model::cast_vote;
use crate::types::{AccountId, GovernorError, ProposalId, ProposalVote, VoteType, Weight};
use crate::weight::sat_add;

verus! {

/// What the ledger holds, mathematically: one weighted tally per proposal,
/// and the set of `(proposal, account)` pairs that have voted.
pub struct LedgerModel {
    /// Tally of proposal `i` at entry `i`.
    pub tallies: Seq<ProposalVote>,
    /// The pairs that have voted; sole authority for the double-vote guard.
    pub voters: Set<(ProposalId, AccountId)>,
}

/// Durable ledger of per-proposal vote tallies and of which accounts have
/// already voted on which proposal.
pub struct VoteLedger {
    tallies: Vec<ProposalVote>,
    voters: Vec<(ProposalId, AccountId)>,
}

impl View for VoteLedger {
    type V = LedgerModel;

    closed spec fn view(&self) -> LedgerModel {
        LedgerModel { tallies: self.tallies@, voters: self.voters@.to_set() }
    }
}

impl VoteLedger {
    /// No account appears twice for one proposal, every recorded pair names
    /// a proposal whose tally exists, and the tally space matches the
    /// identifier space.
    pub open spec fn wf(self) -> bool {
        &&& self@.tallies.len() <= u32::MAX
        &&& forall|v: (ProposalId, AccountId)|
            #[trigger] self@.voters.contains(v) ==> (v.0 as int) < self@.tallies.len()
    }

    /// An empty ledger.
    pub fn new() -> (l: VoteLedger)
        ensures
            l.wf(),
            l@.tallies == Seq::<ProposalVote>::empty(),
            l@.voters == Set::<(ProposalId, AccountId)>::empty(),
    {
        let l = VoteLedger { tallies: Vec::new(), voters: Vec::new() };
        proof {
            assert(l@.tallies =~= Seq::<ProposalVote>::empty());
            assert(l@.voters =~= Set::<(ProposalId, AccountId)>::empty());
        }
        l
    }

    /// Opens the tally for the next proposal, with nothing cast yet. Called
    /// once per created proposal, in creation order.
    pub fn open_tally(&mut self)
        requires
            old(self).wf(),
            old(self)@.tallies.len() < u32::MAX,
        ensures
            final(self).wf(),
            final(self)@.tallies == old(self)@.tallies.push(
                (ProposalVote { for_votes: 0, against_votes: 0 }),
            ),
            final(self)@.voters == old(self)@.voters,
    {
        self.tallies.push(ProposalVote { for_votes: 0, against_votes: 0 });
        proof {
            assert(self@.voters == old(self)@.voters);
            assert(self@.tallies.len() == old(self)@.tallies.len() + 1);
            assert forall|v: (ProposalId, AccountId)| #[trigger]
                self@.voters.contains(v) implies (v.0 as int) < self@.tallies.len() by {
                assert(old(self)@.voters.contains(v));
            }
        }
    }

    /// Whether `account` has already voted on `proposal_id`.
    pub fn has_voted(&self, proposal_id: ProposalId, account: AccountId) -> (r: bool)
        ensures
            r == self@.voters.contains((proposal_id, account)),
    {
        let mut i: usize = 0;
        while i < self.voters.len()
            invariant
                i <= self.voters@.len(),
                forall|j: int| 0 <= j < i ==> self.voters@[j] != (proposal_id, account),
            decreases self.voters@.len() - i,
        {
            let (pid, acct) = self.voters[i];
            if pid == proposal_id && acct == account {
                proof {
                    assert(self.voters@.contains((proposal_id, account))) by {
                        assert(self.voters@[i as int] == (proposal_id, account));
                    }
                }
                return true;
            }
            i = i + 1;
        }
        proof {
            assert(!self.voters@.contains((proposal_id, account)));
        }
        false
    }

    /// Reads the tally of a proposal; an identifier without a tally yields
    /// `ProposalNotFound`.
    pub fn tally(&self, proposal_id: ProposalId) -> (r: Result<ProposalVote, GovernorError>)
        ensures
            (proposal_id as int) < self@.tallies.len() ==> r == Ok::<ProposalVote, GovernorError>(
                self@.tallies[proposal_id as int],
            ),
            (proposal_id as int) >= self@.tallies.len() ==> r == Err::<
                ProposalVote,
                GovernorError,
            >(GovernorError::ProposalNotFound),
    {
        if (proposal_id as usize) < self.tallies.len() {
            Ok(self.tallies[proposal_id as usize])
        } else {
            Err(GovernorError::ProposalNotFound)
        }
    }

    /// Records one vote: an account that has voted on this proposal before is
    /// rejected with nothing changed; otherwise the pair is recorded and
    /// `weight` is added to the chosen accumulator of the proposal's tally,
    /// as one atomic read-modify-write — the updated tally is persisted, and
    /// the other accumulator and all other tallies stay as they were.
    pub fn record_vote(
        &mut self,
        proposal_id: ProposalId,
        account: AccountId,
        choice: VoteType,
        weight: Weight,
    ) -> (r: Result<(), GovernorError>)
        requires
            old(self).wf(),
            (proposal_id as int) < old(self)@.tallies.len(),
        ensures
            final(self).wf(),
            old(self)@.voters.contains((proposal_id, account)) ==> r == Err::<(), GovernorError>(
                GovernorError::AlreadyVoted,
            ) && final(self)@.tallies == old(self)@.tallies && final(self)@.voters == old(
                self,
            )@.voters,
            !old(self)@.voters.contains((proposal_id, account)) ==> r == Ok::<(), GovernorError>(
                (),
            ) && final(self)@.tallies == old(self)@.tallies.update(
                proposal_id as int,
                cast_vote(old(self)@.tallies[proposal_id as int], choice, weight),
            ) && final(self)@.voters == old(self)@.voters.insert((proposal_id, account)),
    {
        if self.has_voted(proposal_id, account) {
            return Err(GovernorError::AlreadyVoted);
        }
        self.voters.push((proposal_id, account));
        let t = self.tallies[proposal_id as usize];
        let updated = match choice {
            VoteType::For => ProposalVote {
                for_votes: sat_add(t.for_votes, weight),
                against_votes: t.against_votes,
            },
            VoteType::Against => ProposalVote {
                for_votes: t.for_votes,
                against_votes: sat_add(t.against_votes, weight),
            },
        };
        self.tallies.set(proposal_id as usize, updated);
        proof {
            old(self).voters@.lemma_push_to_set_commute((proposal_id, account));
        }
        Ok(())
    }
}

} // verus!
