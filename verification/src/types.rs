use vstd::prelude::*;

verus! {

/// Identifier of a proposal: assigned in creation order starting at zero, and
/// never reused.
pub type ProposalId = u32;

/// Identity of an account, as the host presents it.
pub type AccountId = u128;

/// A quantity of the reference asset, and of the value a proposal transfers.
pub type Balance = u64;

/// A host timestamp, in the host's time units.
pub type Timestamp = u64;

/// Weighted voting power, in units of `weight::SCALE` (a balance's share of
/// the total supply, scaled to a fixed-point integer).
pub type Weight = u128;

/// The two directions a cast vote can take.
#[derive(Clone, Copy, PartialEq, Eq, Structural, Debug)]
pub enum VoteType {
    Against,
    For,
}

/// Every way a governance entry point can fail. All are recoverable by the
/// caller: a failed call leaves the module's state exactly as it was.
#[derive(Clone, Copy, PartialEq, Eq, Structural, Debug)]
pub enum GovernorError {
    /// `propose` was given a zero transfer amount.
    AmountShouldNotBeZero,
    /// `propose` was given a zero voting duration.
    DurationError,
    /// The given proposal identifier has never been assigned.
    ProposalNotFound,
    /// `vote` came at or after the proposal's `vote_end`.
    VotePeriodEnded,
    /// The proposal has already been executed.
    ProposalAlreadyExecuted,
    /// The calling account has already voted on this proposal.
    AlreadyVoted,
    /// The weighted votes cast fall short of the quorum threshold.
    QuorumNotReached,
    /// Quorum was met, but the votes in favour do not outweigh those against.
    ProposalNotAccepted,
    /// The external query for a balance or the total supply failed.
    QueryFailed,
    /// The asset contract reported a total supply of zero.
    ZeroSupply,
}

/// A pending or resolved request to transfer `amount` of value to `to`,
/// subject to a vote open during `[vote_start, vote_end)`.
#[derive(Clone, Copy, PartialEq, Eq, Structural, Debug)]
pub struct Proposal {
    /// The account that receives the transfer if the proposal passes.
    pub to: AccountId,
    /// Creation time; the vote window opens here.
    pub vote_start: Timestamp,
    /// The vote window closes at this time: votes need `now < vote_end`.
    pub vote_end: Timestamp,
    /// Whether the proposal has been executed. Set once, never cleared.
    pub executed: bool,
    /// The positive quantity of value the proposal would transfer.
    pub amount: Balance,
}

/// The accumulated weighted tally of one proposal's votes, in units of
/// `weight::SCALE`.
#[derive(Clone, Copy, PartialEq, Eq, Structural, Debug)]
pub struct ProposalVote {
    /// Total voting power cast in favour.
    pub for_votes: Weight,
    /// Total voting power cast against.
    pub against_votes: Weight,
}

impl Default for ProposalVote {
    /// A tally with nothing cast yet.
    fn default() -> (t: ProposalVote)
        ensures
            t.for_votes == 0,
            t.against_votes == 0,
    {
        ProposalVote { for_votes: 0, against_votes: 0 }
    }
}

/// The value transfer a successful `execute` asks the host to perform,
/// atomically with the state change that marked the proposal executed.
#[derive(Clone, Copy, PartialEq, Eq, Structural, Debug)]
pub struct Transfer {
    /// The recipient: the proposal's target account.
    pub to: AccountId,
    /// The proposal's amount.
    pub amount: Balance,
}

impl Proposal {
    /// Whether the vote window is still open at `now`. The lower bound of the
    /// window needs no check: `vote_start` is the creation time, and the host
    /// clock never runs backwards past it.
    pub open spec fn spec_is_open(self, now: Timestamp) -> bool {
        now < self.vote_end
    }

    /// Named guard for the vote window (see `spec_is_open`).
    pub fn is_open(&self, now: Timestamp) -> (r: bool)
        ensures
            r == self.spec_is_open(now),
    {
        now < self.vote_end
    }

    /// Named guard for the executed flag.
    pub fn is_executed(&self) -> (r: bool)
        ensures
            r == self.executed,
    {
        self.executed
    }
}

} // verus!
