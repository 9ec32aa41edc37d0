use dao::governor::Governor;
use dao::types::{GovernorError, Proposal, ProposalVote, Transfer, VoteType};
use dao::weight::{quorum_threshold, sat_add, weight_of, SCALE};

const ASSET: u128 = 1;
const ALICE: u128 = 10;
const BOB: u128 = 11;
const DJANGO: u128 = 12;

const SUPPLY: u64 = 1000;

#[test]
fn propose_works() {
    let mut governor = Governor::new(ASSET, 50);
    assert_eq!(
        governor.propose(DJANGO, 0, 1, 0),
        Err(GovernorError::AmountShouldNotBeZero)
    );
    assert_eq!(
        governor.propose(DJANGO, 100, 0, 0),
        Err(GovernorError::DurationError)
    );
    let result = governor.propose(DJANGO, 100, 1, 0);
    assert_eq!(result, Ok(0));
    let proposal = governor.get_proposal(0).unwrap();
    assert_eq!(
        proposal,
        Proposal {
            to: DJANGO,
            amount: 100,
            vote_start: 0,
            vote_end: 1,
            executed: false,
        }
    );
    assert_eq!(governor.next_proposal_id(), 1);
}

#[test]
fn quorum_not_reached() {
    let mut governor = Governor::new(ASSET, 50);
    let result = governor.propose(DJANGO, 100, 1, 0);
    assert_eq!(result, Ok(0));
    let voting = governor.vote(0, VoteType::Against, ALICE, 0, Some(100), Some(SUPPLY));
    assert_eq!(voting, Ok(()));
    let execute = governor.execute(0);
    assert_eq!(execute, Err(GovernorError::QuorumNotReached));
}

#[test]
fn end_to_end_execution() {
    // Quorum 50 percent, total supply 1000, the proposer holds 600 units.
    let mut governor = Governor::new(ASSET, 50);
    assert_eq!(governor.propose(DJANGO, 100, 60, 0), Ok(0));
    assert_eq!(
        governor.vote(0, VoteType::For, ALICE, 5, Some(600), Some(SUPPLY)),
        Ok(())
    );
    // 600 of 1000 units: six tenths of the scale.
    let tally = governor.get_tally(0).unwrap();
    assert_eq!(tally.for_votes, 600 * SCALE / 1000);
    assert_eq!(tally.against_votes, 0);
    assert_eq!(
        governor.execute(0),
        Ok(Transfer {
            to: DJANGO,
            amount: 100,
        })
    );
    assert!(governor.get_proposal(0).unwrap().executed);
    assert_eq!(
        governor.execute(0),
        Err(GovernorError::ProposalAlreadyExecuted)
    );
}

#[test]
fn vote_after_window_closed() {
    // Duration 1: the window is [0, 1), so time 1 is already too late, and
    // with no votes cast execution fails the quorum check.
    let mut governor = Governor::new(ASSET, 50);
    assert_eq!(governor.propose(DJANGO, 100, 1, 0), Ok(0));
    assert_eq!(
        governor.vote(0, VoteType::For, ALICE, 1, Some(600), Some(SUPPLY)),
        Err(GovernorError::VotePeriodEnded)
    );
    assert_eq!(governor.get_tally(0).unwrap(), ProposalVote {
        for_votes: 0,
        against_votes: 0,
    });
    assert_eq!(governor.execute(0), Err(GovernorError::QuorumNotReached));
}

#[test]
fn vote_window_boundary() {
    let mut governor = Governor::new(ASSET, 50);
    assert_eq!(governor.propose(DJANGO, 100, 60, 100), Ok(0));
    // The last instant of the window is 159; 160 is closed.
    assert_eq!(
        governor.vote(0, VoteType::For, ALICE, 159, Some(600), Some(SUPPLY)),
        Ok(())
    );
    assert_eq!(
        governor.vote(0, VoteType::For, BOB, 160, Some(600), Some(SUPPLY)),
        Err(GovernorError::VotePeriodEnded)
    );
}

#[test]
fn double_vote_rejected() {
    let mut governor = Governor::new(ASSET, 50);
    assert_eq!(governor.propose(DJANGO, 100, 60, 0), Ok(0));
    assert_eq!(
        governor.vote(0, VoteType::For, ALICE, 1, Some(600), Some(SUPPLY)),
        Ok(())
    );
    assert_eq!(
        governor.vote(0, VoteType::Against, ALICE, 2, Some(600), Some(SUPPLY)),
        Err(GovernorError::AlreadyVoted)
    );
    // The tally reflects only the first call's weight.
    let tally = governor.get_tally(0).unwrap();
    assert_eq!(tally.for_votes, 600 * SCALE / 1000);
    assert_eq!(tally.against_votes, 0);
}

#[test]
fn distinct_accounts_both_count() {
    let mut governor = Governor::new(ASSET, 50);
    assert_eq!(governor.propose(DJANGO, 100, 60, 0), Ok(0));
    assert_eq!(
        governor.vote(0, VoteType::For, ALICE, 1, Some(300), Some(SUPPLY)),
        Ok(())
    );
    assert_eq!(
        governor.vote(0, VoteType::Against, BOB, 2, Some(200), Some(SUPPLY)),
        Ok(())
    );
    let tally = governor.get_tally(0).unwrap();
    assert_eq!(tally.for_votes, 300 * SCALE / 1000);
    assert_eq!(tally.against_votes, 200 * SCALE / 1000);
}

#[test]
fn vote_on_missing_proposal() {
    let mut governor = Governor::new(ASSET, 50);
    assert_eq!(
        governor.vote(3, VoteType::For, ALICE, 0, Some(600), Some(SUPPLY)),
        Err(GovernorError::ProposalNotFound)
    );
}

#[test]
fn vote_on_executed_proposal() {
    let mut governor = Governor::new(ASSET, 50);
    assert_eq!(governor.propose(DJANGO, 100, 60, 0), Ok(0));
    assert_eq!(
        governor.vote(0, VoteType::For, ALICE, 1, Some(600), Some(SUPPLY)),
        Ok(())
    );
    assert!(governor.execute(0).is_ok());
    // The window is still open, but an executed proposal takes no more votes.
    assert_eq!(
        governor.vote(0, VoteType::For, BOB, 2, Some(300), Some(SUPPLY)),
        Err(GovernorError::ProposalAlreadyExecuted)
    );
}

#[test]
fn failed_query_rejects_vote() {
    let mut governor = Governor::new(ASSET, 50);
    assert_eq!(governor.propose(DJANGO, 100, 60, 0), Ok(0));
    assert_eq!(
        governor.vote(0, VoteType::For, ALICE, 1, None, Some(SUPPLY)),
        Err(GovernorError::QueryFailed)
    );
    assert_eq!(
        governor.vote(0, VoteType::For, ALICE, 1, Some(600), None),
        Err(GovernorError::QueryFailed)
    );
    // No partial vote was recorded: the same account may still vote.
    assert_eq!(
        governor.vote(0, VoteType::For, ALICE, 1, Some(600), Some(SUPPLY)),
        Ok(())
    );
}

#[test]
fn zero_supply_rejects_vote() {
    let mut governor = Governor::new(ASSET, 50);
    assert_eq!(governor.propose(DJANGO, 100, 60, 0), Ok(0));
    assert_eq!(
        governor.vote(0, VoteType::For, ALICE, 1, Some(600), Some(0)),
        Err(GovernorError::ZeroSupply)
    );
    assert_eq!(governor.get_tally(0).unwrap(), ProposalVote {
        for_votes: 0,
        against_votes: 0,
    });
}

#[test]
fn majority_required_after_quorum() {
    let mut governor = Governor::new(ASSET, 50);
    assert_eq!(governor.propose(DJANGO, 100, 60, 0), Ok(0));
    assert_eq!(
        governor.vote(0, VoteType::For, ALICE, 1, Some(300), Some(SUPPLY)),
        Ok(())
    );
    assert_eq!(
        governor.vote(0, VoteType::Against, BOB, 2, Some(600), Some(SUPPLY)),
        Ok(())
    );
    // Quorum is met (900 of 1000 voted) but against outweighs for.
    assert_eq!(governor.execute(0), Err(GovernorError::ProposalNotAccepted));
}

#[test]
fn tie_is_not_accepted() {
    let mut governor = Governor::new(ASSET, 50);
    assert_eq!(governor.propose(DJANGO, 100, 60, 0), Ok(0));
    assert_eq!(
        governor.vote(0, VoteType::For, ALICE, 1, Some(300), Some(SUPPLY)),
        Ok(())
    );
    assert_eq!(
        governor.vote(0, VoteType::Against, BOB, 2, Some(300), Some(SUPPLY)),
        Ok(())
    );
    // 600 of 1000 voted, so quorum holds, but a tie is no majority.
    assert_eq!(governor.execute(0), Err(GovernorError::ProposalNotAccepted));
}

#[test]
fn execute_missing_proposal() {
    let mut governor = Governor::new(ASSET, 50);
    assert_eq!(governor.execute(9), Err(GovernorError::ProposalNotFound));
}

#[test]
fn tally_of_missing_proposal() {
    let governor = Governor::new(ASSET, 50);
    assert_eq!(governor.get_tally(2), Err(GovernorError::ProposalNotFound));
    assert_eq!(governor.get_proposal(2), Err(GovernorError::ProposalNotFound));
}

#[test]
fn identifiers_advance_only_on_success() {
    let mut governor = Governor::new(ASSET, 50);
    assert_eq!(governor.next_proposal_id(), 0);
    assert_eq!(
        governor.propose(DJANGO, 0, 1, 0),
        Err(GovernorError::AmountShouldNotBeZero)
    );
    assert_eq!(governor.next_proposal_id(), 0);
    assert_eq!(governor.propose(DJANGO, 100, 1, 0), Ok(0));
    assert_eq!(governor.next_proposal_id(), 1);
    assert_eq!(governor.propose(DJANGO, 200, 5, 0), Ok(1));
    assert_eq!(governor.next_proposal_id(), 2);
    // Each proposal keeps its own record.
    assert_eq!(governor.get_proposal(0).unwrap().amount, 100);
    assert_eq!(governor.get_proposal(1).unwrap().amount, 200);
}

#[test]
fn weight_is_fixed_point() {
    // A single base unit of a thousand-unit supply still carries weight:
    // the scaled ratio does not collapse to zero.
    assert_eq!(weight_of(Some(1), Some(1000)), Ok(SCALE / 1000));
    assert_eq!(weight_of(Some(999), Some(1000)), Ok(999 * SCALE / 1000));
    assert_eq!(weight_of(Some(1000), Some(1000)), Ok(SCALE));
    assert_eq!(weight_of(Some(0), Some(1000)), Ok(0));
    assert_eq!(weight_of(None, Some(1000)), Err(GovernorError::QueryFailed));
    assert_eq!(weight_of(Some(5), None), Err(GovernorError::QueryFailed));
    assert_eq!(weight_of(Some(5), Some(0)), Err(GovernorError::ZeroSupply));
}

#[test]
fn quorum_threshold_is_percent_of_scale() {
    assert_eq!(quorum_threshold(0), 0);
    assert_eq!(quorum_threshold(50), SCALE / 2);
    assert_eq!(quorum_threshold(100), SCALE);
}

#[test]
fn tally_addition_saturates() {
    assert_eq!(sat_add(1, 2), 3);
    assert_eq!(sat_add(u128::MAX, 0), u128::MAX);
    assert_eq!(sat_add(u128::MAX, 7), u128::MAX);
    assert_eq!(sat_add(u128::MAX - 1, 1), u128::MAX);
}

#[test]
fn default_tally_is_empty() {
    assert_eq!(
        ProposalVote::default(),
        ProposalVote {
            for_votes: 0,
            against_votes: 0,
        }
    );
}

#[test]
fn named_guards() {
    let proposal = Proposal {
        to: DJANGO,
        vote_start: 100,
        vote_end: 160,
        executed: false,
        amount: 5,
    };
    assert!(proposal.is_open(100));
    assert!(proposal.is_open(159));
    assert!(!proposal.is_open(160));
    assert!(!proposal.is_executed());

    let half = ProposalVote {
        for_votes: SCALE / 2,
        against_votes: 0,
    };
    assert!(half.has_quorum(50));
    assert!(!half.has_quorum(51));
    assert!(half.is_accepted());

    let split = ProposalVote {
        for_votes: SCALE / 4,
        against_votes: SCALE / 4,
    };
    assert!(split.has_quorum(50));
    assert!(!split.is_accepted());
}
