use dao_governance::contract::DaoContract;
use dao_governance::core_state::can_init_contract;
use dao_governance::core_state::get_core_state;
use dao_governance::core_state::set_core_state;
use dao_governance::core_state::CoreState;
use dao_governance::demo::DemoContract;
use dao_governance::errors::GovError;
use dao_governance::proposal::Proposal;
use dao_governance::proposal::ProposalInstr;
use dao_governance::proposal::VotesCount;
use dao_governance::proposal::VOTE_ABSTAIN;
use dao_governance::proposal::VOTE_AGAINST;
use dao_governance::proposal::VOTE_FOR;

const A: u64 = 11;
const B: u64 = 22;
const C: u64 = 33;
const OUTSIDER: u64 = 99;

fn empty_proposal(deadline: u64) -> Proposal {
    Proposal { instr: Vec::new(), deadline }
}

/// A DAO with shareholders A, B, C, a governance token reference, the given
/// minimum vote power and quorum.
fn setup(min_power: u32, quorum: i128) -> DaoContract {
    let mut dao = DaoContract::new();
    let r = dao.init(7, vec![A, B, C], min_power, quorum);
    assert!(r.is_ok());
    dao
}

#[test]
fn init_once_then_always_already_initialized() {
    let mut dao = DaoContract::new();
    assert_eq!(dao.init(7, vec![A, B], 1, 150), Ok(()));
    // a second initialization fails whatever its arguments ...
    assert_eq!(dao.init(8, vec![C], 999, 1), Err(GovError::AlreadyInitialized));
    assert_eq!(dao.init(7, vec![A, B], 1, 150), Err(GovError::AlreadyInitialized));
    // ... and leaves the configuration untouched
    assert_eq!(dao.min_vote_power(), Ok(1));
    let core = get_core_state(&dao).unwrap();
    assert_eq!(core.governance_token, 7);
    assert_eq!(core.shareholders, vec![A, B]);
    assert_eq!(core.min_quorum, 150);
}

#[test]
fn everything_fails_before_initialization() {
    let mut dao = DaoContract::new();
    assert_eq!(dao.min_vote_power(), Err(GovError::NotInitialized));
    assert_eq!(dao.create_proposal(A, empty_proposal(100), 0), Err(GovError::NotInitialized));
    assert_eq!(dao.vote(A, 0, 1, VOTE_FOR, 10, 10, 0), Err(GovError::NotInitialized));
    assert_eq!(dao.execute(0, 0), Err(GovError::NotInitialized));
    assert_eq!(dao.set_min_vote_power(2), Err(GovError::NotInitialized));
    assert!(!dao.is_member(A));
    assert_eq!(dao.get_votes(0), Err(GovError::ProposalNotFound));
}

#[test]
fn proposal_ids_increase_by_exactly_one() {
    let mut dao = setup(1, 150);
    assert_eq!(dao.create_proposal(A, empty_proposal(100), 0), Ok(0));
    assert_eq!(dao.create_proposal(B, empty_proposal(200), 0), Ok(1));
    // a failing call in between allocates nothing
    assert_eq!(dao.vote(OUTSIDER, 0, 1, VOTE_FOR, 1, 1, 0), Err(GovError::NotAMember));
    assert_eq!(dao.create_proposal(C, empty_proposal(300), 0), Ok(2));
}

#[test]
fn get_proposal_by_id() {
    let mut dao = setup(1, 150);
    let p = Proposal {
        instr: vec![ProposalInstr { c_id: 5, fun_name: "demo_exec".to_string(), args: vec![1, 2] }],
        deadline: 123,
    };
    assert_eq!(dao.create_proposal(A, p, 0), Ok(0));
    let got = dao.get_proposal(0).unwrap();
    assert_eq!(got.deadline, 123);
    assert_eq!(got.instr.len(), 1);
    assert_eq!(got.instr[0].c_id, 5);
    assert_eq!(got.instr[0].fun_name, "demo_exec");
    assert_eq!(got.instr[0].args, vec![1, 2]);
    assert!(matches!(dao.get_proposal(1), Err(GovError::ProposalNotFound)));
}

#[test]
fn second_vote_rejected_tally_unchanged() {
    // A votes For with 50 tokens, then attempts Against with 10 tokens on
    // the same proposal: the second call fails and the tally stays put.
    let mut dao = setup(1, 150);
    assert_eq!(dao.create_proposal(A, empty_proposal(100), 0), Ok(0));
    assert_eq!(dao.vote(A, 0, 1, VOTE_FOR, 50, 100, 10), Ok(()));
    assert_eq!(dao.vote(A, 0, 1, VOTE_AGAINST, 10, 100, 10), Err(GovError::AlreadyVoted));
    assert_eq!(
        dao.get_votes(0),
        Ok(VotesCount { against: 0, in_favor: 50, abstain: 0 })
    );
    assert!(dao.have_voted(0, A));
    assert!(!dao.have_voted(0, B));
}

#[test]
fn tallies_are_exact_sums_per_bucket() {
    let mut dao = setup(1, 1000);
    assert_eq!(dao.create_proposal(A, empty_proposal(100), 0), Ok(0));
    assert_eq!(dao.create_proposal(A, empty_proposal(100), 0), Ok(1));
    assert_eq!(dao.vote(A, 0, 1, VOTE_FOR, 30, 100, 1), Ok(()));
    assert_eq!(dao.vote(B, 0, 1, VOTE_AGAINST, 20, 100, 1), Ok(()));
    assert_eq!(dao.vote(C, 0, 1, VOTE_ABSTAIN, 25, 100, 1), Ok(()));
    // rejected attempts in between contribute nothing to any bucket
    assert_eq!(dao.vote(B, 0, 1, VOTE_FOR, 40, 100, 1), Err(GovError::AlreadyVoted));
    assert_eq!(dao.vote(OUTSIDER, 0, 1, VOTE_FOR, 40, 100, 1), Err(GovError::NotAMember));
    // votes on another proposal do not leak into this one
    assert_eq!(dao.vote(A, 1, 1, VOTE_FOR, 99, 100, 1), Ok(()));
    assert_eq!(
        dao.get_votes(0),
        Ok(VotesCount { against: 20, in_favor: 30, abstain: 25 })
    );
    assert_eq!(
        dao.get_votes(1),
        Ok(VotesCount { against: 0, in_favor: 99, abstain: 0 })
    );
}

#[test]
fn zero_weight_vote_consumes_the_slot() {
    let mut dao = setup(1, 150);
    assert_eq!(dao.create_proposal(A, empty_proposal(100), 0), Ok(0));
    assert_eq!(dao.vote(A, 0, 1, VOTE_FOR, 0, 0, 1), Ok(()));
    assert_eq!(
        dao.get_votes(0),
        Ok(VotesCount { against: 0, in_favor: 0, abstain: 0 })
    );
    // the zero-weight vote still blocks any second vote by the same voter
    assert_eq!(dao.vote(A, 0, 1, VOTE_FOR, 40, 100, 1), Err(GovError::AlreadyVoted));
}

#[test]
fn vote_guards_in_order() {
    let mut dao = setup(5, 150);
    assert_eq!(dao.create_proposal(A, empty_proposal(100), 0), Ok(0));
    // not a shareholder
    assert_eq!(dao.vote(OUTSIDER, 0, 9, VOTE_FOR, 1, 10, 1), Err(GovError::NotAMember));
    // asserted power below the configured minimum
    assert_eq!(dao.vote(A, 0, 4, VOTE_FOR, 1, 10, 1), Err(GovError::InsufficientVotePower));
    // unknown proposal id
    assert_eq!(dao.vote(A, 3, 5, VOTE_FOR, 1, 10, 1), Err(GovError::ProposalNotFound));
    // deadline passed: voting closed
    assert_eq!(dao.vote(A, 0, 5, VOTE_FOR, 1, 10, 101), Err(GovError::VotingClosed));
    // committed amount above the live balance
    assert_eq!(dao.vote(A, 0, 5, VOTE_FOR, 11, 10, 1), Err(GovError::TokenAmountSurpassed));
    // choice outside the three recognized values
    assert_eq!(dao.vote(A, 0, 5, 3, 1, 10, 1), Err(GovError::InvalidChoice));
    // nothing above changed any state: A can still vote
    assert_eq!(dao.vote(A, 0, 5, VOTE_FOR, 1, 10, 1), Ok(()));
}

#[test]
fn voting_open_exactly_until_deadline() {
    let mut dao = setup(1, 150);
    assert_eq!(dao.create_proposal(A, empty_proposal(100), 0), Ok(0));
    // at the deadline itself the vote is still open and execution too early
    assert_eq!(dao.vote(A, 0, 1, VOTE_FOR, 200, 200, 100), Ok(()));
    assert_eq!(dao.execute(0, 100), Err(GovError::TooEarlyToExecute));
    // one past the deadline the polarity flips
    assert_eq!(dao.vote(B, 0, 1, VOTE_FOR, 1, 10, 101), Err(GovError::VotingClosed));
    assert_eq!(dao.execute(0, 101), Ok(true));
}

#[test]
fn execute_gates_in_order() {
    let mut dao = setup(1, 100);
    assert_eq!(dao.create_proposal(A, empty_proposal(100), 0), Ok(0));
    assert_eq!(dao.execute(5, 101), Err(GovError::ProposalNotFound));
    // too early, regardless of totals
    assert_eq!(dao.vote(A, 0, 1, VOTE_FOR, 500, 500, 1), Ok(()));
    assert_eq!(dao.execute(0, 50), Err(GovError::TooEarlyToExecute));
    // quorum: the total across all buckets must reach the configured minimum
    let mut dao2 = setup(1, 100);
    assert_eq!(dao2.create_proposal(A, empty_proposal(100), 0), Ok(0));
    assert_eq!(dao2.vote(A, 0, 1, VOTE_FOR, 99, 100, 1), Ok(()));
    assert_eq!(dao2.execute(0, 101), Err(GovError::QuorumNotMet));
    // a tie does not pass
    let mut dao3 = setup(1, 100);
    assert_eq!(dao3.create_proposal(A, empty_proposal(100), 0), Ok(0));
    assert_eq!(dao3.vote(A, 0, 1, VOTE_FOR, 50, 100, 1), Ok(()));
    assert_eq!(dao3.vote(B, 0, 1, VOTE_AGAINST, 50, 100, 1), Ok(()));
    assert_eq!(dao3.execute(0, 101), Err(GovError::ProposalNotPassed));
}

#[test]
fn quorum_is_inclusive_and_counts_abstain() {
    // quorum is met exactly at the threshold, and abstentions count toward
    // it without helping the majority
    let mut dao = setup(1, 150);
    assert_eq!(dao.create_proposal(A, empty_proposal(100), 0), Ok(0));
    assert_eq!(dao.vote(A, 0, 1, VOTE_FOR, 1, 10, 1), Ok(()));
    assert_eq!(dao.vote(B, 0, 1, VOTE_ABSTAIN, 149, 200, 1), Ok(()));
    assert_eq!(dao.execute(0, 101), Ok(true));
}

#[test]
fn execute_succeeds_at_most_once() {
    let mut dao = setup(1, 100);
    assert_eq!(dao.create_proposal(A, empty_proposal(100), 0), Ok(0));
    assert_eq!(dao.vote(A, 0, 1, VOTE_FOR, 200, 200, 1), Ok(()));
    assert_eq!(dao.execute(0, 101), Ok(true));
    assert_eq!(dao.execute(0, 102), Err(GovError::AlreadyExecuted));
    assert_eq!(dao.execute(0, 9999), Err(GovError::AlreadyExecuted));
}

#[test]
fn three_shareholders_scenario() {
    // Three shareholders each hold 100 tokens; minimum vote power 1, quorum
    // 150. A votes For with 100, B votes For with 60.
    let mut dao = setup(1, 150);
    assert_eq!(dao.create_proposal(A, empty_proposal(1000), 0), Ok(0));
    assert_eq!(dao.vote(A, 0, 1, VOTE_FOR, 100, 100, 10), Ok(()));
    assert_eq!(dao.vote(B, 0, 1, VOTE_FOR, 60, 100, 20), Ok(()));
    // before the deadline execution is too early
    assert_eq!(dao.execute(0, 500), Err(GovError::TooEarlyToExecute));
    // after the deadline: 160 >= 150 meets quorum, 160 > 0 wins, executes once
    assert_eq!(dao.execute(0, 1001), Ok(true));
    assert_eq!(dao.execute(0, 1002), Err(GovError::AlreadyExecuted));
    // C attempting to vote after the deadline is told voting is closed
    assert_eq!(dao.vote(C, 0, 1, VOTE_FOR, 100, 100, 1001), Err(GovError::VotingClosed));
}

#[test]
fn execution_batch_then_dispatch_then_execute() {
    // the caller fetches the gated batch, dispatches it, then records the
    // execution; here the demo contract stands in for the targets
    let mut dao = setup(1, 100);
    let p = Proposal {
        instr: vec![
            ProposalInstr { c_id: 5, fun_name: "demo_exec".to_string(), args: vec![] },
            ProposalInstr { c_id: 5, fun_name: "demo_exec".to_string(), args: vec![] },
        ],
        deadline: 100,
    };
    assert_eq!(dao.create_proposal(A, p, 0), Ok(0));
    assert_eq!(dao.vote(A, 0, 1, VOTE_FOR, 200, 200, 1), Ok(()));
    assert!(matches!(dao.execution_batch(0, 50), Err(GovError::TooEarlyToExecute)));
    let batch = dao.execution_batch(0, 101).unwrap();
    assert_eq!(batch.len(), 2);
    let mut results: Vec<String> = Vec::new();
    for instr in batch {
        assert_eq!(instr.fun_name, "demo_exec");
        results.push(DemoContract::demo_exec("hello".to_string()));
    }
    assert_eq!(results, vec!["hello".to_string(), "hello".to_string()]);
    assert_eq!(dao.execute(0, 101), Ok(true));
    assert!(matches!(dao.execution_batch(0, 102), Err(GovError::AlreadyExecuted)));
}

#[test]
fn lapsed_lease_archives_until_restored() {
    let mut dao = setup(1, 1);
    assert_eq!(dao.create_proposal(A, empty_proposal(2000000), 0), Ok(0));
    // the fresh lease runs out 1209600 clock units after creation
    assert_eq!(dao.vote(A, 0, 1, VOTE_FOR, 10, 10, 1209601), Err(GovError::EntryArchived));
    assert_eq!(dao.execute(0, 2000001), Err(GovError::EntryArchived));
    // the administrative restore makes the entry reachable again
    assert_eq!(dao.restore_proposal(0, 1209601), Ok(()));
    assert_eq!(dao.vote(A, 0, 1, VOTE_FOR, 10, 10, 1209601), Ok(()));
    assert_eq!(dao.restore_proposal(7, 0), Err(GovError::ProposalNotFound));
}

#[test]
fn accepted_vote_renews_the_lease() {
    let mut dao = setup(1, 1);
    assert_eq!(dao.create_proposal(A, empty_proposal(3000000), 0), Ok(0));
    // A votes just before the original lease runs out; that renews it
    assert_eq!(dao.vote(A, 0, 1, VOTE_FOR, 10, 10, 1209600), Ok(()));
    // without the renewal this would be archived (2000000 > 1209600)
    assert_eq!(dao.vote(B, 0, 1, VOTE_FOR, 10, 10, 2000000), Ok(()));
}

#[test]
fn min_vote_power_can_be_raised() {
    let mut dao = setup(1, 150);
    assert_eq!(dao.create_proposal(A, empty_proposal(100), 0), Ok(0));
    assert_eq!(dao.set_min_vote_power(10), Ok(()));
    assert_eq!(dao.min_vote_power(), Ok(10));
    assert_eq!(dao.vote(A, 0, 9, VOTE_FOR, 1, 10, 1), Err(GovError::InsufficientVotePower));
    assert_eq!(dao.vote(A, 0, 10, VOTE_FOR, 1, 10, 1), Ok(()));
}

#[test]
fn membership_is_the_shareholder_set() {
    let dao = setup(1, 150);
    assert!(dao.is_member(A));
    assert!(dao.is_member(B));
    assert!(dao.is_member(C));
    assert!(!dao.is_member(OUTSIDER));
}

#[test]
fn core_state_helpers_roundtrip() {
    let mut dao = DaoContract::new();
    assert_eq!(can_init_contract(&dao), Ok(()));
    assert!(matches!(get_core_state(&dao), Err(GovError::NotInitialized)));
    set_core_state(
        &mut dao,
        CoreState { governance_token: 3, shareholders: vec![A], min_vote_power: 2, min_quorum: 9 },
    );
    assert_eq!(can_init_contract(&dao), Err(GovError::AlreadyInitialized));
    let core = get_core_state(&dao).unwrap();
    assert_eq!(core.governance_token, 3);
    assert_eq!(core.shareholders, vec![A]);
    assert_eq!(core.min_vote_power, 2);
    assert_eq!(core.min_quorum, 9);
}

#[test]
fn demo_contract_echoes() {
    assert_eq!(DemoContract::demo_exec("greetings".to_string()), "greetings".to_string());
}
