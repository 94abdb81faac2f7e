use vstd::prelude::*;

use crate::errors::GovError;
use crate::model::accepted_weight;
use crate::model::apply_votes;
use crate::model::create_step;
use crate::model::execute_step;
use crate::model::init_step;
use crate::model::restore_step;
use crate::model::set_power_step;
use crate::model::vote_step_req;
use crate::model::DaoView;
use crate::model::VoteReq;
use crate::proposal::Proposal;
use crate::proposal::VoteRecord;
use crate::proposal::VOTE_ABSTAIN;
use crate::proposal::VOTE_AGAINST;
use crate::proposal::VOTE_FOR;

verus! {

/// Single initialization: once a deployment is initialized, a second
/// `init` always fails with `AlreadyInitialized`, whatever its arguments,
/// and changes nothing.
pub proof fn lemma_single_initialization(
    s: DaoView,
    governance_token: u64,
    shareholders: Vec<u64>,
    voting_power: u32,
    min_quorum: i128,
)
    requires
        s.initialized(),
    ensures
        init_step(s, governance_token, shareholders, voting_power, min_quorum).0 == s,
        init_step(s, governance_token, shareholders, voting_power, min_quorum).1 == Err::<
            (),
            GovError,
        >(GovError::AlreadyInitialized),
{
}

/// What one engine step can never undo: proposals already assigned keep
/// their ids and their contents, written vote records stay written, and a
/// set executed flag stays set.
pub open spec fn extends(s: DaoView, s2: DaoView) -> bool {
    &&& s.num_proposals() <= s2.num_proposals()
    &&& forall|i: int| 0 <= i < s.proposals.len() ==> #[trigger] s2.proposals[i] == s.proposals[i]
    &&& forall|pid: u32, v: u64| #[trigger] s.has_voted(pid, v) ==> s2.has_voted(pid, v)
    &&& forall|pid: u32| #[trigger] s.is_executed(pid) ==> s2.is_executed(pid)
}

/// Every transition of the engine — initialization, proposal creation, a
/// vote attempt, an execution attempt, a lease restore, a threshold update
/// — only extends the state: ids are never reused or reassigned, vote
/// records are never erased, and execution is permanent.
pub proof fn lemma_every_step_extends(
    s: DaoView,
    governance_token: u64,
    shareholders: Vec<u64>,
    voting_power: u32,
    min_quorum: i128,
    proposal: Proposal,
    q: VoteReq,
    prop_id: u32,
    now: u64,
    power: u32,
)
    requires
        s.wf(),
    ensures
        extends(s, init_step(s, governance_token, shareholders, voting_power, min_quorum).0),
        extends(s, create_step(s, proposal, now).0),
        extends(s, vote_step_req(s, q).0),
        extends(s, execute_step(s, prop_id, now).0),
        extends(s, restore_step(s, prop_id, now).0),
        extends(s, set_power_step(s, power).0),
{
    let s_vote = vote_step_req(s, q).0;
    assert forall|pid: u32, v: u64| s.has_voted(pid, v) implies s_vote.has_voted(pid, v) by {
        let rec = VoteRecord { prop_id: pid, voter: v };
        let i: int = choose|i: int| 0 <= i < s.voted.len() && s.voted[i] == rec;
        assert(s_vote.voted[i] == rec);
    }
}

/// Monotonic ids: a successful `create_proposal` returns exactly the count
/// of ids assigned before it, and the next successful call returns exactly
/// one more. With `lemma_every_step_extends`, ids therefore grow by exactly
/// 1 across any run and are never reused.
pub proof fn lemma_monotonic_ids(s: DaoView, p1: Proposal, now1: u64, p2: Proposal, now2: u64)
    requires
        create_step(s, p1, now1).1 is Ok,
        s.num_proposals() + 1 <= u32::MAX,
    ensures
        create_step(s, p1, now1).1->Ok_0 == s.num_proposals(),
        create_step(create_step(s, p1, now1).0, p2, now2).1 is Ok,
        create_step(create_step(s, p1, now1).0, p2, now2).1->Ok_0 == s.num_proposals() + 1,
{
}

/// A `create_proposal` call that fails allocates nothing and changes
/// nothing: a later success hands out the same id the failed call would
/// have.
pub proof fn lemma_failed_create_changes_nothing(s: DaoView, p: Proposal, now: u64)
    requires
        create_step(s, p, now).1 is Err,
    ensures
        create_step(s, p, now).0 == s,
{
}

/// Anti-replay, direct form: in any state where a shareholder's vote record
/// for a proposal is already written, a vote attempt by that shareholder on
/// that proposal fails with `AlreadyVoted` and changes nothing — whatever
/// its choice, amount, balance or clock.
pub proof fn lemma_vote_replay_rejected(s: DaoView, q: VoteReq)
    requires
        s.has_voted(q.prop_id, q.voter),
        s.is_member(q.voter),
    ensures
        vote_step_req(s, q).0 == s,
        vote_step_req(s, q).1 == Err::<(), GovError>(GovError::AlreadyVoted),
{
}

/// Anti-replay: after an accepted vote, a second attempt by the same voter
/// on the same proposal — regardless of choice or amount — fails with
/// `AlreadyVoted` and leaves the state, the tally included, unchanged.
/// With `lemma_every_step_extends` the record outlives every later
/// transition, so at most one vote per (proposal, voter) is ever accepted.
pub proof fn lemma_anti_replay(s: DaoView, q1: VoteReq, q2: VoteReq)
    requires
        vote_step_req(s, q1).1 is Ok,
        q2.prop_id == q1.prop_id,
        q2.voter == q1.voter,
    ensures
        vote_step_req(vote_step_req(s, q1).0, q2).1 == Err::<(), GovError>(GovError::AlreadyVoted),
        vote_step_req(vote_step_req(s, q1).0, q2).0 == vote_step_req(s, q1).0,
{
    let s1 = vote_step_req(s, q1).0;
    assert(s1.voted[s1.voted.len() - 1] == (VoteRecord { prop_id: q1.prop_id, voter: q1.voter }));
    assert(s1.has_voted(q2.prop_id, q2.voter));
}

/// Each accepted vote in the sequence stayed within the capacity of the
/// tally type, exactly as the engine's `vote` precondition demands of every
/// call it accepts.
pub open spec fn no_tally_overflow(s: DaoView, reqs: Seq<VoteReq>) -> bool
    decreases reqs.len(),
{
    if reqs.len() == 0 {
        true
    } else {
        &&& (vote_step_req(s, reqs[0]).1 is Ok ==> s.tallies[reqs[0].prop_id as int].total()
            + reqs[0].tokens <= i128::MAX)
        &&& no_tally_overflow(vote_step_req(s, reqs[0]).0, reqs.drop_first())
    }
}

/// Tally additivity: after any sequence of vote attempts, each bucket of a
/// proposal's tally equals its previous value plus the exact sum of the
/// committed amounts of the accepted attempts for that proposal and that
/// choice; rejected attempts contribute nothing. In particular, with
/// non-negative weights no attempt ever decreases a bucket.
pub proof fn lemma_tally_additivity(s: DaoView, reqs: Seq<VoteReq>, prop_id: u32)
    requires
        s.wf(),
        s.valid_id(prop_id),
        forall|i: int| 0 <= i < reqs.len() ==> (#[trigger] reqs[i]).tokens >= 0,
        no_tally_overflow(s, reqs),
    ensures
        apply_votes(s, reqs).wf(),
        apply_votes(s, reqs).valid_id(prop_id),
        apply_votes(s, reqs).tallies[prop_id as int].against == s.tallies[prop_id as int].against
            + accepted_weight(s, reqs, prop_id, VOTE_AGAINST),
        apply_votes(s, reqs).tallies[prop_id as int].in_favor == s.tallies[prop_id as int].in_favor
            + accepted_weight(s, reqs, prop_id, VOTE_FOR),
        apply_votes(s, reqs).tallies[prop_id as int].abstain == s.tallies[prop_id as int].abstain
            + accepted_weight(s, reqs, prop_id, VOTE_ABSTAIN),
        accepted_weight(s, reqs, prop_id, VOTE_AGAINST) >= 0,
        accepted_weight(s, reqs, prop_id, VOTE_FOR) >= 0,
        accepted_weight(s, reqs, prop_id, VOTE_ABSTAIN) >= 0,
    decreases reqs.len(),
{
    if reqs.len() == 0 {
    } else {
        let q = reqs[0];
        let s1 = vote_step_req(s, q).0;
        assert(forall|i: int|
            0 <= i < reqs.drop_first().len() ==> (#[trigger] reqs.drop_first()[i]).tokens >= 0);
        if vote_step_req(s, q).1 is Ok {
            assert(s1.wf());
        } else {
            assert(s1 == s);
        }
        lemma_tally_additivity(s1, reqs.drop_first(), prop_id);
    }
}

/// Execution gating, deadline: before the proposal's deadline has passed,
/// every `execute` call on a live, existing proposal fails with
/// `TooEarlyToExecute`, whatever the vote totals, and changes nothing.
pub proof fn lemma_execute_too_early(s: DaoView, prop_id: u32, now: u64)
    requires
        s.initialized(),
        s.valid_id(prop_id),
        s.lease_live(prop_id, now),
        !s.deadline_passed(prop_id, now),
    ensures
        execute_step(s, prop_id, now).0 == s,
        execute_step(s, prop_id, now).1 == Err::<bool, GovError>(GovError::TooEarlyToExecute),
{
}

/// Execution gating, quorum: after the deadline, a proposal whose total
/// cast weight — all three buckets — is below the configured quorum fails
/// with `QuorumNotMet`, and nothing changes.
pub proof fn lemma_execute_quorum_not_met(s: DaoView, prop_id: u32, now: u64)
    requires
        s.initialized(),
        s.valid_id(prop_id),
        s.lease_live(prop_id, now),
        s.deadline_passed(prop_id, now),
        !s.quorum_met(prop_id),
    ensures
        execute_step(s, prop_id, now).0 == s,
        execute_step(s, prop_id, now).1 == Err::<bool, GovError>(GovError::QuorumNotMet),
{
}

/// Execution gating, majority: after the deadline, with quorum met, a
/// proposal whose For-weight does not strictly exceed its Against-weight —
/// ties included — fails with `ProposalNotPassed`, and nothing changes.
pub proof fn lemma_execute_not_passed(s: DaoView, prop_id: u32, now: u64)
    requires
        s.initialized(),
        s.valid_id(prop_id),
        s.lease_live(prop_id, now),
        s.deadline_passed(prop_id, now),
        s.quorum_met(prop_id),
        s.tallies[prop_id as int].in_favor <= s.tallies[prop_id as int].against,
    ensures
        execute_step(s, prop_id, now).0 == s,
        execute_step(s, prop_id, now).1 == Err::<bool, GovError>(GovError::ProposalNotPassed),
{
}

/// Execution happens at most once: a successful `execute` sets the
/// proposal's flag, every later `execute` on that proposal fails, and
/// whenever the entry is still live and the deadline (still) passed, that
/// failure is exactly `AlreadyExecuted`.
pub proof fn lemma_execute_at_most_once(s: DaoView, prop_id: u32, now: u64, now2: u64)
    requires
        s.wf(),
        execute_step(s, prop_id, now).1 is Ok,
    ensures
        execute_step(s, prop_id, now).0.is_executed(prop_id),
        execute_step(execute_step(s, prop_id, now).0, prop_id, now2).1 is Err,
        execute_step(execute_step(s, prop_id, now).0, prop_id, now2).0 == execute_step(
            s,
            prop_id,
            now,
        ).0,
        s.lease_live(prop_id, now2) && s.deadline_passed(prop_id, now2) ==> execute_step(
            execute_step(s, prop_id, now).0,
            prop_id,
            now2,
        ).1 == Err::<bool, GovError>(GovError::AlreadyExecuted),
{
}

} // verus!
