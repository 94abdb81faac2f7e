use vstd::prelude::*;

use crate::core_state::CoreState;
use crate::core_state::PERSISTENT_BUMP_AMOUNT_HIGH_WATERMARK;
use crate::core_state::PERSISTENT_BUMP_AMOUNT_LOW_WATERMARK;
use crate::errors::GovError;
use crate::proposal::Proposal;
use crate::proposal::VoteRecord;
use crate::proposal::VotesCount;
use crate::proposal::VOTE_ABSTAIN;
use crate::proposal::VOTE_AGAINST;
use crate::proposal::VOTE_FOR;

verus! {

/// The abstract state of one deployment of the governance engine: the
/// singleton core configuration and, per proposal id, the immutable
/// proposal, the running tally, the write-once vote records, the
/// executed flag, and the storage-lease expiry.
pub ghost struct DaoView {
    pub core: Option<CoreState>,
    pub proposals: Seq<Proposal>,
    pub tallies: Seq<VotesCount>,
    pub voted: Seq<VoteRecord>,
    pub executed: Seq<bool>,
    pub lease: Seq<u64>,
}

impl DaoView {
    /// The state of a fresh deployment: uninitialized, no proposals.
    pub open spec fn empty() -> DaoView {
        DaoView {
            core: None,
            proposals: Seq::empty(),
            tallies: Seq::empty(),
            voted: Seq::empty(),
            executed: Seq::empty(),
            lease: Seq::empty(),
        }
    }

    pub open spec fn initialized(self) -> bool {
        self.core is Some
    }

    /// The same state with the core configuration replaced.
    pub open spec fn with_core(self, core: CoreState) -> DaoView {
        DaoView { core: Some(core), ..self }
    }

    /// How many proposal ids have been assigned; the next id to assign.
    pub open spec fn num_proposals(self) -> int {
        self.proposals.len() as int
    }

    pub open spec fn valid_id(self, prop_id: u32) -> bool {
        (prop_id as int) < self.proposals.len()
    }

    pub open spec fn is_member(self, who: u64) -> bool {
        self.initialized() && self.core->Some_0.shareholders@.contains(who)
    }

    pub open spec fn min_vote_power(self) -> u32
        recommends
            self.initialized(),
    {
        self.core->Some_0.min_vote_power
    }

    pub open spec fn min_quorum(self) -> int
        recommends
            self.initialized(),
    {
        self.core->Some_0.min_quorum as int
    }

    pub open spec fn has_voted(self, prop_id: u32, voter: u64) -> bool {
        self.voted.contains(VoteRecord { prop_id, voter })
    }

    pub open spec fn tally(self, prop_id: u32) -> VotesCount
        recommends
            self.valid_id(prop_id),
    {
        self.tallies[prop_id as int]
    }

    pub open spec fn is_executed(self, prop_id: u32) -> bool {
        self.valid_id(prop_id) && self.executed[prop_id as int]
    }

    /// Voting on a proposal is closed, and execution becomes possible, once
    /// the clock has moved strictly past the deadline. The same comparison
    /// gates `vote` and `execute`, with opposite polarity.
    pub open spec fn deadline_passed(self, prop_id: u32, now: u64) -> bool
        recommends
            self.valid_id(prop_id),
    {
        now > self.proposals[prop_id as int].deadline
    }

    /// A proposal's persisted entries are reachable while the clock has not
    /// moved past the lease expiry.
    pub open spec fn lease_live(self, prop_id: u32, now: u64) -> bool
        recommends
            self.valid_id(prop_id),
    {
        now <= self.lease[prop_id as int]
    }

    /// Quorum counts the weight of all three buckets, abstentions included.
    pub open spec fn quorum_met(self, prop_id: u32) -> bool
        recommends
            self.initialized(),
            self.valid_id(prop_id),
    {
        self.tallies[prop_id as int].total() >= self.min_quorum()
    }

    /// A proposal passes only if For-weight strictly exceeds Against-weight;
    /// ties do not pass, and abstentions play no part here.
    pub open spec fn passed(self, prop_id: u32) -> bool
        recommends
            self.valid_id(prop_id),
    {
        self.tallies[prop_id as int].in_favor > self.tallies[prop_id as int].against
    }

    /// Internal consistency of a deployment state: the per-proposal columns
    /// have one row per assigned id, every tally bucket is non-negative with
    /// a total that fits the tally type, and every vote record points at an
    /// assigned proposal id.
    pub open spec fn wf(self) -> bool {
        &&& self.tallies.len() == self.proposals.len()
        &&& self.executed.len() == self.proposals.len()
        &&& self.lease.len() == self.proposals.len()
        &&& forall|i: int|
            0 <= i < self.tallies.len() ==> {
                &&& (#[trigger] self.tallies[i]).against >= 0
                &&& self.tallies[i].in_favor >= 0
                &&& self.tallies[i].abstain >= 0
                &&& self.tallies[i].total() <= i128::MAX
            }
        &&& forall|i: int|
            0 <= i < self.voted.len() ==> (#[trigger] self.voted[i]).prop_id
                < self.proposals.len()
    }
}

/// Addition on the clock domain that pins at the largest representable
/// instant instead of wrapping.
pub open spec fn sat_add(a: u64, b: u64) -> u64 {
    if a + b > u64::MAX {
        u64::MAX
    } else {
        (a + b) as u64
    }
}

/// The lease renewal rule applied on every accepted vote: when the lease
/// would lapse within the low watermark, it is extended to the high
/// watermark from now; otherwise it is left alone.
pub open spec fn lease_bump(lease: u64, now: u64) -> u64 {
    if lease < sat_add(now, PERSISTENT_BUMP_AMOUNT_LOW_WATERMARK) {
        sat_add(now, PERSISTENT_BUMP_AMOUNT_HIGH_WATERMARK)
    } else {
        lease
    }
}

/// The committed weight lands in the bucket its choice selects. Callers
/// establish that the addition cannot exceed the bucket type.
pub open spec fn add_to_bucket(t: VotesCount, choice: u32, tokens: i128) -> VotesCount {
    if choice == VOTE_AGAINST {
        VotesCount { against: (t.against + tokens) as i128, ..t }
    } else if choice == VOTE_FOR {
        VotesCount { in_favor: (t.in_favor + tokens) as i128, ..t }
    } else {
        VotesCount { abstain: (t.abstain + tokens) as i128, ..t }
    }
}

/// What `DaoContract::init` does: refuse a second initialization, otherwise
/// persist the core configuration.
pub open spec fn init_step(
    s: DaoView,
    governance_token: u64,
    shareholders: Vec<u64>,
    voting_power: u32,
    min_quorum: i128,
) -> (DaoView, Result<(), GovError>) {
    if s.initialized() {
        (s, Err(GovError::AlreadyInitialized))
    } else {
        (
            s.with_core(
                CoreState {
                    governance_token,
                    shareholders,
                    min_vote_power: voting_power,
                    min_quorum,
                },
            ),
            Ok(()),
        )
    }
}

/// What `DaoContract::create_proposal` does: allocate the next id (assigned
/// ids are exactly `0 .. num_proposals()`), store the proposal with a zero
/// tally, a cleared executed flag and a fresh lease, and return the id.
pub open spec fn create_step(s: DaoView, proposal: Proposal, now: u64) -> (
    DaoView,
    Result<u32, GovError>,
) {
    if !s.initialized() {
        (s, Err(GovError::NotInitialized))
    } else {
        (
            DaoView {
                proposals: s.proposals.push(proposal),
                tallies: s.tallies.push(VotesCount::zero()),
                executed: s.executed.push(false),
                lease: s.lease.push(sat_add(now, PERSISTENT_BUMP_AMOUNT_HIGH_WATERMARK)),
                ..s
            },
            Ok(s.proposals.len() as u32),
        )
    }
}

/// What `DaoContract::vote` does, given the voter's live token balance as
/// queried from the token contract: run the guard chain in order —
/// membership, duplicate vote, asserted power, proposal existence, lease,
/// deadline, balance cover, choice validity — and on success add the
/// committed weight to the chosen bucket, write the anti-replay record, and
/// renew the proposal's lease.
pub open spec fn vote_step(
    s: DaoView,
    voter: u64,
    prop_id: u32,
    power: u32,
    choice: u32,
    tokens: i128,
    balance: i128,
    now: u64,
) -> (DaoView, Result<(), GovError>) {
    if !s.initialized() {
        (s, Err(GovError::NotInitialized))
    } else if !s.is_member(voter) {
        (s, Err(GovError::NotAMember))
    } else if s.has_voted(prop_id, voter) {
        (s, Err(GovError::AlreadyVoted))
    } else if power < s.min_vote_power() {
        (s, Err(GovError::InsufficientVotePower))
    } else if !s.valid_id(prop_id) {
        (s, Err(GovError::ProposalNotFound))
    } else if !s.lease_live(prop_id, now) {
        (s, Err(GovError::EntryArchived))
    } else if s.deadline_passed(prop_id, now) {
        (s, Err(GovError::VotingClosed))
    } else if balance < tokens {
        (s, Err(GovError::TokenAmountSurpassed))
    } else if choice != VOTE_AGAINST && choice != VOTE_FOR && choice != VOTE_ABSTAIN {
        (s, Err(GovError::InvalidChoice))
    } else {
        (
            DaoView {
                tallies: s.tallies.update(
                    prop_id as int,
                    add_to_bucket(s.tallies[prop_id as int], choice, tokens),
                ),
                voted: s.voted.push(VoteRecord { prop_id, voter }),
                lease: s.lease.update(
                    prop_id as int,
                    lease_bump(s.lease[prop_id as int], now),
                ),
                ..s
            },
            Ok(()),
        )
    }
}

/// What `DaoContract::execute` does: run the execution gates in order —
/// proposal existence, lease, deadline passed, quorum, majority, not yet
/// executed — and on success set the executed flag, permanently.
pub open spec fn execute_step(s: DaoView, prop_id: u32, now: u64) -> (
    DaoView,
    Result<bool, GovError>,
) {
    if !s.initialized() {
        (s, Err(GovError::NotInitialized))
    } else if !s.valid_id(prop_id) {
        (s, Err(GovError::ProposalNotFound))
    } else if !s.lease_live(prop_id, now) {
        (s, Err(GovError::EntryArchived))
    } else if !s.deadline_passed(prop_id, now) {
        (s, Err(GovError::TooEarlyToExecute))
    } else if !s.quorum_met(prop_id) {
        (s, Err(GovError::QuorumNotMet))
    } else if !s.passed(prop_id) {
        (s, Err(GovError::ProposalNotPassed))
    } else if s.executed[prop_id as int] {
        (s, Err(GovError::AlreadyExecuted))
    } else {
        (DaoView { executed: s.executed.update(prop_id as int, true), ..s }, Ok(true))
    }
}

/// What `DaoContract::restore_proposal` does: give a lapsed proposal a fresh
/// lease so that it becomes reachable again.
pub open spec fn restore_step(s: DaoView, prop_id: u32, now: u64) -> (
    DaoView,
    Result<(), GovError>,
) {
    if !s.valid_id(prop_id) {
        (s, Err(GovError::ProposalNotFound))
    } else {
        (
            DaoView {
                lease: s.lease.update(
                    prop_id as int,
                    sat_add(now, PERSISTENT_BUMP_AMOUNT_HIGH_WATERMARK),
                ),
                ..s
            },
            Ok(()),
        )
    }
}

/// What `DaoContract::set_min_vote_power` does: update the threshold in the
/// core configuration, leaving everything else alone.
pub open spec fn set_power_step(s: DaoView, power: u32) -> (DaoView, Result<(), GovError>) {
    if !s.initialized() {
        (s, Err(GovError::NotInitialized))
    } else {
        (s.with_core(CoreState { min_vote_power: power, ..s.core->Some_0 }), Ok(()))
    }
}

/// One attempted `vote` call, with everything the engine is handed for it.
pub ghost struct VoteReq {
    pub voter: u64,
    pub prop_id: u32,
    pub power: u32,
    pub choice: u32,
    pub tokens: i128,
    pub balance: i128,
    pub now: u64,
}

pub open spec fn vote_step_req(s: DaoView, q: VoteReq) -> (DaoView, Result<(), GovError>) {
    vote_step(s, q.voter, q.prop_id, q.power, q.choice, q.tokens, q.balance, q.now)
}

/// The state after a whole sequence of attempted votes; rejected attempts
/// leave the state untouched.
pub open spec fn apply_votes(s: DaoView, reqs: Seq<VoteReq>) -> DaoView
    decreases reqs.len(),
{
    if reqs.len() == 0 {
        s
    } else {
        apply_votes(vote_step_req(s, reqs[0]).0, reqs.drop_first())
    }
}

/// The exact weight that the attempts in `reqs` add to the bucket that
/// `choice` selects on proposal `prop_id`: the sum of the committed amounts
/// of exactly the accepted attempts with that proposal and choice.
pub open spec fn accepted_weight(s: DaoView, reqs: Seq<VoteReq>, prop_id: u32, choice: u32) -> int
    decreases reqs.len(),
{
    if reqs.len() == 0 {
        0
    } else {
        (if vote_step_req(s, reqs[0]).1 is Ok && reqs[0].prop_id == prop_id && reqs[0].choice
            == choice {
            reqs[0].tokens as int
        } else {
            0
        }) + accepted_weight(vote_step_req(s, reqs[0]).0, reqs.drop_first(), prop_id, choice)
    }
}

} // verus!
