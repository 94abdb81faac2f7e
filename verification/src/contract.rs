use vstd::prelude::*;

use crate::core_state::can_init_contract;
use crate::core_state::set_core_state;
use crate::core_state::CoreState;
use crate::core_state::PERSISTENT_BUMP_AMOUNT_HIGH_WATERMARK;
use crate::core_state::PERSISTENT_BUMP_AMOUNT_LOW_WATERMARK;
use crate::errors::GovError;
use crate::model::create_step;
use crate::model::execute_step;
use crate::model::init_step;
use crate::model::lease_bump;
use crate::model::restore_step;
use crate::model::sat_add;
use crate::model::set_power_step;
use crate::model::vote_step;
use crate::model::DaoView;
use crate::proposal::Proposal;
use crate::proposal::ProposalInstr;
use crate::proposal::VoteRecord;
use crate::proposal::VotesCount;
use crate::proposal::VOTE_ABSTAIN;
use crate::proposal::VOTE_AGAINST;
use crate::proposal::VOTE_FOR;

verus! {

/// One deployment of the governance engine, holding the whole persisted key
/// space as plain values: the singleton core configuration and, per
/// proposal id, the proposal, its tally, its vote records, its executed
/// flag and its lease expiry.
///
/// Every entry point whose outcome depends on outside data takes that data
/// as an argument: `now` is the ledger clock at call time, `balance` in
/// `vote` is the voter's live balance as queried from the token contract,
/// and the instruction batch that `execute` authorizes is dispatched by the
/// caller between `execution_batch` and `execute`.
pub struct DaoContract {
    pub core: Option<CoreState>,
    pub proposals: Vec<Proposal>,
    pub tallies: Vec<VotesCount>,
    pub voted: Vec<VoteRecord>,
    pub executed: Vec<bool>,
    pub lease: Vec<u64>,
}

impl View for DaoContract {
    type V = DaoView;

    open spec fn view(&self) -> DaoView {
        DaoView {
            core: self.core,
            proposals: self.proposals@,
            tallies: self.tallies@,
            voted: self.voted@,
            executed: self.executed@,
            lease: self.lease@,
        }
    }
}

/// Linear membership scan; the shareholder set is small and fixed.
fn contains_u64(v: &Vec<u64>, x: u64) -> (r: bool)
    ensures
        r == v@.contains(x),
{
    let mut i: usize = 0;
    while i < v.len()
        invariant
            0 <= i <= v@.len(),
            forall|j: int| 0 <= j < i ==> v@[j] != x,
        decreases v@.len() - i,
    {
        if v[i] == x {
            proof {
                assert(v@[i as int] == x);
            }
            return true;
        }
        i = i + 1;
    }
    proof {
        assert(forall|j: int| 0 <= j < v@.len() ==> v@[j] != x);
    }
    false
}

/// The exec counterpart of `sat_add`: clock addition that pins at the
/// largest representable instant.
fn sat_add_clock(a: u64, b: u64) -> (r: u64)
    ensures
        r == sat_add(a, b),
{
    if a > u64::MAX - b {
        u64::MAX
    } else {
        a + b
    }
}

/// The exec counterpart of `lease_bump`.
fn bump_lease(lease: u64, now: u64) -> (r: u64)
    ensures
        r == lease_bump(lease, now),
{
    let low: u64 = sat_add_clock(now, PERSISTENT_BUMP_AMOUNT_LOW_WATERMARK);
    if lease < low {
        sat_add_clock(now, PERSISTENT_BUMP_AMOUNT_HIGH_WATERMARK)
    } else {
        lease
    }
}

impl DaoContract {
    /// A fresh deployment: uninitialized, with no proposals.
    pub fn new() -> (dao: DaoContract)
        ensures
            dao@ == DaoView::empty(),
            dao@.wf(),
    {
        DaoContract {
            core: None,
            proposals: Vec::new(),
            tallies: Vec::new(),
            voted: Vec::new(),
            executed: Vec::new(),
            lease: Vec::new(),
        }
    }

    /// Initializes the deployment with its governance-token reference (the
    /// token itself is deployed by the caller beforehand), the fixed
    /// shareholder set, the minimum voting power, and the quorum threshold.
    ///
    /// A second call always fails with `AlreadyInitialized`, whatever its
    /// arguments, and leaves the state untouched.
    pub fn init(
        &mut self,
        governance_token: u64,
        shareholders: Vec<u64>,
        voting_power: u32,
        min_quorum: i128,
    ) -> (r: Result<(), GovError>)
        ensures
            final(self)@ == init_step(
                old(self)@,
                governance_token,
                shareholders,
                voting_power,
                min_quorum,
            ).0,
            r == init_step(old(self)@, governance_token, shareholders, voting_power, min_quorum).1,
            old(self)@.initialized() ==> r == Err::<(), GovError>(GovError::AlreadyInitialized)
                && final(self)@ == old(self)@,
            !old(self)@.initialized() ==> r is Ok && final(self)@.initialized(),
            old(self)@.wf() ==> final(self)@.wf(),
    {
        match can_init_contract(self) {
            Ok(()) => {},
            Err(e) => {
                return Err(e);
            },
        }
        set_core_state(
            self,
            CoreState {
                governance_token,
                shareholders,
                min_vote_power: voting_power,
                min_quorum,
            },
        );
        Ok(())
    }

    /// Membership test against the shareholder set; `false` while the
    /// deployment is uninitialized.
    pub fn is_member(&self, who: u64) -> (r: bool)
        ensures
            r == self@.is_member(who),
    {
        match &self.core {
            Some(c) => contains_u64(&c.shareholders, who),
            None => false,
        }
    }

    /// The configured minimum voting power.
    pub fn min_vote_power(&self) -> (r: Result<u32, GovError>)
        ensures
            self@.initialized() ==> r == Ok::<u32, GovError>(self@.min_vote_power()),
            !self@.initialized() ==> r == Err::<u32, GovError>(GovError::NotInitialized),
    {
        match &self.core {
            Some(c) => Ok(c.min_vote_power),
            None => Err(GovError::NotInitialized),
        }
    }

    /// Updates the minimum voting power; the one piece of the core
    /// configuration that may change after initialization.
    pub fn set_min_vote_power(&mut self, power: u32) -> (r: Result<(), GovError>)
        ensures
            final(self)@ == set_power_step(old(self)@, power).0,
            r == set_power_step(old(self)@, power).1,
            old(self)@.wf() ==> final(self)@.wf(),
    {
        match &mut self.core {
            Some(c) => {
                c.min_vote_power = power;
                Ok(())
            },
            None => Err(GovError::NotInitialized),
        }
    }

    /// Allocates the next proposal id — ids start at 0 and go up by exactly
    /// 1, and an id is never reused — and stores the proposal with a zero
    /// tally, a cleared executed flag and a fresh lease.
    ///
    /// No eligibility check is made on `author` here: gating proposal
    /// creation is an extension point, and the author is recorded nowhere
    /// in this version.
    #[allow(unused_variables)]
    pub fn create_proposal(&mut self, author: u64, proposal: Proposal, now: u64) -> (r: Result<
        u32,
        GovError,
    >)
        requires
            old(self)@.wf(),
            old(self)@.num_proposals() < u32::MAX,
        ensures
            final(self)@ == create_step(old(self)@, proposal, now).0,
            r == create_step(old(self)@, proposal, now).1,
            final(self)@.wf(),
            r is Err ==> final(self)@ == old(self)@,
            r is Ok ==> r->Ok_0 == old(self)@.num_proposals() && final(self)@.num_proposals()
                == old(self)@.num_proposals() + 1,
    {
        if self.core.is_none() {
            return Err(GovError::NotInitialized);
        }
        let id: u32 = self.proposals.len() as u32;
        let lease: u64 = sat_add_clock(now, PERSISTENT_BUMP_AMOUNT_HIGH_WATERMARK);
        self.proposals.push(proposal);
        self.tallies.push(VotesCount { against: 0, in_favor: 0, abstain: 0 });
        self.executed.push(false);
        self.lease.push(lease);
        Ok(id)
    }

    /// Looks a proposal up by id; fails with `ProposalNotFound` for an id
    /// that was never assigned.
    pub fn get_proposal(&self, prop_id: u32) -> (r: Result<&Proposal, GovError>)
        ensures
            self@.valid_id(prop_id) ==> (r matches Ok(p) && *p == self@.proposals[prop_id as int]),
            !self@.valid_id(prop_id) ==> r == Err::<&Proposal, GovError>(GovError::ProposalNotFound),
    {
        if (prop_id as usize) < self.proposals.len() {
            Ok(&self.proposals[prop_id as usize])
        } else {
            Err(GovError::ProposalNotFound)
        }
    }

    /// Casts a weighted vote. `balance` is the voter's live token balance,
    /// queried from the token contract by the caller immediately before this
    /// call; `now` is the ledger clock. The guards run in order: membership,
    /// duplicate vote, asserted power, proposal existence, lease, deadline,
    /// balance cover, choice validity. On success the committed amount is
    /// added to the chosen bucket, the anti-replay record is written, and
    /// the proposal's lease is renewed.
    pub fn vote(
        &mut self,
        voter: u64,
        prop_id: u32,
        power: u32,
        choice: u32,
        tokens: i128,
        balance: i128,
        now: u64,
    ) -> (r: Result<(), GovError>)
        requires
            old(self)@.wf(),
            0 <= tokens,
            old(self)@.valid_id(prop_id) ==> old(self)@.tally(prop_id).total() + tokens
                <= i128::MAX,
        ensures
            final(self)@ == vote_step(
                old(self)@,
                voter,
                prop_id,
                power,
                choice,
                tokens,
                balance,
                now,
            ).0,
            r == vote_step(old(self)@, voter, prop_id, power, choice, tokens, balance, now).1,
            final(self)@.wf(),
            r is Err ==> final(self)@ == old(self)@,
            r is Ok ==> final(self)@.has_voted(prop_id, voter),
            old(self)@.has_voted(prop_id, voter) && old(self)@.is_member(voter) ==> r == Err::<
                (),
                GovError,
            >(GovError::AlreadyVoted),
    {
        let mvp: u32 = match &self.core {
            Some(c) => c.min_vote_power,
            None => {
                return Err(GovError::NotInitialized);
            },
        };
        if !self.is_member(voter) {
            return Err(GovError::NotAMember);
        }
        if self.have_voted(prop_id, voter) {
            return Err(GovError::AlreadyVoted);
        }
        if power < mvp {
            return Err(GovError::InsufficientVotePower);
        }
        if !((prop_id as usize) < self.proposals.len()) {
            return Err(GovError::ProposalNotFound);
        }
        let idx: usize = prop_id as usize;
        let lease_val: u64 = self.lease[idx];
        if now > lease_val {
            return Err(GovError::EntryArchived);
        }
        if now > self.proposals[idx].deadline {
            return Err(GovError::VotingClosed);
        }
        if balance < tokens {
            return Err(GovError::TokenAmountSurpassed);
        }
        if choice != VOTE_AGAINST && choice != VOTE_FOR && choice != VOTE_ABSTAIN {
            return Err(GovError::InvalidChoice);
        }
        let mut t: VotesCount = self.tallies[idx];
        if choice == VOTE_AGAINST {
            t.against = t.against + tokens;
        } else if choice == VOTE_FOR {
            t.in_favor = t.in_favor + tokens;
        } else {
            t.abstain = t.abstain + tokens;
        }
        self.tallies[idx] = t;
        self.voted.push(VoteRecord { prop_id, voter });
        self.lease[idx] = bump_lease(lease_val, now);
        proof {
            assert(self.voted@[self.voted@.len() - 1] == (VoteRecord { prop_id, voter }));
        }
        Ok(())
    }

    /// Read-only tally snapshot for a proposal.
    pub fn get_votes(&self, prop_id: u32) -> (r: Result<VotesCount, GovError>)
        requires
            self@.wf(),
        ensures
            self@.valid_id(prop_id) ==> r == Ok::<VotesCount, GovError>(self@.tally(prop_id)),
            !self@.valid_id(prop_id) ==> r == Err::<VotesCount, GovError>(
                GovError::ProposalNotFound,
            ),
    {
        if (prop_id as usize) < self.tallies.len() {
            Ok(self.tallies[prop_id as usize])
        } else {
            Err(GovError::ProposalNotFound)
        }
    }

    /// Whether this voter has already cast a vote on this proposal.
    pub fn have_voted(&self, prop_id: u32, voter: u64) -> (r: bool)
        ensures
            r == self@.has_voted(prop_id, voter),
    {
        let mut i: usize = 0;
        while i < self.voted.len()
            invariant
                0 <= i <= self.voted@.len(),
                forall|j: int|
                    0 <= j < i ==> self.voted@[j] != (VoteRecord { prop_id, voter }),
            decreases self.voted@.len() - i,
        {
            let rec = self.voted[i];
            if rec.prop_id == prop_id && rec.voter == voter {
                proof {
                    assert(self.voted@[i as int] == (VoteRecord { prop_id, voter }));
                }
                return true;
            }
            i = i + 1;
        }
        proof {
            assert(forall|j: int|
                0 <= j < self.voted@.len() ==> self.voted@[j] != (VoteRecord { prop_id, voter }));
        }
        false
    }

    /// The shared execution gate: proposal existence, lease, deadline
    /// passed, quorum, majority, not yet executed, in that order.
    fn check_execute(&self, prop_id: u32, now: u64) -> (r: Result<(), GovError>)
        requires
            self@.wf(),
        ensures
            (r is Ok) == (execute_step(self@, prop_id, now).1 is Ok),
            r matches Err(e) ==> execute_step(self@, prop_id, now).1 == Err::<bool, GovError>(e),
    {
        let mq: i128 = match &self.core {
            Some(c) => c.min_quorum,
            None => {
                return Err(GovError::NotInitialized);
            },
        };
        if !((prop_id as usize) < self.proposals.len()) {
            return Err(GovError::ProposalNotFound);
        }
        let idx: usize = prop_id as usize;
        if now > self.lease[idx] {
            return Err(GovError::EntryArchived);
        }
        if !(now > self.proposals[idx].deadline) {
            return Err(GovError::TooEarlyToExecute);
        }
        let t: VotesCount = self.tallies[idx];
        let total: i128 = t.against + t.in_favor + t.abstain;
        if total < mq {
            return Err(GovError::QuorumNotMet);
        }
        if !(t.in_favor > t.against) {
            return Err(GovError::ProposalNotPassed);
        }
        if self.executed[idx] {
            return Err(GovError::AlreadyExecuted);
        }
        Ok(())
    }

    /// The instruction batch that `execute` authorizes, behind the full
    /// execution gate. The caller dispatches these instructions, in order,
    /// to their target contracts, and calls `execute` only once the whole
    /// batch has gone through; a failed dispatch aborts the call with
    /// nothing committed.
    pub fn execution_batch(&self, prop_id: u32, now: u64) -> (r: Result<
        &Vec<ProposalInstr>,
        GovError,
    >)
        requires
            self@.wf(),
        ensures
            (r is Ok) == (execute_step(self@, prop_id, now).1 is Ok),
            r matches Ok(b) ==> *b == self@.proposals[prop_id as int].instr,
            r matches Err(e) ==> execute_step(self@, prop_id, now).1 == Err::<bool, GovError>(e),
    {
        match self.check_execute(prop_id, now) {
            Ok(()) => Ok(&self.proposals[prop_id as usize].instr),
            Err(e) => Err(e),
        }
    }

    /// Marks the proposal executed, behind the same gate as
    /// `execution_batch`: deadline passed (`TooEarlyToExecute` otherwise),
    /// quorum met (all three buckets count), For strictly above Against
    /// (ties do not pass), and not already executed. Succeeds at most once
    /// per proposal id; every later call fails with `AlreadyExecuted`.
    pub fn execute(&mut self, prop_id: u32, now: u64) -> (r: Result<bool, GovError>)
        requires
            old(self)@.wf(),
        ensures
            final(self)@ == execute_step(old(self)@, prop_id, now).0,
            r == execute_step(old(self)@, prop_id, now).1,
            final(self)@.wf(),
            r is Err ==> final(self)@ == old(self)@,
            r is Ok ==> r->Ok_0 == true && final(self)@.is_executed(prop_id),
            old(self)@.is_executed(prop_id) ==> r is Err,
    {
        match self.check_execute(prop_id, now) {
            Ok(()) => {},
            Err(e) => {
                return Err(e);
            },
        }
        let idx: usize = prop_id as usize;
        self.executed[idx] = true;
        Ok(true)
    }

    /// The out-of-band administrative restore: gives a proposal whose lease
    /// has lapsed a fresh lease. Without it, a lapsed proposal rejects every
    /// vote and execution attempt with `EntryArchived`.
    pub fn restore_proposal(&mut self, prop_id: u32, now: u64) -> (r: Result<(), GovError>)
        requires
            old(self)@.wf(),
        ensures
            final(self)@ == restore_step(old(self)@, prop_id, now).0,
            r == restore_step(old(self)@, prop_id, now).1,
            final(self)@.wf(),
    {
        if !((prop_id as usize) < self.proposals.len()) {
            return Err(GovError::ProposalNotFound);
        }
        let idx: usize = prop_id as usize;
        self.lease[idx] = sat_add_clock(now, PERSISTENT_BUMP_AMOUNT_HIGH_WATERMARK);
        Ok(())
    }
}

} // verus!
