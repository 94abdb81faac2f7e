use vstd::prelude::*;

verus! {

/// Vote choice selector: add the committed weight to the `against` bucket.
pub const VOTE_AGAINST: u32 = 0;

/// Vote choice selector: add the committed weight to the `in_favor` bucket.
pub const VOTE_FOR: u32 = 1;

/// Vote choice selector: add the committed weight to the `abstain` bucket.
pub const VOTE_ABSTAIN: u32 = 2;

/// One execution instruction of a proposal: a target contract, a function
/// selector, and a positional argument list. Addresses and selectors are
/// plain identifiers here; the host glue translates them to whatever handle
/// type its environment uses.
pub struct ProposalInstr {
    pub c_id: u64,
    pub fun_name: String,
    pub args: Vec<i128>,
}

/// An immutable proposal: an ordered batch of execution instructions and a
/// voting deadline (a wall-clock / ledger timestamp). Voting is open while
/// the clock has not passed the deadline; execution is possible only after.
pub struct Proposal {
    pub instr: Vec<ProposalInstr>,
    pub deadline: u64,
}

/// Per-proposal running totals of weighted votes, one bucket per choice.
/// Buckets only ever grow; there is no vote revocation.
#[derive(Clone, Copy, PartialEq, Eq, Structural, Debug)]
pub struct VotesCount {
    pub against: i128,
    pub in_favor: i128,
    pub abstain: i128,
}

/// The write-once anti-replay record: this voter has voted on this proposal.
#[derive(Clone, Copy, PartialEq, Eq, Structural, Debug)]
pub struct VoteRecord {
    pub prop_id: u32,
    pub voter: u64,
}

impl VotesCount {
    /// The all-zero tally a fresh proposal starts from.
    pub open spec fn zero() -> VotesCount {
        VotesCount { against: 0, in_favor: 0, abstain: 0 }
    }

    /// Total weight cast across all three buckets; this is what the quorum
    /// test compares against the configured minimum.
    pub open spec fn total(self) -> int {
        self.against + self.in_favor + self.abstain
    }
}

} // verus!
