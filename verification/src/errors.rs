use vstd::prelude::*;

verus! {

/// Every way a governance call can fail.
///
/// Precondition errors (`NotInitialized`, `AlreadyInitialized`,
/// `ProposalNotFound`, `AlreadyVoted`, `AlreadyExecuted`) and eligibility
/// errors (`NotAMember`, `InsufficientVotePower`, `TokenAmountSurpassed`,
/// `InvalidChoice`) are fatal to the current call. Timing errors
/// (`VotingClosed`, `TooEarlyToExecute`) depend only on the clock value the
/// caller passes in and may succeed on a later call. `EntryArchived` marks a
/// proposal whose storage lease has lapsed; it must be restored explicitly
/// before further interaction.
#[derive(Clone, Copy, PartialEq, Eq, Structural, Debug)]
pub enum GovError {
    NotInitialized,
    AlreadyInitialized,
    ProposalNotFound,
    NotAMember,
    AlreadyVoted,
    InsufficientVotePower,
    VotingClosed,
    TokenAmountSurpassed,
    InvalidChoice,
    TooEarlyToExecute,
    QuorumNotMet,
    ProposalNotPassed,
    AlreadyExecuted,
    EntryArchived,
}

} // verus!
