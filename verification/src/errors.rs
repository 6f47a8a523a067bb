use vstd::prelude::*;

verus! {

/// Why an operation was refused. A refused operation leaves the state
/// untouched: every mutating call either fully applies or fully fails.
#[derive(Clone, Copy, Debug, PartialEq, Eq, Structural)]
pub enum Error {
    /// The organization has already been summoned.
    AlreadySummoned,
    /// The caller is not a member (no record, or zero energy).
    NotMember,
    /// The applicant account is the unset (default) identity.
    ApplicantUnset,
    /// The applicant's standing allowance does not cover the deposit.
    InsufficientAllowance,
    /// An account balance does not cover a withdrawal.
    InsufficientBalance,
    /// A checked addition, subtraction or counter bump would wrap.
    Overflow,
    /// No proposal exists at the given index.
    BadIndex,
    /// The current period is outside the proposal's voting window.
    NotInVotePeriod,
    /// The proposal has been aborted (or, for projects, finished).
    ProposalAborted,
    /// The caller already voted on this proposal in this round.
    AlreadyVoted,
    /// Only the applicant of the proposal may do this.
    NotApplicant,
    /// The proposal has already been settled.
    AlreadyProcessed,
    /// The abort window of the proposal has closed.
    AbortWindowPassed,
    /// The proposal's current round has not been settled yet.
    NotProcessed,
    /// The project has already passed its final milestone.
    ProjectDone,
    /// Zero energy was offered for burning.
    ZeroBurn,
    /// The member holds less energy than the amount to burn.
    InsufficientEnergy,
    /// The highest-index proposal the member voted yes on is still pending.
    PendingYesVote,
    /// The Free pool does not cover the next milestone's reservation.
    InsufficientFreePool,
    /// A credit was owed to an account that does not exist.
    AccountNotFound,
    /// The configuration's period duration is zero.
    ZeroPeriodDuration,
}

} // verus!
