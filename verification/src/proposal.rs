use vstd::prelude::*;

verus! {

/// A proposal to admit (or top up) the applicant as a member in exchange
/// for a deposit. Identity is its index in the append-only proposal array.
#[derive(Debug)]
pub struct AccessProposal {
    /// The member that submitted the proposal and staked the mortgage.
    pub proposer: u64,
    /// The account to be admitted or topped up.
    pub applicant: u64,
    /// Energy to mint for the applicant on a pass.
    pub energies_requested: u64,
    /// The stake withheld from the proposer, refunded at settlement.
    pub mortgage: u64,
    /// Funds the applicant pre-committed; zeroed when the proposal aborts.
    pub deposit: u64,
    /// First period of the voting window.
    pub starting_period: u64,
    /// Energy-weighted yes tally.
    pub yes_votes: u64,
    /// Energy-weighted no tally.
    pub no_votes: u64,
    /// Whether settlement has happened.
    pub processed: bool,
    /// Settlement outcome: strict majority of yes over no, and not aborted.
    pub did_pass: bool,
    /// Whether the applicant cancelled the proposal.
    pub aborted: bool,
    /// Free-form description.
    pub detail: Vec<u8>,
    /// Accounts that have voted on this proposal.
    pub voters: Vec<u64>,
}

/// Which stage of a project proposal is (or was last) up for a vote.
#[derive(Clone, Copy, Debug, PartialEq, Eq, Structural)]
pub enum ProjectStatus {
    /// The proposal itself is up for a vote; no funds are at stake yet.
    Initialization,
    /// First milestone.
    Milestone1,
    /// Second milestone.
    Milestone2,
    /// Third and final milestone.
    Milestone3,
}

impl Default for ProjectStatus {
    /// A fresh project proposal starts at `Initialization`.
    fn default() -> (r: Self)
        ensures
            r == ProjectStatus::Initialization,
    {
        ProjectStatus::Initialization
    }
}

/// A proposal to release treasury funds to the applicant across three
/// milestones, each settled by its own voting round.
#[derive(Debug)]
pub struct ProjectProposal {
    /// The member that submitted the proposal and staked the mortgage.
    pub proposer: u64,
    /// The account the milestone grants are paid to.
    pub applicant: u64,
    /// The stake withheld from the proposer, refunded when the project
    /// completes its final milestone.
    pub mortgage: u64,
    /// First period of the current round's voting window.
    pub starting_period: u64,
    /// Grant asked for the first milestone.
    pub milestone_1_requested: u64,
    /// Grant asked for the second milestone.
    pub milestone_2_requested: u64,
    /// Grant asked for the third milestone.
    pub milestone_3_requested: u64,
    /// Energy-weighted yes tally of the current round.
    pub yes_votes: u64,
    /// Energy-weighted no tally of the current round.
    pub no_votes: u64,
    /// Whether the current round has been settled.
    pub processed: bool,
    /// The settled round's outcome.
    pub stage_did_pass: bool,
    /// Retry count within the current stage; reset on a stage advance.
    pub round: u64,
    /// No further rounds: set when the final milestone passes.
    pub aborted: bool,
    /// The stage the current (or last settled) round votes on.
    pub status: ProjectStatus,
    /// Free-form description.
    pub detail: Vec<u8>,
    /// Accounts that have voted in the current round.
    pub voters: Vec<u64>,
}

/// The grant at stake when a round at `status` settles: nothing during
/// initialization, else the milestone's requested amount.
pub open spec fn stage_amount(p: ProjectProposal, status: ProjectStatus) -> u64 {
    match status {
        ProjectStatus::Initialization => 0,
        ProjectStatus::Milestone1 => p.milestone_1_requested,
        ProjectStatus::Milestone2 => p.milestone_2_requested,
        ProjectStatus::Milestone3 => p.milestone_3_requested,
    }
}

/// The stage after `status`, when a stage passes and the project moves on.
pub open spec fn next_status(status: ProjectStatus) -> ProjectStatus {
    match status {
        ProjectStatus::Initialization => ProjectStatus::Milestone1,
        ProjectStatus::Milestone1 => ProjectStatus::Milestone2,
        ProjectStatus::Milestone2 => ProjectStatus::Milestone3,
        ProjectStatus::Milestone3 => ProjectStatus::Milestone3,
    }
}

/// Whether the account id is set: the default identity stands for "unset".
pub open spec fn account_is_set(account: u64) -> bool {
    account != 0
}

/// Whether `who` already stands in a round's voter list.
pub fn voters_contain(voters: &Vec<u64>, who: u64) -> (r: bool)
    ensures
        r == voters@.contains(who),
{
    let n = voters.len();
    let mut i: usize = 0;
    while i < n
        invariant
            i <= n,
            n == voters@.len(),
            forall|j: int| 0 <= j < i ==> voters@[j] != who,
        decreases n - i,
    {
        if voters[i] == who {
            assert(voters@[i as int] == who);
            return true;
        }
        i = i + 1;
    }
    false
}

} // verus!
