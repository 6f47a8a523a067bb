use vstd::prelude::*;

use crate::errors::Error;
use crate::ledger::Ledger;
use crate::proposal::AccessProposal;
use crate::proposal::ProjectProposal;
use crate::proposal::ProjectStatus;
use crate::proposal::account_is_set;
use crate::proposal::next_status;
use crate::proposal::stage_amount;
use crate::proposal::voters_contain;
use crate::roster::Member;
use crate::roster::Roster;
use crate::roster::lemma_member_energy_le_sum;

verus! {

/// Configuration fixed when the organization is created.
#[derive(Clone, Copy, Debug, PartialEq, Eq, Structural)]
pub struct Config {
    /// How many moments one discrete period lasts. Must be positive.
    pub period_duration: u64,
    /// Length of every voting window, in periods.
    pub voting_period_length: u64,
    /// How many periods after its starting period an access proposal may
    /// still be aborted.
    pub abort_window: u64,
    /// The fixed stake withheld from every proposer.
    pub proposal_mortgage: u64,
}

/// The whole state of the organization: treasury pools, membership,
/// proposals, queues, and the modeled monetary sub-ledger. Every operation
/// takes the state by exclusive reference and either fully applies or
/// fully fails.
pub struct Module {
    /// Immutable configuration.
    pub config: Config,
    /// The monetary sub-ledger: per-account free balances.
    pub bank: Ledger,
    /// Each applicant's standing allowance towards deposits.
    pub allowances: Ledger,
    /// Funds the organization may spend or redeem.
    pub free_pool: u64,
    /// Stakes withheld from proposers, owed back at settlement.
    pub mortgage_pool: u64,
    /// Deposits held for open access proposals.
    pub deposit_pool: u64,
    /// Funds reserved for approved-but-unpaid milestones.
    pub grant_locked_pool: u64,
    /// Sum of all members' energy.
    pub total_energies: u64,
    /// Energy asked by access proposals not yet settled.
    pub total_energies_requested: u64,
    /// The membership ledger.
    pub members: Roster,
    /// Access proposals, append-only, settled in submission order.
    pub access_proposals: Vec<AccessProposal>,
    /// How many access proposals have been settled; also the index of the
    /// next one to settle.
    pub processed_access_count: usize,
    /// Project proposals, append-only.
    pub project_proposals: Vec<ProjectProposal>,
    /// Indices of project proposals awaiting a voting-period decision, in
    /// enqueue order; positions before `queue_head` are already settled.
    pub queue: Vec<u32>,
    /// First live position of `queue`.
    pub queue_head: usize,
    /// The account that summoned the organization, once set.
    pub summoner: Option<u64>,
    /// The moment the organization was summoned.
    pub summoning_time: u64,
    /// Every unit of funds ever withdrawn from an account into a pool.
    pub total_inflow: Ghost<int>,
}

impl Module {
    /// Sum of the four treasury pools.
    pub open spec fn pools_total(self) -> int {
        self.free_pool + self.mortgage_pool + self.deposit_pool + self.grant_locked_pool
    }

    /// The discrete period a moment falls in.
    pub open spec fn spec_current_period(self, now: u64) -> u64 {
        now / self.config.period_duration
    }

    /// Whether `now` falls inside the voting window that opens at
    /// `starting_period` and lasts `voting_period_length` periods.
    pub open spec fn spec_in_vote_period(self, now: u64, starting_period: u64) -> bool {
        starting_period <= self.spec_current_period(now) && self.spec_current_period(now)
            < starting_period + self.config.voting_period_length
    }

    /// Whether the voting window that opens at `starting_period` lies
    /// wholly in the past at `now`.
    pub open spec fn spec_voting_period_expired(self, now: u64, starting_period: u64) -> bool {
        self.spec_current_period(now) >= starting_period + self.config.voting_period_length
    }

    /// Every invariant the operations preserve:
    /// - the period duration is positive;
    /// - the roster is well-formed and `total_energies` is exactly the sum
    ///   of all members' energy;
    /// - the four pools together never exceed the funds ever taken in;
    /// - settled access proposals are exactly the prefix below
    ///   `processed_access_count`;
    /// - the project queue's entries point into the proposal array and its
    ///   head has not run past its tail;
    /// - before the organization is summoned, nothing else exists.
    pub open spec fn wf(self) -> bool {
        &&& self.config.period_duration >= 1
        &&& self.members.wf()
        &&& self.total_energies == self.members.total()
        &&& self.pools_total() <= self.total_inflow@
        &&& self.access_proposals@.len() <= u32::MAX
        &&& self.project_proposals@.len() <= u32::MAX
        &&& self.processed_access_count <= self.access_proposals@.len()
        &&& forall|i: int|
            0 <= i < self.access_proposals@.len() ==> (#[trigger] self.access_proposals@[i].processed
                <==> i < self.processed_access_count)
        &&& self.queue_head <= self.queue@.len()
        &&& forall|i: int|
            0 <= i < self.queue@.len() ==> (#[trigger] self.queue@[i] as int)
                < self.project_proposals@.len()
        &&& self.summoner is None ==> self.members.entries@.len() == 0 && self.total_energies == 0
            && self.access_proposals@.len() == 0 && self.project_proposals@.len() == 0
    }

    /// Creation fails only on a zero period duration.
    pub open spec fn new_decision(config: Config) -> Result<(), Error> {
        if config.period_duration == 0 {
            Err(Error::ZeroPeriodDuration)
        } else {
            Ok(())
        }
    }

    /// An organization waiting to be summoned: no members, no proposals,
    /// empty pools, an empty monetary ledger.
    pub fn new(config: Config) -> (r: Result<Module, Error>)
        ensures
            match r {
                Ok(d) => Self::new_decision(config) is Ok && d.wf() && d.config == config
                    && d.summoner is None && d.total_energies == 0 && d.free_pool == 0
                    && d.mortgage_pool == 0 && d.deposit_pool == 0 && d.grant_locked_pool == 0
                    && d.total_energies_requested == 0 && d.access_proposals@.len() == 0
                    && d.project_proposals@.len() == 0 && d.queue@.len() == 0 && d.queue_head == 0
                    && d.processed_access_count == 0 && (forall|w: u64| d.bank.balance(w) == 0)
                    && (forall|w: u64| d.allowances.balance(w) == 0) && (forall|w: u64|
                    d.members.get(w) is None),
                Err(e) => Err::<(), Error>(e) == Self::new_decision(config),
            },
    {
        if config.period_duration == 0 {
            return Err(Error::ZeroPeriodDuration);
        }
        let d = Module {
            config,
            bank: Ledger::new(),
            allowances: Ledger::new(),
            free_pool: 0,
            mortgage_pool: 0,
            deposit_pool: 0,
            grant_locked_pool: 0,
            total_energies: 0,
            total_energies_requested: 0,
            members: Roster::new(),
            access_proposals: Vec::new(),
            processed_access_count: 0,
            project_proposals: Vec::new(),
            queue: Vec::new(),
            queue_head: 0,
            summoner: None,
            summoning_time: 0,
            total_inflow: Ghost(0),
        };
        Ok(d)
    }

    /// The discrete period `now` falls in.
    pub fn get_current_period(&self, now: u64) -> (r: u64)
        requires
            self.config.period_duration >= 1,
        ensures
            r == self.spec_current_period(now),
    {
        now / self.config.period_duration
    }

    /// Whether the voting window that opened at `starting_period` has
    /// wholly elapsed at `now`.
    pub fn has_voting_period_expired(&self, now: u64, starting_period: u64) -> (r: bool)
        requires
            self.config.period_duration >= 1,
        ensures
            r == self.spec_voting_period_expired(now, starting_period),
    {
        let current = self.get_current_period(now);
        current >= starting_period && current - starting_period >= self.config.voting_period_length
    }

    /// Whether `now` falls inside the voting window that opens at
    /// `starting_period`.
    pub fn in_vote_period(&self, now: u64, starting_period: u64) -> (r: bool)
        requires
            self.config.period_duration >= 1,
        ensures
            r == self.spec_in_vote_period(now, starting_period),
    {
        let current = self.get_current_period(now);
        current >= starting_period && !self.has_voting_period_expired(now, starting_period)
    }

    /// Whether the account is a member in force: a record exists and its
    /// energy is positive.
    pub fn is_member(&self, account: u64) -> (r: bool)
        ensures
            r == self.members.is_member_spec(account),
    {
        match self.members.lookup(account) {
            Some(m) => m.energy > 0,
            None => false,
        }
    }

    /// Summoning fails only when it already happened.
    pub open spec fn summon_decision(self, sender: u64) -> Result<(), Error> {
        if self.summoner is Some {
            Err(Error::AlreadySummoned)
        } else {
            Ok(())
        }
    }

    /// Founds the organization: the sender becomes the first member, with
    /// one unit of energy.
    pub fn summon(&mut self, sender: u64, now: u64) -> (r: Result<(), Error>)
        requires
            old(self).wf(),
        ensures
            final(self).wf(),
            r == old(self).summon_decision(sender),
            r is Err ==> *final(self) == *old(self),
            r is Ok ==> *final(self) == (Module {
                summoner: Some(sender),
                summoning_time: now,
                total_energies: 1,
                members: final(self).members,
                ..*old(self)
            }),
            r is Ok ==> final(self).members.get(sender) == Some(
                (Member { energy: 1, highest_index_yes_vote: 0 }),
            ),
            r is Ok ==> forall|w: u64|
                w != sender ==> final(self).members.get(w) == old(self).members.get(w),
            r is Ok ==> final(self).members.entries@.len() == 1,
    {
        if self.summoner.is_some() {
            return Err(Error::AlreadySummoned);
        }
        self.summoner = Some(sender);
        self.summoning_time = now;
        self.total_energies = 1;
        self.members.admit_or_top_up(sender, 1);
        Ok(())
    }

    /// Recording an allowance always succeeds.
    pub open spec fn applicant_approve_decision(self, sender: u64, value: u64) -> Result<
        (),
        Error,
    > {
        Ok(())
    }

    /// The sender sets (overwrites) their standing allowance: the amount a
    /// future access proposal may commit from their balance as a deposit.
    pub fn applicant_approve(&mut self, sender: u64, value: u64) -> (r: Result<(), Error>)
        requires
            old(self).wf(),
        ensures
            final(self).wf(),
            r == old(self).applicant_approve_decision(sender, value),
            *final(self) == (Module { allowances: final(self).allowances, ..*old(self) }),
            final(self).allowances.balance(sender) == value,
            forall|w: u64|
                w != sender ==> final(self).allowances.balance(w) == old(self).allowances.balance(
                    w,
                ),
    {
        self.allowances.set(sender, value);
        Ok(())
    }

    /// A donation fails when the Free pool would wrap, or when the donor's
    /// balance does not cover it.
    pub open spec fn donate_decision(self, sender: u64, value: u64) -> Result<(), Error> {
        if self.free_pool + value > u64::MAX {
            Err(Error::Overflow)
        } else if self.bank.balance(sender) < value {
            Err(Error::InsufficientBalance)
        } else {
            Ok(())
        }
    }

    /// Moves `value` from the sender's balance into the Free pool.
    pub fn donate(&mut self, sender: u64, value: u64) -> (r: Result<(), Error>)
        requires
            old(self).wf(),
        ensures
            final(self).wf(),
            r == old(self).donate_decision(sender, value),
            r is Err ==> *final(self) == *old(self),
            r is Ok ==> *final(self) == (Module {
                free_pool: (old(self).free_pool + value) as u64,
                bank: final(self).bank,
                total_inflow: final(self).total_inflow,
                ..*old(self)
            }),
            r is Ok ==> final(self).bank.balance(sender) == old(self).bank.balance(sender) - value,
            r is Ok ==> forall|w: u64|
                w != sender ==> final(self).bank.balance(w) == old(self).bank.balance(w),
            r is Ok ==> forall|w: u64| final(self).bank.contains(w) == old(self).bank.contains(w),
            r is Ok ==> final(self).total_inflow@ == old(self).total_inflow@ + value,
    {
        if self.free_pool > u64::MAX - value {
            return Err(Error::Overflow);
        }
        let bal = self.bank.balance_of(sender);
        if bal < value {
            return Err(Error::InsufficientBalance);
        }
        self.bank.debit(sender, value);
        self.free_pool = self.free_pool + value;
        self.total_inflow = Ghost(self.total_inflow@ + value);
        Ok(())
    }

    /// Endowment by the host: credits an account's free balance outside
    /// the organization's pools, creating the account when absent. Models
    /// the monetary collaborator's unconditional credit.
    pub fn deposit_creating(&mut self, account: u64, value: u64) -> (r: Result<(), Error>)
        requires
            old(self).wf(),
        ensures
            final(self).wf(),
            r is Err <==> old(self).bank.balance(account) + value > u64::MAX,
            r is Err ==> r == Err::<(), Error>(Error::Overflow) && *final(self) == *old(self),
            r is Ok ==> *final(self) == (Module { bank: final(self).bank, ..*old(self) }),
            r is Ok ==> final(self).bank.balance(account) == old(self).bank.balance(account)
                + value,
            r is Ok ==> forall|w: u64|
                w != account ==> final(self).bank.balance(w) == old(self).bank.balance(w),
            r is Ok ==> final(self).bank.contains(account),
            r is Ok ==> forall|w: u64|
                w != account ==> final(self).bank.contains(w) == old(self).bank.contains(w),
    {
        let bal = self.bank.balance_of(account);
        if bal > u64::MAX - value {
            return Err(Error::Overflow);
        }
        self.bank.credit(account, value);
        Ok(())
    }

    /// The balance the monetary sub-ledger holds for an account.
    pub fn balance_of(&self, account: u64) -> (r: u64)
        ensures
            r == self.bank.balance(account),
    {
        self.bank.balance_of(account)
    }

    /// The starting period a new access proposal gets: the current period,
    /// bumped past the youngest proposal's starting period when that one
    /// lies in the future.
    pub open spec fn next_access_starting_period(self, now: u64) -> int {
        let cur = self.spec_current_period(now) as int;
        let n = self.access_proposals@.len() as int;
        if n == 0 {
            cur
        } else {
            let last = self.access_proposals@[n - 1].starting_period as int;
            if last >= cur {
                last + 1
            } else {
                cur
            }
        }
    }

    /// Why (or that) an access proposal submission goes through. Checks run
    /// in this order; the first failing one names the error, and nothing
    /// changes on an error.
    pub open spec fn submit_access_decision(
        self,
        sender: u64,
        applicant: u64,
        deposit: u64,
        energies_requested: u64,
        now: u64,
    ) -> Result<(), Error> {
        if !self.members.is_member_spec(sender) {
            Err(Error::NotMember)
        } else if !account_is_set(applicant) {
            Err(Error::ApplicantUnset)
        } else if self.allowances.balance(applicant) < deposit {
            Err(Error::InsufficientAllowance)
        } else if self.total_energies_requested + energies_requested > u64::MAX {
            Err(Error::Overflow)
        } else if deposit > 0 && self.deposit_pool + deposit > u64::MAX {
            Err(Error::Overflow)
        } else if self.next_access_starting_period(now) > u64::MAX {
            Err(Error::Overflow)
        } else if self.mortgage_pool + self.config.proposal_mortgage > u64::MAX {
            Err(Error::Overflow)
        } else if self.access_proposals@.len() == u32::MAX {
            Err(Error::Overflow)
        } else if deposit > 0 && self.bank.balance(applicant) < deposit {
            Err(Error::InsufficientBalance)
        } else if self.bank.balance(sender) - (
        if deposit > 0 && sender == applicant {
            deposit as int
        } else {
            0
        }) < self.config.proposal_mortgage {
            Err(Error::InsufficientBalance)
        } else {
            Ok(())
        }
    }

    /// Submits an access proposal: the applicant's deposit (if any) moves
    /// into the Deposit pool, the proposer's mortgage into the Mortgage
    /// pool, and the proposal joins the end of the array, to be settled in
    /// submission order.
    pub fn submit_access_proposal(
        &mut self,
        sender: u64,
        applicant: u64,
        deposit: u64,
        energies_requested: u64,
        detail: Vec<u8>,
        now: u64,
    ) -> (r: Result<(), Error>)
        requires
            old(self).wf(),
        ensures
            final(self).wf(),
            r == old(self).submit_access_decision(sender, applicant, deposit, energies_requested, now),
            r is Err ==> *final(self) == *old(self),
            r is Ok ==> *final(self) == (Module {
                deposit_pool: (old(self).deposit_pool + deposit) as u64,
                mortgage_pool: (old(self).mortgage_pool + old(self).config.proposal_mortgage) as u64,
                total_energies_requested: (old(self).total_energies_requested
                    + energies_requested) as u64,
                access_proposals: final(self).access_proposals,
                allowances: final(self).allowances,
                bank: final(self).bank,
                total_inflow: final(self).total_inflow,
                ..*old(self)
            }),
            r is Ok ==> final(self).access_proposals@.len() == old(self).access_proposals@.len()
                + 1,
            r is Ok ==> forall|j: int|
                0 <= j < old(self).access_proposals@.len() ==> final(self).access_proposals@[j]
                    == old(self).access_proposals@[j],
            r is Ok ==> ({
                let p = final(self).access_proposals@.last();
                &&& p.proposer == sender
                &&& p.applicant == applicant
                &&& p.energies_requested == energies_requested
                &&& p.mortgage == old(self).config.proposal_mortgage
                &&& p.deposit == deposit
                &&& p.starting_period == old(self).next_access_starting_period(now)
                &&& p.yes_votes == 0
                &&& p.no_votes == 0
                &&& !p.processed
                &&& !p.did_pass
                &&& !p.aborted
                &&& p.detail == detail
                &&& p.voters@.len() == 0
            }),
            r is Ok ==> final(self).allowances.balance(applicant) == old(self).allowances.balance(
                applicant,
            ) - deposit,
            r is Ok ==> forall|w: u64|
                w != applicant ==> final(self).allowances.balance(w) == old(self).allowances.balance(w),
            r is Ok ==> forall|w: u64|
                final(self).bank.balance(w) as int == old(self).bank.balance(w) - (
                if w == applicant && deposit > 0 {
                    deposit as int
                } else {
                    0
                }) - (
                if w == sender {
                    old(self).config.proposal_mortgage as int
                } else {
                    0
                }),
            r is Ok ==> forall|w: u64| final(self).bank.contains(w) == old(self).bank.contains(w),
            r is Ok ==> final(self).total_inflow@ == old(self).total_inflow@ + deposit + old(self).config.proposal_mortgage,
    {
        if !self.is_member(sender) {
            return Err(Error::NotMember);
        }
        if applicant == 0 {
            return Err(Error::ApplicantUnset);
        }
        if self.allowances.balance_of(applicant) < deposit {
            return Err(Error::InsufficientAllowance);
        }
        if self.total_energies_requested > u64::MAX - energies_requested {
            return Err(Error::Overflow);
        }
        if deposit > 0 && self.deposit_pool > u64::MAX - deposit {
            return Err(Error::Overflow);
        }
        let current = self.get_current_period(now);
        let n = self.access_proposals.len();
        let mut starting_period = current;
        if n != 0 {
            let last = self.access_proposals[n - 1].starting_period;
            if last >= current {
                if last == u64::MAX {
                    return Err(Error::Overflow);
                }
                starting_period = last + 1;
            }
        }
        if self.mortgage_pool > u64::MAX - self.config.proposal_mortgage {
            return Err(Error::Overflow);
        }
        if n == u32::MAX as usize {
            return Err(Error::Overflow);
        }
        let mortgage = self.config.proposal_mortgage;
        if deposit > 0 && self.bank.balance_of(applicant) < deposit {
            return Err(Error::InsufficientBalance);
        }
        let sender_balance = self.bank.balance_of(sender);
        let sender_available = if deposit > 0 && sender == applicant {
            sender_balance - deposit
        } else {
            sender_balance
        };
        if sender_available < mortgage {
            return Err(Error::InsufficientBalance);
        }
        if deposit > 0 {
            self.bank.debit(applicant, deposit);
            let a = self.allowances.balance_of(applicant);
            self.allowances.set(applicant, a - deposit);
            self.deposit_pool = self.deposit_pool + deposit;
        }
        self.bank.debit(sender, mortgage);
        self.mortgage_pool = self.mortgage_pool + mortgage;
        self.total_energies_requested = self.total_energies_requested + energies_requested;
        let proposal = AccessProposal {
            proposer: sender,
            applicant,
            energies_requested,
            mortgage,
            deposit,
            starting_period,
            yes_votes: 0,
            no_votes: 0,
            processed: false,
            did_pass: false,
            aborted: false,
            detail,
            voters: Vec::new(),
        };
        self.access_proposals.push(proposal);
        self.total_inflow = Ghost(self.total_inflow@ + deposit + mortgage);
        Ok(())
    }

    /// Why (or that) a vote on an access proposal goes through.
    pub open spec fn access_vote_decision(self, sender: u64, index: u32, vote: bool, now: u64) -> Result<
        (),
        Error,
    > {
        if index as int >= self.access_proposals@.len() {
            Err(Error::BadIndex)
        } else {
            let p = self.access_proposals@[index as int];
            if !self.spec_in_vote_period(now, p.starting_period) {
                Err(Error::NotInVotePeriod)
            } else if p.aborted {
                Err(Error::ProposalAborted)
            } else if !self.members.is_member_spec(sender) {
                Err(Error::NotMember)
            } else if p.voters@.contains(sender) {
                Err(Error::AlreadyVoted)
            } else if vote && p.yes_votes + self.members.get(sender).unwrap().energy > u64::MAX {
                Err(Error::Overflow)
            } else if !vote && p.no_votes + self.members.get(sender).unwrap().energy > u64::MAX {
                Err(Error::Overflow)
            } else {
                Ok(())
            }
        }
    }

    /// Casts the sender's full current energy as one yes or no vote on an
    /// access proposal, inside its voting window only. A yes vote on an
    /// index above the member's recorded highest raises that record, which
    /// later gates rage-quit.
    pub fn submit_access_vote(&mut self, sender: u64, index: u32, vote: bool, now: u64) -> (r:
        Result<(), Error>)
        requires
            old(self).wf(),
        ensures
            final(self).wf(),
            r == old(self).access_vote_decision(sender, index, vote, now),
            r is Err ==> *final(self) == *old(self),
            r is Ok ==> *final(self) == (Module {
                access_proposals: final(self).access_proposals,
                members: final(self).members,
                ..*old(self)
            }),
            r is Ok ==> final(self).access_proposals@.len() == old(self).access_proposals@.len(),
            r is Ok ==> forall|j: int|
                0 <= j < old(self).access_proposals@.len() && j != index as int ==> final(self).access_proposals@[j] == old(self).access_proposals@[j],
            r is Ok ==> ({
                let p0 = old(self).access_proposals@[index as int];
                let p = final(self).access_proposals@[index as int];
                let energy = old(self).members.get(sender).unwrap().energy;
                &&& p.yes_votes == p0.yes_votes + (if vote {
                    energy as int
                } else {
                    0
                })
                &&& p.no_votes == p0.no_votes + (if vote {
                    0
                } else {
                    energy as int
                })
                &&& p.voters@ == p0.voters@.push(sender)
                &&& p.proposer == p0.proposer
                &&& p.applicant == p0.applicant
                &&& p.energies_requested == p0.energies_requested
                &&& p.mortgage == p0.mortgage
                &&& p.deposit == p0.deposit
                &&& p.starting_period == p0.starting_period
                &&& p.processed == p0.processed
                &&& p.did_pass == p0.did_pass
                &&& p.aborted == p0.aborted
                &&& p.detail == p0.detail
            }),
            r is Ok ==> ({
                let m0 = old(self).members.get(sender).unwrap();
                let raised = vote && index > m0.highest_index_yes_vote;
                final(self).members.get(sender) == Some(
                    (Member {
                        energy: m0.energy,
                        highest_index_yes_vote: if raised {
                            index
                        } else {
                            m0.highest_index_yes_vote
                        },
                    }),
                )
            }),
            r is Ok ==> forall|w: u64|
                w != sender ==> final(self).members.get(w) == old(self).members.get(w),
            r is Ok ==> final(self).members.total() == old(self).members.total(),
            r is Ok ==> final(self).members.entries@.len() == old(self).members.entries@.len(),
    {
        let n = self.access_proposals.len();
        if index as usize >= n {
            return Err(Error::BadIndex);
        }
        let i = index as usize;
        let starting_period = self.access_proposals[i].starting_period;
        if !self.in_vote_period(now, starting_period) {
            return Err(Error::NotInVotePeriod);
        }
        if self.access_proposals[i].aborted {
            return Err(Error::ProposalAborted);
        }
        let member = match self.members.lookup(sender) {
            Some(m) => m,
            None => {
                return Err(Error::NotMember);
            },
        };
        if member.energy == 0 {
            return Err(Error::NotMember);
        }
        if voters_contain(&self.access_proposals[i].voters, sender) {
            return Err(Error::AlreadyVoted);
        }
        if vote {
            if self.access_proposals[i].yes_votes > u64::MAX - member.energy {
                return Err(Error::Overflow);
            }
        } else {
            if self.access_proposals[i].no_votes > u64::MAX - member.energy {
                return Err(Error::Overflow);
            }
        }
        let p = &mut self.access_proposals[i];
        if vote {
            p.yes_votes = p.yes_votes + member.energy;
        } else {
            p.no_votes = p.no_votes + member.energy;
        }
        p.voters.push(sender);
        if vote && index > member.highest_index_yes_vote {
            self.members.set_highest_yes(sender, index);
        }
        Ok(())
    }

    /// Whether `now` still falls inside the abort window that opens at
    /// `starting_period`.
    pub open spec fn spec_in_abort_window(self, now: u64, starting_period: u64) -> bool {
        self.spec_current_period(now) < starting_period + self.config.abort_window
    }

    /// Why (or that) an abort of an access proposal goes through.
    pub open spec fn abort_access_decision(self, sender: u64, index: u32, now: u64) -> Result<
        (),
        Error,
    > {
        if index as int >= self.access_proposals@.len() {
            Err(Error::BadIndex)
        } else {
            let p = self.access_proposals@[index as int];
            if sender != p.applicant {
                Err(Error::NotApplicant)
            } else if p.aborted {
                Err(Error::ProposalAborted)
            } else if p.processed {
                Err(Error::AlreadyProcessed)
            } else if !self.spec_in_abort_window(now, p.starting_period) {
                Err(Error::AbortWindowPassed)
            } else if p.deposit > 0 && self.deposit_pool < p.deposit {
                Err(Error::Overflow)
            } else if p.deposit > 0 && !self.bank.contains(p.applicant) {
                Err(Error::AccountNotFound)
            } else if p.deposit > 0 && self.bank.balance(p.applicant) + p.deposit > u64::MAX {
                Err(Error::Overflow)
            } else {
                Ok(())
            }
        }
    }

    /// The applicant cancels their own access proposal inside the abort
    /// window: the held deposit (if any) leaves the Deposit pool and goes
    /// straight back to them; the proposer's mortgage stays until
    /// settlement.
    pub fn abort_access(&mut self, sender: u64, index: u32, now: u64) -> (r: Result<(), Error>)
        requires
            old(self).wf(),
        ensures
            final(self).wf(),
            r == old(self).abort_access_decision(sender, index, now),
            r is Err ==> *final(self) == *old(self),
            r is Ok ==> *final(self) == (Module {
                deposit_pool: (old(self).deposit_pool - old(self).access_proposals@[index as int].deposit) as u64,
                access_proposals: final(self).access_proposals,
                bank: final(self).bank,
                ..*old(self)
            }),
            r is Ok ==> final(self).access_proposals@.len() == old(self).access_proposals@.len(),
            r is Ok ==> forall|j: int|
                0 <= j < old(self).access_proposals@.len() && j != index as int ==> final(self).access_proposals@[j] == old(self).access_proposals@[j],
            r is Ok ==> ({
                let p0 = old(self).access_proposals@[index as int];
                let p = final(self).access_proposals@[index as int];
                &&& p.aborted
                &&& p.deposit == 0
                &&& p.proposer == p0.proposer
                &&& p.applicant == p0.applicant
                &&& p.energies_requested == p0.energies_requested
                &&& p.mortgage == p0.mortgage
                &&& p.starting_period == p0.starting_period
                &&& p.yes_votes == p0.yes_votes
                &&& p.no_votes == p0.no_votes
                &&& p.processed == p0.processed
                &&& p.did_pass == p0.did_pass
                &&& p.detail == p0.detail
                &&& p.voters@ == p0.voters@
            }),
            r is Ok ==> forall|w: u64|
                final(self).bank.balance(w) as int == old(self).bank.balance(w) + (
                if w == old(self).access_proposals@[index as int].applicant {
                    old(self).access_proposals@[index as int].deposit as int
                } else {
                    0
                }),
            r is Ok ==> forall|w: u64| final(self).bank.contains(w) == old(self).bank.contains(w),
            r is Ok ==> final(self).total_inflow@ == old(self).total_inflow@,
    {
        let n = self.access_proposals.len();
        if index as usize >= n {
            return Err(Error::BadIndex);
        }
        let i = index as usize;
        if sender != self.access_proposals[i].applicant {
            return Err(Error::NotApplicant);
        }
        if self.access_proposals[i].aborted {
            return Err(Error::ProposalAborted);
        }
        if self.access_proposals[i].processed {
            return Err(Error::AlreadyProcessed);
        }
        let current = self.get_current_period(now);
        let starting_period = self.access_proposals[i].starting_period;
        let in_window = if current < starting_period {
            true
        } else {
            current - starting_period < self.config.abort_window
        };
        if !in_window {
            return Err(Error::AbortWindowPassed);
        }
        let deposit_return = self.access_proposals[i].deposit;
        if deposit_return > 0 {
            if self.deposit_pool < deposit_return {
                return Err(Error::Overflow);
            }
            if !self.bank.has_account(sender) {
                return Err(Error::AccountNotFound);
            }
            if self.bank.balance_of(sender) > u64::MAX - deposit_return {
                return Err(Error::Overflow);
            }
            self.bank.credit(sender, deposit_return);
            self.deposit_pool = self.deposit_pool - deposit_return;
        }
        let p = &mut self.access_proposals[i];
        p.aborted = true;
        p.deposit = 0;
        Ok(())
    }

    /// The Free-pool redemption a burn of `energies_to_burn` units earns:
    /// pro-rata by energy, rounded down.
    pub open spec fn spec_redemption(self, energies_to_burn: u64) -> int {
        (self.free_pool * energies_to_burn) / (self.total_energies as int)
    }

    /// Why (or that) a rage-quit goes through.
    pub open spec fn rage_quit_decision(self, sender: u64, energies_to_burn: u64) -> Result<
        (),
        Error,
    > {
        if !self.members.is_member_spec(sender) {
            Err(Error::NotMember)
        } else if energies_to_burn == 0 {
            Err(Error::ZeroBurn)
        } else if self.members.get(sender).unwrap().energy < energies_to_burn {
            Err(Error::InsufficientEnergy)
        } else if !({
            let h = self.members.get(sender).unwrap().highest_index_yes_vote as int;
            h < self.access_proposals@.len() && self.access_proposals@[h].processed
        }) {
            Err(Error::PendingYesVote)
        } else if self.spec_redemption(energies_to_burn) > 0 && !self.bank.contains(sender) {
            Err(Error::AccountNotFound)
        } else if self.spec_redemption(energies_to_burn) > 0 && self.bank.balance(sender)
            + self.spec_redemption(energies_to_burn) > u64::MAX {
            Err(Error::Overflow)
        } else {
            Ok(())
        }
    }

    /// Burns part of the sender's energy and redeems their pro-rata share
    /// of the Free pool, but only once the highest-index access proposal
    /// they voted yes on has been settled.
    pub fn rage_quit(&mut self, sender: u64, energies_to_burn: u64) -> (r: Result<(), Error>)
        requires
            old(self).wf(),
        ensures
            final(self).wf(),
            r == old(self).rage_quit_decision(sender, energies_to_burn),
            r is Err ==> *final(self) == *old(self),
            r is Ok ==> *final(self) == (Module {
                free_pool: (old(self).free_pool - old(self).spec_redemption(
                    energies_to_burn,
                )) as u64,
                total_energies: (old(self).total_energies - energies_to_burn) as u64,
                members: final(self).members,
                bank: final(self).bank,
                ..*old(self)
            }),
            r is Ok ==> final(self).members.get(sender) == Some(
                (Member {
                    energy: (old(self).members.get(sender).unwrap().energy
                        - energies_to_burn) as u64,
                    ..old(self).members.get(sender).unwrap()
                }),
            ),
            r is Ok ==> forall|w: u64|
                w != sender ==> final(self).members.get(w) == old(self).members.get(w),
            r is Ok ==> final(self).members.entries@.len() == old(self).members.entries@.len(),
            r is Ok ==> final(self).bank.balance(sender) == old(self).bank.balance(sender) + old(self).spec_redemption(energies_to_burn),
            r is Ok ==> forall|w: u64|
                w != sender ==> final(self).bank.balance(w) == old(self).bank.balance(w),
            r is Ok ==> 0 <= old(self).spec_redemption(energies_to_burn) <= old(self).free_pool,
    {
        let member = match self.members.lookup(sender) {
            Some(m) => m,
            None => {
                return Err(Error::NotMember);
            },
        };
        if member.energy == 0 {
            return Err(Error::NotMember);
        }
        if energies_to_burn == 0 {
            return Err(Error::ZeroBurn);
        }
        if member.energy < energies_to_burn {
            return Err(Error::InsufficientEnergy);
        }
        let highest = member.highest_index_yes_vote;
        let highest_settled = (highest as usize) < self.access_proposals.len()
            && self.access_proposals[highest as usize].processed;
        if !highest_settled {
            return Err(Error::PendingYesVote);
        }
        proof {
            lemma_member_energy_le_sum(self.members.entries@, sender);
        }
        let free = self.free_pool;
        let total = self.total_energies;
        proof {
            vstd::arithmetic::mul::lemma_mul_inequality(
                free as int,
                u64::MAX as int,
                energies_to_burn as int,
            );
            vstd::arithmetic::mul::lemma_mul_inequality(
                energies_to_burn as int,
                u64::MAX as int,
                u64::MAX as int,
            );
            assert(free as int * energies_to_burn as int <= free as int * total as int) by (nonlinear_arith)
                requires
                    energies_to_burn as int <= total as int,
                    free as int >= 0,
            ;
            vstd::arithmetic::div_mod::lemma_div_is_ordered(
                free as int * energies_to_burn as int,
                free as int * total as int,
                total as int,
            );
            vstd::arithmetic::div_mod::lemma_div_multiples_vanish(free as int, total as int);
            vstd::arithmetic::div_mod::lemma_div_is_ordered(
                0,
                free as int * energies_to_burn as int,
                total as int,
            );
        }
        let redeem128: u128 = (free as u128) * (energies_to_burn as u128) / (total as u128);
        assert(redeem128 == self.spec_redemption(energies_to_burn));
        assert(redeem128 <= free);
        let redeem: u64 = redeem128 as u64;
        if redeem > 0 {
            if !self.bank.has_account(sender) {
                return Err(Error::AccountNotFound);
            }
            if self.bank.balance_of(sender) > u64::MAX - redeem {
                return Err(Error::Overflow);
            }
        }
        self.members.burn(sender, energies_to_burn);
        self.total_energies = total - energies_to_burn;
        if redeem > 0 {
            self.bank.credit(sender, redeem);
            self.free_pool = free - redeem;
        }
        Ok(())
    }

    /// The starting period a project round gets: the current period,
    /// bumped past the starting period of the proposal at the live queue's
    /// tail when that one lies in the future.
    pub open spec fn next_project_starting_period(self, now: u64) -> int {
        let cur = self.spec_current_period(now) as int;
        let qlen = self.queue@.len() as int;
        if self.queue_head as int == qlen {
            cur
        } else {
            let last = self.project_proposals@[self.queue@[qlen - 1] as int].starting_period as int;
            if last >= cur {
                last + 1
            } else {
                cur
            }
        }
    }

    /// Why (or that) a project proposal submission goes through.
    pub open spec fn submit_project_decision(self, sender: u64, applicant: u64, now: u64) -> Result<
        (),
        Error,
    > {
        if !self.members.is_member_spec(sender) {
            Err(Error::NotMember)
        } else if !account_is_set(applicant) {
            Err(Error::ApplicantUnset)
        } else if self.next_project_starting_period(now) > u64::MAX {
            Err(Error::Overflow)
        } else if self.mortgage_pool + self.config.proposal_mortgage > u64::MAX {
            Err(Error::Overflow)
        } else if self.project_proposals@.len() == u32::MAX {
            Err(Error::Overflow)
        } else if self.bank.balance(sender) < self.config.proposal_mortgage {
            Err(Error::InsufficientBalance)
        } else {
            Ok(())
        }
    }

    /// Submits a project proposal: the proposer's mortgage moves into the
    /// Mortgage pool and the proposal joins both the array and the tail of
    /// the processing queue, opening its initialization voting round.
    pub fn submit_project_proposal(
        &mut self,
        sender: u64,
        applicant: u64,
        milestone_1_requested: u64,
        milestone_2_requested: u64,
        milestone_3_requested: u64,
        detail: Vec<u8>,
        now: u64,
    ) -> (r: Result<(), Error>)
        requires
            old(self).wf(),
        ensures
            final(self).wf(),
            r == old(self).submit_project_decision(sender, applicant, now),
            r is Err ==> *final(self) == *old(self),
            r is Ok ==> *final(self) == (Module {
                mortgage_pool: (old(self).mortgage_pool + old(self).config.proposal_mortgage) as u64,
                project_proposals: final(self).project_proposals,
                queue: final(self).queue,
                bank: final(self).bank,
                total_inflow: final(self).total_inflow,
                ..*old(self)
            }),
            r is Ok ==> final(self).project_proposals@.len() == old(self).project_proposals@.len()
                + 1,
            r is Ok ==> forall|j: int|
                0 <= j < old(self).project_proposals@.len() ==> final(self).project_proposals@[j]
                    == old(self).project_proposals@[j],
            r is Ok ==> ({
                let p = final(self).project_proposals@.last();
                &&& p.proposer == sender
                &&& p.applicant == applicant
                &&& p.mortgage == old(self).config.proposal_mortgage
                &&& p.starting_period == old(self).next_project_starting_period(now)
                &&& p.milestone_1_requested == milestone_1_requested
                &&& p.milestone_2_requested == milestone_2_requested
                &&& p.milestone_3_requested == milestone_3_requested
                &&& p.yes_votes == 0
                &&& p.no_votes == 0
                &&& !p.processed
                &&& !p.stage_did_pass
                &&& p.round == 0
                &&& !p.aborted
                &&& p.status == ProjectStatus::Initialization
                &&& p.detail == detail
                &&& p.voters@.len() == 0
            }),
            r is Ok ==> final(self).queue@ == old(self).queue@.push(
                old(self).project_proposals@.len() as u32,
            ),
            r is Ok ==> forall|w: u64|
                final(self).bank.balance(w) as int == old(self).bank.balance(w) - (
                if w == sender {
                    old(self).config.proposal_mortgage as int
                } else {
                    0
                }),
            r is Ok ==> forall|w: u64| final(self).bank.contains(w) == old(self).bank.contains(w),
            r is Ok ==> final(self).total_inflow@ == old(self).total_inflow@ + old(self).config.proposal_mortgage,
    {
        if !self.is_member(sender) {
            return Err(Error::NotMember);
        }
        if applicant == 0 {
            return Err(Error::ApplicantUnset);
        }
        let current = self.get_current_period(now);
        let qlen = self.queue.len();
        let mut starting_period = current;
        if self.queue_head < qlen {
            let last_index = self.queue[qlen - 1];
            let last = self.project_proposals[last_index as usize].starting_period;
            if last >= current {
                if last == u64::MAX {
                    return Err(Error::Overflow);
                }
                starting_period = last + 1;
            }
        }
        if self.mortgage_pool > u64::MAX - self.config.proposal_mortgage {
            return Err(Error::Overflow);
        }
        let n = self.project_proposals.len();
        if n == u32::MAX as usize {
            return Err(Error::Overflow);
        }
        let mortgage = self.config.proposal_mortgage;
        if self.bank.balance_of(sender) < mortgage {
            return Err(Error::InsufficientBalance);
        }
        self.bank.debit(sender, mortgage);
        self.mortgage_pool = self.mortgage_pool + mortgage;
        let proposal = ProjectProposal {
            proposer: sender,
            applicant,
            mortgage,
            starting_period,
            milestone_1_requested,
            milestone_2_requested,
            milestone_3_requested,
            yes_votes: 0,
            no_votes: 0,
            processed: false,
            stage_did_pass: false,
            round: 0,
            aborted: false,
            status: ProjectStatus::Initialization,
            detail,
            voters: Vec::new(),
        };
        self.project_proposals.push(proposal);
        self.queue.push(n as u32);
        self.total_inflow = Ghost(self.total_inflow@ + mortgage);
        Ok(())
    }

    /// Why (or that) a vote on a project round goes through.
    pub open spec fn project_vote_decision(self, sender: u64, index: u32, vote: bool, now: u64) -> Result<
        (),
        Error,
    > {
        if index as int >= self.project_proposals@.len() {
            Err(Error::BadIndex)
        } else {
            let p = self.project_proposals@[index as int];
            if !self.spec_in_vote_period(now, p.starting_period) {
                Err(Error::NotInVotePeriod)
            } else if p.aborted {
                Err(Error::ProposalAborted)
            } else if !self.members.is_member_spec(sender) {
                Err(Error::NotMember)
            } else if p.voters@.contains(sender) {
                Err(Error::AlreadyVoted)
            } else if vote && p.yes_votes + self.members.get(sender).unwrap().energy > u64::MAX {
                Err(Error::Overflow)
            } else if !vote && p.no_votes + self.members.get(sender).unwrap().energy > u64::MAX {
                Err(Error::Overflow)
            } else {
                Ok(())
            }
        }
    }

    /// Casts the sender's full current energy as one yes or no vote on the
    /// current round of a project proposal, inside that round's voting
    /// window only. Each round keeps its own voter list, so a member may
    /// vote again in a later round of the same proposal.
    pub fn submit_project_vote(&mut self, sender: u64, index: u32, vote: bool, now: u64) -> (r:
        Result<(), Error>)
        requires
            old(self).wf(),
        ensures
            final(self).wf(),
            r == old(self).project_vote_decision(sender, index, vote, now),
            r is Err ==> *final(self) == *old(self),
            r is Ok ==> *final(self) == (Module {
                project_proposals: final(self).project_proposals,
                ..*old(self)
            }),
            r is Ok ==> final(self).project_proposals@.len() == old(self).project_proposals@.len(),
            r is Ok ==> forall|j: int|
                0 <= j < old(self).project_proposals@.len() && j != index as int ==> final(self).project_proposals@[j] == old(self).project_proposals@[j],
            r is Ok ==> ({
                let p0 = old(self).project_proposals@[index as int];
                let p = final(self).project_proposals@[index as int];
                let energy = old(self).members.get(sender).unwrap().energy;
                &&& p.yes_votes == p0.yes_votes + (if vote {
                    energy as int
                } else {
                    0
                })
                &&& p.no_votes == p0.no_votes + (if vote {
                    0
                } else {
                    energy as int
                })
                &&& p.voters@ == p0.voters@.push(sender)
                &&& p.proposer == p0.proposer
                &&& p.applicant == p0.applicant
                &&& p.mortgage == p0.mortgage
                &&& p.starting_period == p0.starting_period
                &&& p.milestone_1_requested == p0.milestone_1_requested
                &&& p.milestone_2_requested == p0.milestone_2_requested
                &&& p.milestone_3_requested == p0.milestone_3_requested
                &&& p.processed == p0.processed
                &&& p.stage_did_pass == p0.stage_did_pass
                &&& p.round == p0.round
                &&& p.aborted == p0.aborted
                &&& p.status == p0.status
                &&& p.detail == p0.detail
            }),
    {
        let n = self.project_proposals.len();
        if index as usize >= n {
            return Err(Error::BadIndex);
        }
        let i = index as usize;
        let starting_period = self.project_proposals[i].starting_period;
        if !self.in_vote_period(now, starting_period) {
            return Err(Error::NotInVotePeriod);
        }
        if self.project_proposals[i].aborted {
            return Err(Error::ProposalAborted);
        }
        let member = match self.members.lookup(sender) {
            Some(m) => m,
            None => {
                return Err(Error::NotMember);
            },
        };
        if member.energy == 0 {
            return Err(Error::NotMember);
        }
        if voters_contain(&self.project_proposals[i].voters, sender) {
            return Err(Error::AlreadyVoted);
        }
        if vote {
            if self.project_proposals[i].yes_votes > u64::MAX - member.energy {
                return Err(Error::Overflow);
            }
        } else {
            if self.project_proposals[i].no_votes > u64::MAX - member.energy {
                return Err(Error::Overflow);
            }
        }
        let p = &mut self.project_proposals[i];
        if vote {
            p.yes_votes = p.yes_votes + member.energy;
        } else {
            p.no_votes = p.no_votes + member.energy;
        }
        p.voters.push(sender);
        Ok(())
    }

    /// Why (or that) a forward of a settled project round goes through.
    pub open spec fn forward_decision(self, sender: u64, index: u32, now: u64) -> Result<
        (),
        Error,
    > {
        if !self.members.is_member_spec(sender) {
            Err(Error::NotMember)
        } else if index as int >= self.project_proposals@.len() {
            Err(Error::BadIndex)
        } else {
            let p = self.project_proposals@[index as int];
            if !p.processed {
                Err(Error::NotProcessed)
            } else if p.aborted {
                Err(Error::ProposalAborted)
            } else if p.stage_did_pass && p.status == ProjectStatus::Milestone3 {
                Err(Error::ProjectDone)
            } else if !p.stage_did_pass && p.round == u64::MAX {
                Err(Error::Overflow)
            } else {
                let status = if p.stage_did_pass {
                    next_status(p.status)
                } else {
                    p.status
                };
                let grant = stage_amount(p, status);
                if self.next_project_starting_period(now) > u64::MAX {
                    Err(Error::Overflow)
                } else if grant > 0 && self.free_pool < grant {
                    Err(Error::InsufficientFreePool)
                } else if grant > 0 && self.grant_locked_pool + grant > u64::MAX {
                    Err(Error::Overflow)
                } else {
                    Ok(())
                }
            }
        }
    }

    /// Opens the next voting round of a settled project proposal: on a
    /// passed stage the project advances to the next milestone and its
    /// grant is reserved Free pool to GrantLocked pool; on a failed stage
    /// the same stage is retried under a bumped round counter. Either way
    /// the proposal re-enters the queue's tail with fresh tallies.
    pub fn forward_to_milestone(&mut self, sender: u64, index: u32, now: u64) -> (r: Result<
        (),
        Error,
    >)
        requires
            old(self).wf(),
        ensures
            final(self).wf(),
            r == old(self).forward_decision(sender, index, now),
            r is Err ==> *final(self) == *old(self),
            r is Ok ==> *final(self) == (Module {
                free_pool: final(self).free_pool,
                grant_locked_pool: final(self).grant_locked_pool,
                project_proposals: final(self).project_proposals,
                queue: final(self).queue,
                ..*old(self)
            }),
            r is Ok ==> ({
                let p0 = old(self).project_proposals@[index as int];
                let status = if p0.stage_did_pass {
                    next_status(p0.status)
                } else {
                    p0.status
                };
                let grant = stage_amount(p0, status) as int;
                &&& final(self).free_pool == old(self).free_pool - grant
                &&& final(self).grant_locked_pool == old(self).grant_locked_pool + grant
            }),
            r is Ok ==> final(self).project_proposals@.len() == old(self).project_proposals@.len(),
            r is Ok ==> forall|j: int|
                0 <= j < old(self).project_proposals@.len() && j != index as int ==> final(self).project_proposals@[j] == old(self).project_proposals@[j],
            r is Ok ==> ({
                let p0 = old(self).project_proposals@[index as int];
                let p = final(self).project_proposals@[index as int];
                &&& p.status == (if p0.stage_did_pass {
                    next_status(p0.status)
                } else {
                    p0.status
                })
                &&& p.round == (if p0.stage_did_pass {
                    0int
                } else {
                    p0.round + 1
                })
                &&& !p.processed
                &&& !p.stage_did_pass
                &&& p.yes_votes == 0
                &&& p.no_votes == 0
                &&& p.voters@.len() == 0
                &&& p.starting_period == old(self).next_project_starting_period(now)
                &&& !p.aborted
                &&& p.proposer == p0.proposer
                &&& p.applicant == p0.applicant
                &&& p.mortgage == p0.mortgage
                &&& p.milestone_1_requested == p0.milestone_1_requested
                &&& p.milestone_2_requested == p0.milestone_2_requested
                &&& p.milestone_3_requested == p0.milestone_3_requested
                &&& p.detail == p0.detail
            }),
            r is Ok ==> final(self).queue@ == old(self).queue@.push(index),
    {
        if !self.is_member(sender) {
            return Err(Error::NotMember);
        }
        let n = self.project_proposals.len();
        if index as usize >= n {
            return Err(Error::BadIndex);
        }
        let i = index as usize;
        if !self.project_proposals[i].processed {
            return Err(Error::NotProcessed);
        }
        if self.project_proposals[i].aborted {
            return Err(Error::ProposalAborted);
        }
        let did_pass = self.project_proposals[i].stage_did_pass;
        let status = self.project_proposals[i].status;
        let new_status = if did_pass {
            match status {
                ProjectStatus::Initialization => ProjectStatus::Milestone1,
                ProjectStatus::Milestone1 => ProjectStatus::Milestone2,
                ProjectStatus::Milestone2 => ProjectStatus::Milestone3,
                ProjectStatus::Milestone3 => {
                    return Err(Error::ProjectDone);
                },
            }
        } else {
            status
        };
        let new_round = if did_pass {
            0u64
        } else {
            let round = self.project_proposals[i].round;
            if round == u64::MAX {
                return Err(Error::Overflow);
            }
            round + 1
        };
        let grant = match new_status {
            ProjectStatus::Initialization => 0u64,
            ProjectStatus::Milestone1 => self.project_proposals[i].milestone_1_requested,
            ProjectStatus::Milestone2 => self.project_proposals[i].milestone_2_requested,
            ProjectStatus::Milestone3 => self.project_proposals[i].milestone_3_requested,
        };
        let current = self.get_current_period(now);
        let qlen = self.queue.len();
        let mut starting_period = current;
        if self.queue_head < qlen {
            let last_index = self.queue[qlen - 1];
            let last = self.project_proposals[last_index as usize].starting_period;
            if last >= current {
                if last == u64::MAX {
                    return Err(Error::Overflow);
                }
                starting_period = last + 1;
            }
        }
        if grant > 0 {
            if self.free_pool < grant {
                return Err(Error::InsufficientFreePool);
            }
            if self.grant_locked_pool > u64::MAX - grant {
                return Err(Error::Overflow);
            }
            self.free_pool = self.free_pool - grant;
            self.grant_locked_pool = self.grant_locked_pool + grant;
        }
        let p = &mut self.project_proposals[i];
        p.status = new_status;
        p.round = new_round;
        p.stage_did_pass = false;
        p.processed = false;
        p.yes_votes = 0;
        p.no_votes = 0;
        p.starting_period = starting_period;
        p.voters = Vec::new();
        self.queue.push(index);
        Ok(())
    }

    /// Whether the oldest unsettled access proposal exists and its voting
    /// window has elapsed at `now`.
    pub open spec fn access_due(self, now: u64) -> bool {
        &&& self.processed_access_count < self.access_proposals@.len()
        &&& self.spec_voting_period_expired(
            now,
            self.access_proposals@[self.processed_access_count as int].starting_period,
        )
    }

    /// The outcome the due access proposal settles to: a strict energy
    /// majority of yes over no, unless aborted.
    pub open spec fn access_settle_passes(self) -> bool {
        let p = self.access_proposals@[self.processed_access_count as int];
        p.yes_votes > p.no_votes && !p.aborted
    }

    /// Every checked-arithmetic condition an access settlement needs; when
    /// one fails the settlement is refused whole.
    pub open spec fn settle_access_arith_ok(self) -> bool {
        let p = self.access_proposals@[self.processed_access_count as int];
        let dp = self.access_settle_passes();
        &&& self.total_energies_requested >= p.energies_requested
        &&& dp ==> (match self.members.get(p.applicant) {
            Some(m) => m.energy + p.energies_requested <= u64::MAX,
            None => self.members.entries@.len() < u32::MAX,
        })
        &&& dp ==> self.total_energies + p.energies_requested <= u64::MAX
        &&& dp && p.deposit > 0 ==> self.deposit_pool >= p.deposit && self.free_pool + p.deposit
            <= u64::MAX
        &&& !dp && p.deposit > 0 ==> self.deposit_pool >= p.deposit && self.bank.balance(
            p.applicant,
        ) + p.deposit <= u64::MAX
        &&& self.bank.balance(p.proposer) + (
        if !dp && p.deposit > 0 && p.proposer == p.applicant {
            p.deposit as int
        } else {
            0
        }) + p.mortgage <= u64::MAX
        &&& self.mortgage_pool >= p.mortgage
    }
}

/// How one access settlement turns `pre` into `post`: the oldest
/// unsettled proposal is marked processed with its outcome, the
/// requested-energy counter drops, a pass mints the applicant's energy and
/// forfeits the deposit to the Free pool, a fail returns the deposit to
/// the applicant, and the proposer's mortgage is refunded either way.
pub open spec fn settle_access_rel(pre: Module, post: Module) -> bool {
    let c = pre.processed_access_count as int;
    let p0 = pre.access_proposals@[c];
    let dp = pre.access_settle_passes();
    &&& post == (Module {
        free_pool: post.free_pool,
        mortgage_pool: post.mortgage_pool,
        deposit_pool: post.deposit_pool,
        total_energies: post.total_energies,
        total_energies_requested: post.total_energies_requested,
        members: post.members,
        bank: post.bank,
        access_proposals: post.access_proposals,
        processed_access_count: (c + 1) as usize,
        ..pre
    })
    &&& post.access_proposals@.len() == pre.access_proposals@.len()
    &&& forall|j: int|
        0 <= j < pre.access_proposals@.len() && j != c ==> post.access_proposals@[j]
            == pre.access_proposals@[j]
    &&& ({
        let p = post.access_proposals@[c];
        &&& p.processed
        &&& p.did_pass == dp
        &&& p.proposer == p0.proposer
        &&& p.applicant == p0.applicant
        &&& p.energies_requested == p0.energies_requested
        &&& p.mortgage == p0.mortgage
        &&& p.deposit == p0.deposit
        &&& p.starting_period == p0.starting_period
        &&& p.yes_votes == p0.yes_votes
        &&& p.no_votes == p0.no_votes
        &&& p.aborted == p0.aborted
        &&& p.detail == p0.detail
        &&& p.voters@ == p0.voters@
    })
    &&& post.total_energies_requested == pre.total_energies_requested - p0.energies_requested
    &&& post.mortgage_pool == pre.mortgage_pool - p0.mortgage
    &&& post.deposit_pool == pre.deposit_pool - p0.deposit
    &&& post.free_pool == pre.free_pool + (if dp {
        p0.deposit as int
    } else {
        0
    })
    &&& (dp ==> ({
        &&& post.members.get(p0.applicant) == Some(
            match pre.members.get(p0.applicant) {
                Some(m) => (Member {
                    energy: (m.energy + p0.energies_requested) as u64,
                    ..m
                }),
                None => (Member {
                    energy: p0.energies_requested,
                    highest_index_yes_vote: 0,
                }),
            },
        )
        &&& forall|w: u64| w != p0.applicant ==> post.members.get(w) == pre.members.get(w)
        &&& post.total_energies == pre.total_energies + p0.energies_requested
    }))
    &&& (!dp ==> post.members == pre.members && post.total_energies == pre.total_energies)
    &&& forall|w: u64|
        post.bank.balance(w) as int == pre.bank.balance(w) + (
        if !dp && p0.deposit > 0 && w == p0.applicant {
            p0.deposit as int
        } else {
            0
        }) + (
        if w == p0.proposer {
            p0.mortgage as int
        } else {
            0
        })
}

/// How one access-settlement attempt at `now` relates `pre`, `post` and
/// its result: nothing is due and nothing changes, or the settlement
/// happens whole, or a checked-arithmetic condition fails and nothing
/// changes.
pub open spec fn settle_access_step(pre: Module, post: Module, r: Result<bool, Error>, now: u64) -> bool {
    &&& (r == Ok::<bool, Error>(false) <==> !pre.access_due(now))
    &&& (r is Err <==> pre.access_due(now) && !pre.settle_access_arith_ok())
    &&& (r is Err ==> r == Err::<bool, Error>(Error::Overflow) && post == pre)
    &&& (r == Ok::<bool, Error>(false) ==> post == pre)
    &&& (r == Ok::<bool, Error>(true) ==> settle_access_rel(pre, post))
}

impl Module {
    /// Settles the oldest unsettled access proposal once its voting window
    /// has elapsed; at most one per call. Returns whether one was settled.
    pub fn settle_access(&mut self, now: u64) -> (r: Result<bool, Error>)
        requires
            old(self).wf(),
        ensures
            final(self).wf(),
            settle_access_step(*old(self), *final(self), r, now),
    {
        let c = self.processed_access_count;
        if c == self.access_proposals.len() {
            return Ok(false);
        }
        let starting_period = self.access_proposals[c].starting_period;
        if !self.has_voting_period_expired(now, starting_period) {
            return Ok(false);
        }
        let p_energies = self.access_proposals[c].energies_requested;
        let p_deposit = self.access_proposals[c].deposit;
        let p_mortgage = self.access_proposals[c].mortgage;
        let p_applicant = self.access_proposals[c].applicant;
        let p_proposer = self.access_proposals[c].proposer;
        let did_pass = self.access_proposals[c].yes_votes > self.access_proposals[c].no_votes
            && !self.access_proposals[c].aborted;
        if self.total_energies_requested < p_energies {
            return Err(Error::Overflow);
        }
        if did_pass {
            match self.members.lookup(p_applicant) {
                Some(m) => {
                    if m.energy > u64::MAX - p_energies {
                        return Err(Error::Overflow);
                    }
                },
                None => {
                    if self.members.count() == u32::MAX as usize {
                        return Err(Error::Overflow);
                    }
                },
            }
            if self.total_energies > u64::MAX - p_energies {
                return Err(Error::Overflow);
            }
            if p_deposit > 0 {
                if self.deposit_pool < p_deposit {
                    return Err(Error::Overflow);
                }
                if self.free_pool > u64::MAX - p_deposit {
                    return Err(Error::Overflow);
                }
            }
        } else {
            if p_deposit > 0 {
                if self.deposit_pool < p_deposit {
                    return Err(Error::Overflow);
                }
                if self.bank.balance_of(p_applicant) > u64::MAX - p_deposit {
                    return Err(Error::Overflow);
                }
            }
        }
        let proposer_balance = self.bank.balance_of(p_proposer);
        let returned_extra = if !did_pass && p_deposit > 0 && p_proposer == p_applicant {
            p_deposit
        } else {
            0
        };
        if (proposer_balance as u128) + (returned_extra as u128) + (p_mortgage as u128) > (
        u64::MAX as u128) {
            return Err(Error::Overflow);
        }
        if self.mortgage_pool < p_mortgage {
            return Err(Error::Overflow);
        }
        self.total_energies_requested = self.total_energies_requested - p_energies;
        if did_pass {
            self.members.admit_or_top_up(p_applicant, p_energies);
            self.total_energies = self.total_energies + p_energies;
            if p_deposit > 0 {
                self.deposit_pool = self.deposit_pool - p_deposit;
                self.free_pool = self.free_pool + p_deposit;
            }
        } else {
            if p_deposit > 0 {
                self.deposit_pool = self.deposit_pool - p_deposit;
                self.bank.credit(p_applicant, p_deposit);
            }
        }
        self.bank.credit(p_proposer, p_mortgage);
        self.mortgage_pool = self.mortgage_pool - p_mortgage;
        let p = &mut self.access_proposals[c];
        p.processed = true;
        p.did_pass = did_pass;
        self.processed_access_count = c + 1;
        Ok(true)
    }

    /// Whether the queue's head entry exists and its round's voting window
    /// has elapsed at `now`.
    pub open spec fn project_due(self, now: u64) -> bool {
        &&& self.queue_head < self.queue@.len()
        &&& self.spec_voting_period_expired(
            now,
            self.project_proposals@[self.queue@[self.queue_head as int] as int].starting_period,
        )
    }

    /// The outcome the due project round settles to.
    pub open spec fn project_settle_passes(self) -> bool {
        let p = self.project_proposals@[self.queue@[self.queue_head as int] as int];
        p.yes_votes > p.no_votes && !p.aborted
    }

    /// Every checked-arithmetic condition a project settlement needs.
    pub open spec fn settle_project_arith_ok(self) -> bool {
        let p = self.project_proposals@[self.queue@[self.queue_head as int] as int];
        let dp = self.project_settle_passes();
        let grant = stage_amount(p, p.status);
        let completed = dp && p.status == ProjectStatus::Milestone3;
        &&& completed ==> self.mortgage_pool >= p.mortgage && self.bank.balance(p.proposer)
            + p.mortgage <= u64::MAX
        &&& grant > 0 ==> self.grant_locked_pool >= grant
        &&& dp && grant > 0 ==> self.bank.balance(p.applicant) + (
        if completed && p.applicant == p.proposer {
            p.mortgage as int
        } else {
            0
        }) + grant <= u64::MAX
        &&& !dp && grant > 0 ==> self.free_pool + grant <= u64::MAX
    }
}

/// How one project settlement turns `pre` into `post`: the head entry's
/// proposal is marked processed with its round's outcome; a passed stage
/// pays its grant from the GrantLocked pool to the applicant (and a passed
/// final milestone also refunds the mortgage and finishes the project); a
/// failed stage returns the reserved grant to the Free pool; the head
/// advances either way.
pub open spec fn settle_project_rel(pre: Module, post: Module) -> bool {
    let h = pre.queue_head as int;
    let idx = pre.queue@[h] as int;
    let p0 = pre.project_proposals@[idx];
    let dp = pre.project_settle_passes();
    let grant = stage_amount(p0, p0.status) as int;
    let completed = dp && p0.status == ProjectStatus::Milestone3;
    &&& post == (Module {
        free_pool: post.free_pool,
        mortgage_pool: post.mortgage_pool,
        grant_locked_pool: post.grant_locked_pool,
        bank: post.bank,
        project_proposals: post.project_proposals,
        queue_head: (h + 1) as usize,
        ..pre
    })
    &&& post.project_proposals@.len() == pre.project_proposals@.len()
    &&& forall|j: int|
        0 <= j < pre.project_proposals@.len() && j != idx ==> post.project_proposals@[j]
            == pre.project_proposals@[j]
    &&& ({
        let p = post.project_proposals@[idx];
        &&& p.processed
        &&& p.stage_did_pass == dp
        &&& p.aborted == (p0.aborted || completed)
        &&& p.proposer == p0.proposer
        &&& p.applicant == p0.applicant
        &&& p.mortgage == p0.mortgage
        &&& p.starting_period == p0.starting_period
        &&& p.milestone_1_requested == p0.milestone_1_requested
        &&& p.milestone_2_requested == p0.milestone_2_requested
        &&& p.milestone_3_requested == p0.milestone_3_requested
        &&& p.yes_votes == p0.yes_votes
        &&& p.no_votes == p0.no_votes
        &&& p.round == p0.round
        &&& p.status == p0.status
        &&& p.detail == p0.detail
        &&& p.voters@ == p0.voters@
    })
    &&& post.mortgage_pool == pre.mortgage_pool - (if completed {
        p0.mortgage as int
    } else {
        0
    })
    &&& post.grant_locked_pool == pre.grant_locked_pool - grant
    &&& post.free_pool == pre.free_pool + (if !dp {
        grant
    } else {
        0
    })
    &&& forall|w: u64|
        post.bank.balance(w) as int == pre.bank.balance(w) + (
        if completed && w == p0.proposer {
            p0.mortgage as int
        } else {
            0
        }) + (
        if dp && grant > 0 && w == p0.applicant {
            grant
        } else {
            0
        })
}

/// How one project-settlement attempt at `now` relates `pre`, `post` and
/// its result.
pub open spec fn settle_project_step(pre: Module, post: Module, r: Result<bool, Error>, now: u64) -> bool {
    &&& (r == Ok::<bool, Error>(false) <==> !pre.project_due(now))
    &&& (r is Err <==> pre.project_due(now) && !pre.settle_project_arith_ok())
    &&& (r is Err ==> r == Err::<bool, Error>(Error::Overflow) && post == pre)
    &&& (r == Ok::<bool, Error>(false) ==> post == pre)
    &&& (r == Ok::<bool, Error>(true) ==> settle_project_rel(pre, post))
}

impl Module {
    /// Settles the project round at the queue's head once its voting
    /// window has elapsed; at most one per call. Returns whether one was
    /// settled.
    pub fn settle_project(&mut self, now: u64) -> (r: Result<bool, Error>)
        requires
            old(self).wf(),
        ensures
            final(self).wf(),
            settle_project_step(*old(self), *final(self), r, now),
    {
        let h = self.queue_head;
        if h == self.queue.len() {
            return Ok(false);
        }
        let index = self.queue[h];
        let i = index as usize;
        let starting_period = self.project_proposals[i].starting_period;
        if !self.has_voting_period_expired(now, starting_period) {
            return Ok(false);
        }
        let did_pass = self.project_proposals[i].yes_votes > self.project_proposals[i].no_votes
            && !self.project_proposals[i].aborted;
        let status = self.project_proposals[i].status;
        let grant = match status {
            ProjectStatus::Initialization => 0u64,
            ProjectStatus::Milestone1 => self.project_proposals[i].milestone_1_requested,
            ProjectStatus::Milestone2 => self.project_proposals[i].milestone_2_requested,
            ProjectStatus::Milestone3 => self.project_proposals[i].milestone_3_requested,
        };
        let p_mortgage = self.project_proposals[i].mortgage;
        let p_proposer = self.project_proposals[i].proposer;
        let p_applicant = self.project_proposals[i].applicant;
        let completed = did_pass && status == ProjectStatus::Milestone3;
        if completed {
            if self.mortgage_pool < p_mortgage {
                return Err(Error::Overflow);
            }
            if self.bank.balance_of(p_proposer) > u64::MAX - p_mortgage {
                return Err(Error::Overflow);
            }
        }
        if grant > 0 {
            if self.grant_locked_pool < grant {
                return Err(Error::Overflow);
            }
            if did_pass {
                let applicant_balance = self.bank.balance_of(p_applicant);
                let refunded_extra = if completed && p_applicant == p_proposer {
                    p_mortgage
                } else {
                    0
                };
                if (applicant_balance as u128) + (refunded_extra as u128) + (grant as u128) > (
                u64::MAX as u128) {
                    return Err(Error::Overflow);
                }
            } else {
                if self.free_pool > u64::MAX - grant {
                    return Err(Error::Overflow);
                }
            }
        }
        if completed {
            self.bank.credit(p_proposer, p_mortgage);
            self.mortgage_pool = self.mortgage_pool - p_mortgage;
        }
        if grant > 0 {
            self.grant_locked_pool = self.grant_locked_pool - grant;
            if did_pass {
                self.bank.credit(p_applicant, grant);
            } else {
                self.free_pool = self.free_pool + grant;
            }
        }
        let p = &mut self.project_proposals[i];
        p.processed = true;
        p.stage_did_pass = did_pass;
        if completed {
            p.aborted = true;
        }
        self.queue_head = h + 1;
        Ok(true)
    }

    /// The per-tick scheduler hook: attempts one access settlement, then
    /// one project settlement, each all-or-nothing on its own. The results
    /// report, for each kind, whether a proposal was settled or why its
    /// settlement was refused.
    pub fn on_period_advance(&mut self, now: u64) -> (r: (Result<bool, Error>, Result<
        bool,
        Error,
    >))
        requires
            old(self).wf(),
        ensures
            final(self).wf(),
            exists|mid: Module|
                #[trigger] settle_access_step(*old(self), mid, r.0, now) && settle_project_step(
                    mid,
                    *final(self),
                    r.1,
                    now,
                ),
    {
        let access_result = self.settle_access(now);
        let ghost mid = *self;
        let project_result = self.settle_project(now);
        let r = (access_result, project_result);
        proof {
            assert(settle_access_step(*old(self), mid, r.0, now));
            assert(settle_project_step(mid, *self, r.1, now));
        }
        r
    }
}

} // verus!
