use dao_core::dao::{Config, Module};
use dao_core::errors::Error;

fn config() -> Config {
    Config { period_duration: 1, voting_period_length: 1, abort_window: 1, proposal_mortgage: 0 }
}

#[test]
fn summon_submit_vote_settle_admits_member() {
    // Summon with account 1, submit an access proposal for applicant 2
    // requesting 5 energy and no deposit, vote yes, let the window elapse,
    // tick: the proposal passes and 2 becomes a member with 5 energy.
    let mut d = Module::new(config()).unwrap();
    d.summon(1, 0).unwrap();
    assert_eq!(d.total_energies, 1);
    assert_eq!(d.submit_access_proposal(1, 2, 0, 5, b"hello".to_vec(), 0), Ok(()));
    assert_eq!(d.access_proposals.len(), 1);
    assert_eq!(d.access_proposals[0].starting_period, 0);
    assert_eq!(d.access_proposals[0].detail, b"hello".to_vec());
    assert_eq!(d.submit_access_vote(1, 0, true, 0), Ok(()));
    assert_eq!(d.access_proposals[0].yes_votes, 1);
    assert_eq!(d.on_period_advance(1), (Ok(true), Ok(false)));
    assert!(d.access_proposals[0].processed);
    assert!(d.access_proposals[0].did_pass);
    assert!(d.is_member(2));
    assert_eq!(d.members.lookup(2).unwrap().energy, 5);
    assert_eq!(d.total_energies, 6);
    assert_eq!(d.processed_access_count, 1);
}

#[test]
fn vote_only_inside_the_window() {
    let cfg = Config {
        period_duration: 1,
        voting_period_length: 2,
        abort_window: 1,
        proposal_mortgage: 0,
    };
    let mut d = Module::new(cfg).unwrap();
    d.summon(1, 0).unwrap();
    d.submit_access_proposal(1, 2, 0, 1, Vec::new(), 0).unwrap();
    d.submit_access_proposal(1, 3, 0, 1, Vec::new(), 0).unwrap();
    // The second proposal's window starts one period later.
    assert_eq!(d.access_proposals[0].starting_period, 0);
    assert_eq!(d.access_proposals[1].starting_period, 1);
    // Too early for proposal 1.
    assert_eq!(d.submit_access_vote(1, 1, true, 0), Err(Error::NotInVotePeriod));
    // Proposal 0 is open at period 0 and at period 1, closed at period 2.
    assert_eq!(d.submit_access_vote(1, 0, true, 0), Ok(()));
    assert_eq!(d.submit_access_vote(1, 0, true, 1), Err(Error::AlreadyVoted));
    // Proposal 1 is open at periods 1 and 2, closed at period 3.
    assert_eq!(d.submit_access_vote(1, 1, true, 3), Err(Error::NotInVotePeriod));
    assert_eq!(d.submit_access_vote(1, 1, true, 2), Ok(()));
    assert_eq!(d.submit_access_vote(1, 9, true, 1), Err(Error::BadIndex));
}

#[test]
fn yes_vote_raises_highest_index_record() {
    let mut d = Module::new(config()).unwrap();
    d.summon(1, 0).unwrap();
    d.submit_access_proposal(1, 2, 0, 1, Vec::new(), 0).unwrap();
    d.submit_access_proposal(1, 3, 0, 1, Vec::new(), 0).unwrap();
    assert_eq!(d.members.lookup(1).unwrap().highest_index_yes_vote, 0);
    d.submit_access_vote(1, 1, true, 1).unwrap();
    assert_eq!(d.members.lookup(1).unwrap().highest_index_yes_vote, 1);
    // A no vote does not move the record.
    d.submit_access_vote(1, 0, false, 0).unwrap();
    assert_eq!(d.members.lookup(1).unwrap().highest_index_yes_vote, 1);
}

#[test]
fn rejected_proposal_returns_deposit_to_applicant() {
    let mut d = Module::new(config()).unwrap();
    d.summon(1, 0).unwrap();
    d.deposit_creating(2, 50).unwrap();
    d.applicant_approve(2, 30).unwrap();
    assert_eq!(d.submit_access_proposal(1, 2, 20, 5, Vec::new(), 0), Ok(()));
    assert_eq!(d.deposit_pool, 20);
    assert_eq!(d.balance_of(2), 30);
    assert_eq!(d.allowances.balance_of(2), 10);
    // A weighted no vote rejects the proposal at settlement.
    d.submit_access_vote(1, 0, false, 0).unwrap();
    assert_eq!(d.on_period_advance(1), (Ok(true), Ok(false)));
    assert!(d.access_proposals[0].processed);
    assert!(!d.access_proposals[0].did_pass);
    assert!(!d.is_member(2));
    assert_eq!(d.total_energies, 1);
    assert_eq!(d.deposit_pool, 0);
    assert_eq!(d.balance_of(2), 50);
}

#[test]
fn passed_proposal_forfeits_deposit_to_free_pool() {
    let mut d = Module::new(config()).unwrap();
    d.summon(1, 0).unwrap();
    d.deposit_creating(2, 50).unwrap();
    d.applicant_approve(2, 20).unwrap();
    d.submit_access_proposal(1, 2, 20, 5, Vec::new(), 0).unwrap();
    d.submit_access_vote(1, 0, true, 0).unwrap();
    assert_eq!(d.on_period_advance(1), (Ok(true), Ok(false)));
    assert!(d.access_proposals[0].did_pass);
    assert_eq!(d.deposit_pool, 0);
    assert_eq!(d.free_pool, 20);
    assert_eq!(d.balance_of(2), 30);
    assert_eq!(d.members.lookup(2).unwrap().energy, 5);
}

#[test]
fn ties_fail_at_settlement() {
    let mut d = Module::new(config()).unwrap();
    d.summon(1, 0).unwrap();
    // Admit member 2 with 1 energy so two equal voters exist.
    d.submit_access_proposal(1, 2, 0, 1, Vec::new(), 0).unwrap();
    d.submit_access_vote(1, 0, true, 0).unwrap();
    d.on_period_advance(1);
    assert!(d.is_member(2));
    // Tie on the next proposal: 1 yes, 1 no.
    d.submit_access_proposal(1, 3, 0, 7, Vec::new(), 1).unwrap();
    d.submit_access_vote(1, 1, true, 1).unwrap();
    d.submit_access_vote(2, 1, false, 1).unwrap();
    assert_eq!(d.access_proposals[1].yes_votes, 1);
    assert_eq!(d.access_proposals[1].no_votes, 1);
    assert_eq!(d.on_period_advance(2), (Ok(true), Ok(false)));
    assert!(!d.access_proposals[1].did_pass);
    assert!(!d.is_member(3));
}

#[test]
fn mortgage_is_staked_and_refunded() {
    let cfg = Config {
        period_duration: 1,
        voting_period_length: 1,
        abort_window: 1,
        proposal_mortgage: 5,
    };
    let mut d = Module::new(cfg).unwrap();
    d.summon(1, 0).unwrap();
    assert_eq!(
        d.submit_access_proposal(1, 2, 0, 1, Vec::new(), 0),
        Err(Error::InsufficientBalance)
    );
    d.deposit_creating(1, 7).unwrap();
    assert_eq!(d.submit_access_proposal(1, 2, 0, 1, Vec::new(), 0), Ok(()));
    assert_eq!(d.balance_of(1), 2);
    assert_eq!(d.mortgage_pool, 5);
    assert_eq!(d.on_period_advance(1), (Ok(true), Ok(false)));
    // Refunded regardless of the (failed, unvoted) outcome.
    assert!(!d.access_proposals[0].did_pass);
    assert_eq!(d.balance_of(1), 7);
    assert_eq!(d.mortgage_pool, 0);
}

#[test]
fn submission_validation_errors() {
    let mut d = Module::new(config()).unwrap();
    d.summon(1, 0).unwrap();
    assert_eq!(d.submit_access_proposal(9, 2, 0, 1, Vec::new(), 0), Err(Error::NotMember));
    assert_eq!(d.submit_access_proposal(1, 0, 0, 1, Vec::new(), 0), Err(Error::ApplicantUnset));
    assert_eq!(
        d.submit_access_proposal(1, 2, 20, 1, Vec::new(), 0),
        Err(Error::InsufficientAllowance)
    );
    assert_eq!(d.access_proposals.len(), 0);
}

#[test]
fn abort_by_non_applicant_is_refused() {
    let mut d = Module::new(config()).unwrap();
    d.summon(1, 0).unwrap();
    d.deposit_creating(2, 50).unwrap();
    d.applicant_approve(2, 20).unwrap();
    d.submit_access_proposal(1, 2, 20, 5, Vec::new(), 0).unwrap();
    assert_eq!(d.abort_access(3, 0, 0), Err(Error::NotApplicant));
    assert!(!d.access_proposals[0].aborted);
    assert_eq!(d.access_proposals[0].deposit, 20);
    assert_eq!(d.deposit_pool, 20);
    assert_eq!(d.balance_of(2), 30);
}

#[test]
fn abort_returns_deposit_and_sticks() {
    let mut d = Module::new(config()).unwrap();
    d.summon(1, 0).unwrap();
    d.deposit_creating(2, 50).unwrap();
    d.applicant_approve(2, 20).unwrap();
    d.submit_access_proposal(1, 2, 20, 5, Vec::new(), 0).unwrap();
    assert_eq!(d.abort_access(2, 0, 0), Ok(()));
    assert!(d.access_proposals[0].aborted);
    assert_eq!(d.access_proposals[0].deposit, 0);
    assert_eq!(d.deposit_pool, 0);
    assert_eq!(d.balance_of(2), 50);
    assert_eq!(d.abort_access(2, 0, 0), Err(Error::ProposalAborted));
    assert_eq!(d.submit_access_vote(1, 0, true, 0), Err(Error::ProposalAborted));
    // An aborted proposal still settles (as failed) and cannot pass.
    assert_eq!(d.on_period_advance(1), (Ok(true), Ok(false)));
    assert!(d.access_proposals[0].processed);
    assert!(!d.access_proposals[0].did_pass);
    assert!(!d.is_member(2));
}

#[test]
fn abort_window_closes() {
    let cfg = Config {
        period_duration: 1,
        voting_period_length: 3,
        abort_window: 2,
        proposal_mortgage: 0,
    };
    let mut d = Module::new(cfg).unwrap();
    d.summon(1, 0).unwrap();
    d.submit_access_proposal(1, 2, 0, 5, Vec::new(), 0).unwrap();
    assert_eq!(d.abort_access(2, 0, 2), Err(Error::AbortWindowPassed));
    assert!(!d.access_proposals[0].aborted);
    assert_eq!(d.abort_access(2, 0, 1), Ok(()));
}

#[test]
fn abort_after_settlement_is_refused() {
    // With an abort window longer than the voting period, the window may
    // still be open when the proposal settles; a settled proposal cannot
    // be aborted any more.
    let cfg = Config {
        period_duration: 1,
        voting_period_length: 1,
        abort_window: 3,
        proposal_mortgage: 0,
    };
    let mut d = Module::new(cfg).unwrap();
    d.summon(1, 0).unwrap();
    d.submit_access_proposal(1, 2, 0, 5, Vec::new(), 0).unwrap();
    assert_eq!(d.on_period_advance(1), (Ok(true), Ok(false)));
    assert!(d.access_proposals[0].processed);
    assert_eq!(d.abort_access(2, 0, 1), Err(Error::AlreadyProcessed));
}

#[test]
fn self_application_pays_deposit_and_mortgage() {
    let cfg = Config {
        period_duration: 1,
        voting_period_length: 1,
        abort_window: 1,
        proposal_mortgage: 5,
    };
    let mut d = Module::new(cfg).unwrap();
    d.summon(1, 0).unwrap();
    d.deposit_creating(1, 24).unwrap();
    d.applicant_approve(1, 20).unwrap();
    // Deposit 20 plus mortgage 5 exceeds the balance of 24.
    assert_eq!(
        d.submit_access_proposal(1, 1, 20, 3, Vec::new(), 0),
        Err(Error::InsufficientBalance)
    );
    d.deposit_creating(1, 1).unwrap();
    assert_eq!(d.submit_access_proposal(1, 1, 20, 3, Vec::new(), 0), Ok(()));
    assert_eq!(d.balance_of(1), 0);
    assert_eq!(d.deposit_pool, 20);
    assert_eq!(d.mortgage_pool, 5);
    d.submit_access_vote(1, 0, true, 0).unwrap();
    assert_eq!(d.on_period_advance(1), (Ok(true), Ok(false)));
    // Pass: the deposit is forfeited to the Free pool, the mortgage comes
    // back, and the member's energy grows.
    assert_eq!(d.free_pool, 20);
    assert_eq!(d.balance_of(1), 5);
    assert_eq!(d.members.lookup(1).unwrap().energy, 4);
    assert_eq!(d.total_energies, 4);
}

#[test]
fn settlement_is_first_in_first_out() {
    let mut d = Module::new(config()).unwrap();
    d.summon(1, 0).unwrap();
    d.submit_access_proposal(1, 2, 0, 1, Vec::new(), 0).unwrap();
    d.submit_access_proposal(1, 3, 0, 1, Vec::new(), 0).unwrap();
    // Both windows have elapsed, yet one tick settles only the oldest.
    assert_eq!(d.on_period_advance(5), (Ok(true), Ok(false)));
    assert!(d.access_proposals[0].processed);
    assert!(!d.access_proposals[1].processed);
    assert_eq!(d.processed_access_count, 1);
    assert_eq!(d.on_period_advance(5), (Ok(true), Ok(false)));
    assert!(d.access_proposals[1].processed);
    assert_eq!(d.processed_access_count, 2);
    // Nothing left to settle.
    assert_eq!(d.on_period_advance(5), (Ok(false), Ok(false)));
}

#[test]
fn settlement_waits_for_the_window() {
    let cfg = Config {
        period_duration: 1,
        voting_period_length: 3,
        abort_window: 1,
        proposal_mortgage: 0,
    };
    let mut d = Module::new(cfg).unwrap();
    d.summon(1, 0).unwrap();
    d.submit_access_proposal(1, 2, 0, 1, Vec::new(), 0).unwrap();
    assert_eq!(d.on_period_advance(2), (Ok(false), Ok(false)));
    assert!(!d.access_proposals[0].processed);
    assert_eq!(d.on_period_advance(3), (Ok(true), Ok(false)));
    assert!(d.access_proposals[0].processed);
}
