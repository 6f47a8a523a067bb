use dao_core::dao::{Config, Module};
use dao_core::errors::Error;
use dao_core::proposal::ProjectStatus;

fn config() -> Config {
    Config { period_duration: 1, voting_period_length: 1, abort_window: 1, proposal_mortgage: 0 }
}

/// One summoned organization whose only member is account 1.
fn summoned() -> Module {
    let mut d = Module::new(config()).unwrap();
    d.summon(1, 0).unwrap();
    d
}

#[test]
fn forward_needs_free_funds_for_the_milestone() {
    // Submit a project with milestone amounts (10, 20, 30) while the Free
    // pool is empty. The initialization stage settles with a zero grant;
    // forwarding then needs 10 reserved, which the empty pool refuses.
    let mut d = summoned();
    assert_eq!(d.submit_project_proposal(1, 2, 10, 20, 30, Vec::new(), 0), Ok(()));
    assert_eq!(d.project_proposals.len(), 1);
    assert_eq!(d.queue, vec![0]);
    assert_eq!(d.submit_project_vote(1, 0, true, 0), Ok(()));
    assert_eq!(d.on_period_advance(1), (Ok(false), Ok(true)));
    assert!(d.project_proposals[0].processed);
    assert!(d.project_proposals[0].stage_did_pass);
    assert_eq!(d.project_proposals[0].status, ProjectStatus::Initialization);
    assert_eq!(d.free_pool, 0);
    assert_eq!(d.grant_locked_pool, 0);
    assert_eq!(d.forward_to_milestone(1, 0, 1), Err(Error::InsufficientFreePool));
    assert_eq!(d.project_proposals[0].status, ProjectStatus::Initialization);
    assert!(d.project_proposals[0].processed);
    assert_eq!(d.queue_head, 1);
    assert_eq!(d.queue.len(), 1);
    // With 10 donated the same forward goes through and reserves the grant.
    d.deposit_creating(3, 10).unwrap();
    d.donate(3, 10).unwrap();
    assert_eq!(d.forward_to_milestone(1, 0, 1), Ok(()));
    assert_eq!(d.project_proposals[0].status, ProjectStatus::Milestone1);
    assert_eq!(d.project_proposals[0].round, 0);
    assert!(!d.project_proposals[0].processed);
    assert_eq!(d.free_pool, 0);
    assert_eq!(d.grant_locked_pool, 10);
    assert_eq!(d.queue, vec![0, 0]);
}

#[test]
fn full_lifecycle_pays_milestones_and_refunds_mortgage() {
    let cfg = Config {
        period_duration: 1,
        voting_period_length: 1,
        abort_window: 1,
        proposal_mortgage: 1,
    };
    let mut d = Module::new(cfg).unwrap();
    d.summon(1, 0).unwrap();
    d.deposit_creating(1, 1).unwrap();
    d.deposit_creating(3, 9).unwrap();
    d.donate(3, 9).unwrap();
    assert_eq!(d.submit_project_proposal(1, 2, 2, 3, 4, Vec::new(), 0), Ok(()));
    assert_eq!(d.balance_of(1), 0);
    assert_eq!(d.mortgage_pool, 1);
    let mut now: u64 = 0;
    for _stage in 0..4 {
        assert_eq!(d.submit_project_vote(1, 0, true, now), Ok(()));
        now += 1;
        let (_, settled) = d.on_period_advance(now);
        assert_eq!(settled, Ok(true));
        assert!(d.project_proposals[0].stage_did_pass);
        if d.project_proposals[0].status == ProjectStatus::Milestone3 {
            break;
        }
        assert_eq!(d.forward_to_milestone(1, 0, now), Ok(()));
    }
    // All three grants were paid out of the reserved pool.
    assert_eq!(d.balance_of(2), 9);
    assert_eq!(d.free_pool, 0);
    assert_eq!(d.grant_locked_pool, 0);
    // Completion: the final milestone marks the project finished and
    // returns the proposer's mortgage.
    assert!(d.project_proposals[0].aborted);
    assert_eq!(d.mortgage_pool, 0);
    assert_eq!(d.balance_of(1), 1);
    assert_eq!(d.forward_to_milestone(1, 0, now), Err(Error::ProposalAborted));
    // The vote checks its window before the finished flag.
    assert_eq!(d.submit_project_vote(1, 0, true, now), Err(Error::NotInVotePeriod));
}

#[test]
fn failed_stage_returns_grant_and_retries() {
    let mut d = summoned();
    d.deposit_creating(3, 10).unwrap();
    d.donate(3, 10).unwrap();
    d.submit_project_proposal(1, 2, 10, 0, 0, Vec::new(), 0).unwrap();
    d.submit_project_vote(1, 0, true, 0).unwrap();
    d.on_period_advance(1);
    d.forward_to_milestone(1, 0, 1).unwrap();
    assert_eq!(d.grant_locked_pool, 10);
    // Nobody votes: the milestone stage fails and the reservation returns.
    assert_eq!(d.on_period_advance(2), (Ok(false), Ok(true)));
    assert!(d.project_proposals[0].processed);
    assert!(!d.project_proposals[0].stage_did_pass);
    assert_eq!(d.grant_locked_pool, 0);
    assert_eq!(d.free_pool, 10);
    assert_eq!(d.balance_of(2), 0);
    // Retrying keeps the stage and bumps the round.
    assert_eq!(d.forward_to_milestone(1, 0, 2), Ok(()));
    assert_eq!(d.project_proposals[0].status, ProjectStatus::Milestone1);
    assert_eq!(d.project_proposals[0].round, 1);
    assert_eq!(d.grant_locked_pool, 10);
    assert_eq!(d.free_pool, 0);
}

#[test]
fn revote_allowed_only_across_rounds() {
    let mut d = summoned();
    d.submit_project_proposal(1, 2, 0, 0, 0, Vec::new(), 0).unwrap();
    assert_eq!(d.submit_project_vote(1, 0, true, 0), Ok(()));
    assert_eq!(d.submit_project_vote(1, 0, true, 0), Err(Error::AlreadyVoted));
    d.on_period_advance(1);
    d.forward_to_milestone(1, 0, 1).unwrap();
    // A fresh round clears the voter list.
    assert_eq!(d.submit_project_vote(1, 0, true, 1), Ok(()));
    assert_eq!(d.submit_project_vote(1, 0, false, 1), Err(Error::AlreadyVoted));
}

#[test]
fn forward_validation_errors() {
    let mut d = summoned();
    d.submit_project_proposal(1, 2, 0, 0, 0, Vec::new(), 0).unwrap();
    assert_eq!(d.forward_to_milestone(9, 0, 0), Err(Error::NotMember));
    assert_eq!(d.forward_to_milestone(1, 3, 0), Err(Error::BadIndex));
    assert_eq!(d.forward_to_milestone(1, 0, 0), Err(Error::NotProcessed));
}

#[test]
fn project_submission_validation_errors() {
    let cfg = Config {
        period_duration: 1,
        voting_period_length: 1,
        abort_window: 1,
        proposal_mortgage: 5,
    };
    let mut d = Module::new(cfg).unwrap();
    d.summon(1, 0).unwrap();
    assert_eq!(d.submit_project_proposal(9, 2, 1, 1, 1, Vec::new(), 0), Err(Error::NotMember));
    assert_eq!(d.submit_project_proposal(1, 0, 1, 1, 1, Vec::new(), 0), Err(Error::ApplicantUnset));
    assert_eq!(
        d.submit_project_proposal(1, 2, 1, 1, 1, Vec::new(), 0),
        Err(Error::InsufficientBalance)
    );
    assert_eq!(d.project_proposals.len(), 0);
    assert_eq!(d.queue.len(), 0);
}

#[test]
fn project_queue_settles_in_order() {
    let mut d = summoned();
    d.submit_project_proposal(1, 2, 0, 0, 0, Vec::new(), 0).unwrap();
    d.submit_project_proposal(1, 3, 0, 0, 0, Vec::new(), 0).unwrap();
    assert_eq!(d.queue, vec![0, 1]);
    assert_eq!(d.project_proposals[0].starting_period, 0);
    assert_eq!(d.project_proposals[1].starting_period, 1);
    assert_eq!(d.on_period_advance(5), (Ok(false), Ok(true)));
    assert!(d.project_proposals[0].processed);
    assert!(!d.project_proposals[1].processed);
    assert_eq!(d.queue_head, 1);
    assert_eq!(d.on_period_advance(5), (Ok(false), Ok(true)));
    assert!(d.project_proposals[1].processed);
    assert_eq!(d.queue_head, 2);
    assert_eq!(d.on_period_advance(5), (Ok(false), Ok(false)));
}

#[test]
fn project_vote_window_follows_the_queue_tail() {
    let mut d = summoned();
    d.submit_project_proposal(1, 2, 0, 0, 0, Vec::new(), 0).unwrap();
    d.submit_project_proposal(1, 3, 0, 0, 0, Vec::new(), 0).unwrap();
    assert_eq!(d.submit_project_vote(1, 1, true, 0), Err(Error::NotInVotePeriod));
    assert_eq!(d.submit_project_vote(1, 0, true, 0), Ok(()));
    assert_eq!(d.submit_project_vote(1, 1, true, 1), Ok(()));
    assert_eq!(d.submit_project_vote(1, 7, true, 1), Err(Error::BadIndex));
}

#[test]
fn one_tick_settles_one_of_each_kind() {
    let mut d = summoned();
    d.submit_access_proposal(1, 2, 0, 1, Vec::new(), 0).unwrap();
    d.submit_project_proposal(1, 3, 0, 0, 0, Vec::new(), 0).unwrap();
    d.submit_access_vote(1, 0, true, 0).unwrap();
    d.submit_project_vote(1, 0, true, 0).unwrap();
    assert_eq!(d.on_period_advance(1), (Ok(true), Ok(true)));
    assert!(d.access_proposals[0].processed);
    assert!(d.project_proposals[0].processed);
    assert!(d.access_proposals[0].did_pass);
    assert!(d.project_proposals[0].stage_did_pass);
}
