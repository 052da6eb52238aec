use verify_bot::commands::IsVerified;
use verify_bot::scheduler::{
    check_for_verify, Progress, Scheduler, SweepAction, SweepEvent, Tracking, VerificationRequest,
    TIMEOUT_SECS, TRIES,
};

fn request(user_id: u64, guild_id: u64) -> VerificationRequest {
    VerificationRequest { user_id, guild_id }
}

fn failed(user_id: u64, guild_id: u64) -> IsVerified {
    IsVerified { guild_id, user_id, verified: false }
}

fn passed(user_id: u64, guild_id: u64) -> IsVerified {
    IsVerified { guild_id, user_id, verified: true }
}

#[test]
fn constants_are_sixty_tries_every_three_seconds() {
    assert_eq!(TRIES, 60);
    assert_eq!(TIMEOUT_SECS, 3);
}

#[test]
fn new_scheduler_tracks_nobody() {
    let scheduler = Scheduler::new(TRIES);
    assert_eq!(scheduler.max_tries(), 60);
    assert_eq!(scheduler.in_flight(), 0);
    assert_eq!(scheduler.queued(), 0);
    assert_eq!(scheduler.tries_left(1), None);
    assert_eq!(scheduler.state_of(1), Tracking::Absent);
}

#[test]
fn submitted_user_is_pending_with_full_budget() {
    let mut scheduler = Scheduler::new(5);
    assert!(scheduler.submit(request(7, 1)));
    assert_eq!(scheduler.tries_left(7), Some(5));
    assert_eq!(scheduler.state_of(7), Tracking::Pending);
    assert_eq!(scheduler.queued(), 1);
    assert_eq!(scheduler.in_flight(), 0);
}

#[test]
fn unverified_user_is_dropped_after_max_tries_checks() {
    let mut scheduler = Scheduler::new(TRIES);
    assert!(scheduler.submit(request(7, 1)));
    let mut checks = 0;
    for _ in 0..200 {
        let batch = scheduler.begin_sweep();
        for r in batch {
            checks += 1;
            scheduler.complete(failed(r.user_id, r.guild_id));
        }
    }
    assert_eq!(checks, 60);
    assert_eq!(scheduler.tries_left(7), None);
    assert_eq!(scheduler.state_of(7), Tracking::Absent);
    assert_eq!(scheduler.queued(), 0);
    assert_eq!(scheduler.in_flight(), 0);
}

#[test]
fn budget_goes_down_by_one_for_each_failed_sweep() {
    let mut scheduler = Scheduler::new(3);
    scheduler.submit(request(7, 1));
    assert_eq!(scheduler.begin_sweep(), vec![request(7, 1)]);
    assert_eq!(scheduler.complete(failed(7, 1)), Progress::Retrying { remaining: 2 });
    assert_eq!(scheduler.state_of(7), Tracking::Retrying);
    assert_eq!(scheduler.begin_sweep(), vec![request(7, 1)]);
    assert_eq!(scheduler.complete(failed(7, 1)), Progress::Retrying { remaining: 1 });
    assert_eq!(scheduler.begin_sweep(), vec![request(7, 1)]);
    assert_eq!(scheduler.complete(failed(7, 1)), Progress::Exhausted);
    assert_eq!(scheduler.begin_sweep(), vec![]);
    assert_eq!(scheduler.tries_left(7), None);
}

#[test]
fn verified_user_is_resolved_and_never_checked_again() {
    let mut scheduler = Scheduler::new(TRIES);
    scheduler.submit(request(7, 1));
    assert_eq!(scheduler.begin_sweep(), vec![request(7, 1)]);
    assert_eq!(scheduler.complete(passed(7, 1)), Progress::Resolved);
    assert_eq!(scheduler.tries_left(7), None);
    for _ in 0..10 {
        assert_eq!(scheduler.begin_sweep(), vec![]);
    }
}

#[test]
fn resolved_user_can_be_submitted_again() {
    let mut scheduler = Scheduler::new(4);
    scheduler.submit(request(7, 1));
    scheduler.begin_sweep();
    scheduler.complete(passed(7, 1));
    assert!(scheduler.submit(request(7, 1)));
    assert_eq!(scheduler.tries_left(7), Some(4));
}

#[test]
fn resubmission_while_queued_neither_resets_nor_duplicates() {
    let mut scheduler = Scheduler::new(3);
    assert!(scheduler.submit(request(7, 1)));
    scheduler.begin_sweep();
    scheduler.complete(failed(7, 1));
    assert_eq!(scheduler.tries_left(7), Some(2));
    assert!(!scheduler.submit(request(7, 1)));
    assert!(!scheduler.submit(request(7, 2)));
    assert_eq!(scheduler.tries_left(7), Some(2));
    assert_eq!(scheduler.queued(), 1);
    assert_eq!(scheduler.begin_sweep(), vec![request(7, 1)]);
}

#[test]
fn resubmission_while_in_flight_is_dropped() {
    let mut scheduler = Scheduler::new(3);
    scheduler.submit(request(7, 1));
    scheduler.begin_sweep();
    assert_eq!(scheduler.in_flight(), 1);
    assert!(!scheduler.submit(request(7, 1)));
    assert_eq!(scheduler.queued(), 0);
    assert_eq!(scheduler.tries_left(7), Some(3));
    assert_eq!(scheduler.complete(failed(7, 1)), Progress::Retrying { remaining: 2 });
    assert_eq!(scheduler.queued(), 1);
}

#[test]
fn no_sweep_starts_while_checks_are_in_flight() {
    let mut scheduler = Scheduler::new(3);
    scheduler.submit(request(1, 9));
    scheduler.submit(request(2, 9));
    assert_eq!(scheduler.begin_sweep(), vec![request(1, 9), request(2, 9)]);
    scheduler.submit(request(3, 9));
    assert_eq!(scheduler.complete(failed(1, 9)), Progress::Retrying { remaining: 2 });
    assert_eq!(scheduler.begin_sweep(), vec![]);
    assert_eq!(scheduler.in_flight(), 1);
    assert_eq!(scheduler.queued(), 2);
    assert_eq!(scheduler.complete(passed(2, 9)), Progress::Resolved);
    assert_eq!(scheduler.begin_sweep(), vec![request(3, 9), request(1, 9)]);
}

#[test]
fn result_for_a_user_without_a_check_in_flight_is_ignored() {
    let mut scheduler = Scheduler::new(3);
    assert_eq!(scheduler.complete(failed(7, 1)), Progress::Ignored);
    scheduler.submit(request(7, 1));
    assert_eq!(scheduler.complete(passed(7, 1)), Progress::Ignored);
    assert_eq!(scheduler.tries_left(7), Some(3));
    assert_eq!(scheduler.queued(), 1);
}

#[test]
fn zero_ceiling_tracks_nobody() {
    let mut scheduler = Scheduler::new(0);
    assert!(!scheduler.submit(request(7, 1)));
    assert_eq!(scheduler.tries_left(7), None);
    assert_eq!(scheduler.begin_sweep(), vec![]);
}

#[test]
fn ceiling_of_one_allows_exactly_one_check() {
    let mut scheduler = Scheduler::new(1);
    scheduler.submit(request(7, 1));
    assert_eq!(scheduler.begin_sweep(), vec![request(7, 1)]);
    assert_eq!(scheduler.complete(failed(7, 1)), Progress::Exhausted);
    assert_eq!(scheduler.begin_sweep(), vec![]);
}

#[test]
fn requeued_user_keeps_the_guild_of_the_request() {
    let mut scheduler = Scheduler::new(3);
    scheduler.submit(request(7, 1));
    scheduler.begin_sweep();
    scheduler.complete(failed(7, 55));
    assert_eq!(scheduler.begin_sweep(), vec![request(7, 1)]);
}

#[test]
fn step_function_drives_one_sweep() {
    let mut scheduler = Scheduler::new(2);
    assert!(matches!(check_for_verify(&mut scheduler, SweepEvent::Tick), SweepAction::Sleep));
    assert!(matches!(
        check_for_verify(&mut scheduler, SweepEvent::Submitted(request(1, 9))),
        SweepAction::Wait
    ));
    match check_for_verify(&mut scheduler, SweepEvent::Tick) {
        SweepAction::Dispatch(batch) => assert_eq!(batch, vec![request(1, 9)]),
        other => panic!("expected a dispatch, got {:?}", other),
    }
    assert!(matches!(check_for_verify(&mut scheduler, SweepEvent::Tick), SweepAction::Wait));
    assert!(matches!(
        check_for_verify(&mut scheduler, SweepEvent::Completed(failed(1, 9))),
        SweepAction::Sleep
    ));
    assert_eq!(scheduler.tries_left(1), Some(1));
    assert_eq!(scheduler.complete(failed(1, 9)), Progress::Ignored);
}

#[test]
fn step_function_waits_for_every_check_of_the_sweep() {
    let mut scheduler = Scheduler::new(2);
    check_for_verify(&mut scheduler, SweepEvent::Submitted(request(1, 9)));
    check_for_verify(&mut scheduler, SweepEvent::Submitted(request(2, 9)));
    assert!(matches!(check_for_verify(&mut scheduler, SweepEvent::Tick), SweepAction::Dispatch(_)));
    assert!(matches!(
        check_for_verify(&mut scheduler, SweepEvent::Completed(passed(2, 9))),
        SweepAction::Wait
    ));
    assert!(matches!(
        check_for_verify(&mut scheduler, SweepEvent::Completed(failed(1, 9))),
        SweepAction::Sleep
    ));
}

#[test]
fn no_user_is_dispatched_twice_in_one_batch_under_rapid_submission() {
    let mut scheduler = Scheduler::new(TRIES);
    for _ in 0..50 {
        scheduler.submit(request(7, 1));
        scheduler.submit(request(8, 1));
    }
    let batch = scheduler.begin_sweep();
    assert_eq!(batch, vec![request(7, 1), request(8, 1)]);
    for _ in 0..50 {
        scheduler.submit(request(7, 1));
    }
    assert_eq!(scheduler.begin_sweep(), vec![]);
    assert_eq!(scheduler.in_flight(), 2);
    assert_eq!(scheduler.queued(), 0);
}

#[test]
fn many_users_are_each_checked_at_most_max_tries_times() {
    let mut scheduler = Scheduler::new(4);
    let mut checks = vec![0u32; 10];
    for user in 0..10u64 {
        scheduler.submit(request(user, 1));
    }
    for sweep in 0..20u64 {
        let batch = scheduler.begin_sweep();
        for r in batch {
            checks[r.user_id as usize] += 1;
            let verified = r.user_id % 2 == 0 && sweep == r.user_id / 2;
            scheduler.complete(IsVerified { guild_id: 1, user_id: r.user_id, verified });
        }
    }
    assert_eq!(checks, vec![1, 4, 2, 4, 3, 4, 4, 4, 4, 4]);
    assert_eq!(scheduler.queued(), 0);
    for user in 0..10u64 {
        assert_eq!(scheduler.tries_left(user), None);
    }
}
