use hoj::contest::{can_schedule, is_close, put_contest, work, Heard, Plan, Scheduler, Settled, Timer,
    Work, Working, ENDED, PENDING, RUNNING, WAITING_TIME_CLOSE_JUDGING_QUEUE};

#[test]
fn a_contest_goes_from_pending_to_running_to_ended() {
    let now = 1_700_000_000_000;
    let begin = now + 1000;
    assert!(can_schedule(begin, 2, now));
    let plan = put_contest(begin, 2, now);
    assert_eq!(plan, Plan::Pending { to_running: 1000, to_end: 120000 });

    let mut s = Scheduler::new();
    assert_eq!(s.enter(5, plan), PENDING);
    let settled = s.settle(5, plan);
    let timer = Timer { delay: 1000, next: Plan::Running { to_end: 120000 } };
    assert_eq!(settled, Settled { start_worker: false, arm: Some(timer), teardown_after: None });
    assert!(!s.has_worker(5));

    let plan = s.fire(5).unwrap();
    assert_eq!(plan, Plan::Running { to_end: 120000 });
    assert_eq!(s.enter(5, plan), RUNNING);
    assert_eq!(s.fire(5), None);
    let settled = s.settle(5, plan);
    assert_eq!(
        settled,
        Settled { start_worker: true, arm: Some(Timer { delay: 120000, next: Plan::Ended }), teardown_after: None }
    );
    assert!(s.has_worker(5));

    let plan = s.fire(5).unwrap();
    assert_eq!(plan, Plan::Ended);
    assert_eq!(s.enter(5, plan), ENDED);
    let settled = s.settle(5, plan);
    assert_eq!(settled, Settled { start_worker: false, arm: None, teardown_after: Some(600) });
    assert_eq!(WAITING_TIME_CLOSE_JUDGING_QUEUE, 600);
    assert_eq!(s.fire(5), None);
    assert!(s.has_worker(5));
    assert!(s.teardown(5));
    assert!(!s.has_worker(5));
    assert!(!s.teardown(5));
}

#[test]
fn a_contest_that_has_begun_starts_as_running() {
    let now = 1_700_000_000_000;
    assert_eq!(put_contest(now - 60000, 2, now), Plan::Running { to_end: 60000 });
    assert_eq!(put_contest(now, 1, now), Plan::Running { to_end: 60000 });
}

#[test]
fn a_contest_that_is_over_starts_as_ended_without_a_timer() {
    let now = 1_700_000_000_000;
    assert_eq!(put_contest(now - 120000, 2, now), Plan::Ended);
    assert_eq!(put_contest(now - 120001, 2, now), Plan::Ended);
    let mut s = Scheduler::new();
    assert_eq!(s.enter(1, Plan::Ended), ENDED);
    assert_eq!(s.settle(1, Plan::Ended).arm, None);
    assert_eq!(s.fire(1), None);
}

#[test]
fn a_new_schedule_replaces_the_timer_of_the_contest_only() {
    let mut s = Scheduler::new();
    let first = Plan::Pending { to_running: 5000, to_end: 60000 };
    s.enter(1, first);
    s.settle(1, first);
    s.enter(2, first);
    s.settle(2, first);
    let second = Plan::Pending { to_running: 9000, to_end: 30000 };
    s.enter(1, second);
    assert_eq!(s.fire(1), None);
    s.settle(1, second);
    assert_eq!(s.fire(1), Some(Plan::Running { to_end: 30000 }));
    assert_eq!(s.fire(2), Some(Plan::Running { to_end: 60000 }));
}

#[test]
fn a_running_contest_keeps_the_worker_it_has() {
    let mut s = Scheduler::new();
    let plan = Plan::Running { to_end: 1000 };
    s.enter(1, plan);
    assert!(s.settle(1, plan).start_worker);
    s.enter(1, plan);
    assert!(!s.settle(1, plan).start_worker);
}

#[test]
fn moments_that_do_not_fit_are_not_scheduled() {
    assert!(!can_schedule(i64::MAX, 1, 0));
    assert!(!can_schedule(0, 1, i64::MIN));
    assert!(can_schedule(0, i32::MAX, 0));
    assert!(is_close(0));
    assert!(!is_close(17));
}

#[test]
fn the_worker_marks_before_it_folds_and_stops_at_the_close() {
    let mut phase = Working::Waiting;
    let mut done = Vec::new();
    for heard in [
        Heard::Taken(8),
        Heard::Loaded(3),
        Heard::Done,
        Heard::Failed,
        Heard::Taken(9),
        Heard::Failed,
        Heard::Taken(0),
        Heard::Taken(10),
    ] {
        let (next, action) = work(phase, heard);
        phase = next;
        done.push(action);
    }
    assert_eq!(
        done,
        [
            Work::Load { sid: 8 },
            Work::Mark { cid: 3 },
            Work::Fold { sid: 8 },
            Work::Take,
            Work::Load { sid: 9 },
            Work::Take,
            Work::Stop,
            Work::Stop,
        ]
    );
    assert_eq!(phase, Working::Closed);
    assert_eq!(work(Working::Waiting, Heard::Failed), (Working::Closed, Work::Stop));
}
