use hoj::judge::{counted_fields, effects, handle_submission, make_judge_config, make_update_map,
    runs_all_cases, Action, Effect, Event, Flow, JudgeResult, Phase, SlotPool, MAX_JUDGE_TASKS};
use hoj::model::problem::{Checker, TestCase};
use hoj::model::submission::CaseResult;
use hoj::status::{AC, QUEUEING, RUNNING};
use hoj::value::Value;

#[test]
fn five_requests_never_hold_more_than_two_slots() {
    assert_eq!(MAX_JUDGE_TASKS, 2);
    let mut pool = SlotPool::new(MAX_JUDGE_TASKS);
    let granted: Vec<bool> = (1..=5).map(|t| pool.acquire(t)).collect();
    assert_eq!(granted, [true, true, false, false, false]);
    assert_eq!(pool.in_flight(), 2);
    assert_eq!(pool.queued(), 3);
    assert_eq!(pool.release(), Some(3));
    assert_eq!(pool.in_flight(), 2);
    assert_eq!(pool.release(), Some(4));
    assert_eq!(pool.release(), Some(5));
    assert_eq!(pool.in_flight(), 2);
    assert_eq!(pool.release(), None);
    assert_eq!(pool.in_flight(), 1);
    assert_eq!(pool.release(), None);
    assert_eq!(pool.in_flight(), 0);
    assert!(pool.acquire(6));
}

#[test]
fn a_submission_goes_through_its_steps_in_order() {
    let mut phase = Phase::Created;
    let mut actions = Vec::new();
    for event in [Event::Inserted(8), Event::Done, Event::Granted, Event::Done, Event::Done, Event::Verdict(AC), Event::Done, Event::Done] {
        let (next, action) = handle_submission(phase, event);
        phase = next;
        actions.push(action);
    }
    assert_eq!(
        actions,
        [
            Action::SetLive { sid: 8, status: QUEUEING },
            Action::Acquire { sid: 8 },
            Action::SetLive { sid: 8, status: RUNNING },
            Action::Configure { sid: 8 },
            Action::Judge { sid: 8 },
            Action::Release { sid: 8 },
            Action::Publish { sid: 8, status: AC },
            Action::Stop,
        ]
    );
    assert_eq!(phase, Phase::Finished);
}

#[test]
fn a_failure_while_a_slot_is_held_gives_the_slot_back() {
    for held in [Phase::Starting { sid: 1 }, Phase::Configuring { sid: 1 }, Phase::Judging { sid: 1 }] {
        let (next, action) = handle_submission(held, Event::Failed);
        assert_eq!(action, Action::Release { sid: 1 });
        assert_eq!(handle_submission(next, Event::Done), (Phase::Aborted, Action::Stop));
    }
    assert_eq!(handle_submission(Phase::Created, Event::Failed), (Phase::Aborted, Action::Reject));
    assert_eq!(handle_submission(Phase::Queueing { sid: 1 }, Event::Failed), (Phase::Aborted, Action::Stop));
}

#[test]
fn side_effects_follow_the_sort_of_submission() {
    assert_eq!(
        effects(Flow::Practice, AC, true),
        [Effect::ProblemStats { accepted: true }, Effect::UserStats { accepted: true }]
    );
    assert_eq!(
        effects(Flow::Practice, -1, false),
        [Effect::ProblemStats { accepted: false }, Effect::UserStats { accepted: false }]
    );
    assert_eq!(effects(Flow::Contest, AC, true), [Effect::Aggregate]);
    assert_eq!(effects(Flow::Contest, AC, false), []);
    assert_eq!(effects(Flow::Test, AC, true), []);
    assert_eq!(counted_fields(true), ["accepted_count", "all_count"]);
    assert_eq!(counted_fields(false), ["all_count"]);
    assert!(!runs_all_cases("ACM"));
    assert!(runs_all_cases("OI"));
}

#[test]
fn the_request_takes_the_limits_of_the_problem() {
    let case = TestCase { id: 1, input_name: "1.in".into(), input_size: 3, output_name: "1.out".into(), output_size: 4, max_output_size: None };
    let config = make_judge_config("P1000", 1000, 256, vec![case], Some(Checker::default()), None, "cpp".into(), "int main(){}".into(), true);
    assert_eq!(config.io_dir, "P1000");
    assert_eq!(config.max_cpu_time, 1000);
    assert_eq!(config.max_memory, 268435456);
    assert_eq!(config.lang, "cpp");
    assert_eq!(config.src, "int main(){}");
    assert_eq!(config.test_cases.len(), 1);
    assert_eq!(config.checker.unwrap().typ, "standard");
    assert_eq!(config.test_all, Some(true));
    assert_eq!(config.seccomp_rule, None);
    assert_eq!(config.resource_rule, None);
}

#[test]
fn the_result_becomes_the_columns_of_the_submission() {
    let res = JudgeResult {
        compile_info: "can't".into(),
        case_count: 4,
        pass_count: 3,
        time: 12,
        memory: 2048,
        total_time: 40,
        status: AC,
        error: "none".into(),
        results: vec![CaseResult { id: 1, cpu_time: 1, memory: 2, info: "".into(), status: AC }],
    };
    let columns = make_update_map(&res, "[{\"id\":1}]");
    assert_eq!(columns.len(), 9);
    assert_eq!(columns.get("compile_info"), Some(&Value::text("can''t")));
    assert_eq!(columns.get("case_count"), Some(&Value::Int(4)));
    assert_eq!(columns.get("pass_count"), Some(&Value::Int(3)));
    assert_eq!(columns.get("time"), Some(&Value::Int(12)));
    assert_eq!(columns.get("memory"), Some(&Value::Int(2048)));
    assert_eq!(columns.get("total_time"), Some(&Value::Int(40)));
    assert_eq!(columns.get("status"), Some(&Value::Int(AC as i64)));
    assert_eq!(columns.get("error"), Some(&Value::text("none")));
    assert_eq!(columns.get("details"), Some(&Value::json("[{\"id\":1}]")));
    assert_eq!(columns.name_at(0), "case_count");
    assert_eq!(columns.name_at(8), "total_time");
}
