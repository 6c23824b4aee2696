use hoj::aggregate::{can_count, make_up_problems, update_cproblem_of_submission,
    update_team_of_submission, Attempt, ContestProblem, ProblemStatus};
use hoj::status::{verdict_of, Verdict, AC, QUEUEING, RUNNING};

const WA: i32 = -1;

fn attempt(status: i32, created_at: i64) -> Attempt {
    Attempt { status, created_at }
}

#[test]
fn an_accepted_result_counts_the_failures_before_the_first_pass() {
    let attempts = vec![attempt(WA, 10), attempt(RUNNING, 15), attempt(WA, 20), attempt(AC, 30), attempt(WA, 40), attempt(AC, 50)];
    let current = ProblemStatus { label: "A".to_string(), fail_times: 7, pass_time: None, score: 40 };
    let r = update_team_of_submission(Some(current), "A", AC, 30, 0, &attempts);
    assert_eq!(r, Some(ProblemStatus { label: "A".to_string(), fail_times: 2, pass_time: Some(30), score: 100 }));
}

#[test]
fn a_first_result_starts_from_nothing() {
    let r = update_team_of_submission(None, "B", WA, 10, 60, &vec![]);
    assert_eq!(r, Some(ProblemStatus { label: "B".to_string(), fail_times: 1, pass_time: None, score: 60 }));
    let r = update_team_of_submission(None, "B", AC, 10, 0, &vec![attempt(QUEUEING, 5), attempt(AC, 10)]);
    assert_eq!(r, Some(ProblemStatus { label: "B".to_string(), fail_times: 0, pass_time: Some(10), score: 100 }));
}

#[test]
fn a_rejected_result_adds_a_failure_and_keeps_the_best_score() {
    let current = ProblemStatus { label: "A".to_string(), fail_times: 2, pass_time: None, score: 50 };
    let r = update_team_of_submission(Some(current.clone()), "A", WA, 10, 30, &vec![]);
    assert_eq!(r, Some(ProblemStatus { label: "A".to_string(), fail_times: 3, pass_time: None, score: 50 }));
    let r = update_team_of_submission(Some(current), "A", WA, 10, 80, &vec![]);
    assert_eq!(r.unwrap().score, 80);
}

#[test]
fn replaying_a_recorded_pass_changes_nothing() {
    let attempts = vec![attempt(WA, 10), attempt(AC, 30), attempt(AC, 50)];
    let first = update_team_of_submission(None, "A", AC, 30, 0, &attempts).unwrap();
    assert_eq!(first.pass_time, Some(30));
    assert_eq!(first.fail_times, 1);
    assert_eq!(update_team_of_submission(Some(first.clone()), "A", AC, 30, 0, &attempts), None);
    assert_eq!(update_team_of_submission(Some(first.clone()), "A", AC, 50, 0, &attempts), None);
    assert_eq!(update_team_of_submission(Some(first), "A", WA, 40, 10, &attempts), None);
}

#[test]
fn an_earlier_pass_that_arrives_late_moves_the_pass_time_back() {
    let attempts = vec![attempt(AC, 30), attempt(AC, 50)];
    let late = ProblemStatus { label: "A".to_string(), fail_times: 0, pass_time: Some(50), score: 100 };
    let r = update_team_of_submission(Some(late), "A", AC, 30, 0, &attempts).unwrap();
    assert_eq!(r.pass_time, Some(30));
}

fn problem(pid: i64, all: Option<i32>, accepted: Option<i32>, first: Option<i64>) -> ContestProblem {
    ContestProblem {
        pid,
        index: format!("P{}", pid),
        title: "t".to_string(),
        label: "A".to_string(),
        first_solve_time: first,
        accepted_count: accepted,
        all_count: all,
    }
}

#[test]
fn missing_tallies_are_made_up() {
    let mut list = vec![problem(1, None, None, None), problem(2, Some(3), Some(1), Some(9))];
    make_up_problems(&mut list);
    assert_eq!(list[0], problem(1, Some(0), Some(0), Some(i64::MAX)));
    assert_eq!(list[1], problem(2, Some(3), Some(1), Some(9)));
}

#[test]
fn a_result_is_counted_in_the_first_tally_of_its_problem() {
    let mut list = vec![problem(1, None, None, None), problem(2, Some(3), Some(1), Some(90)), problem(2, Some(0), Some(0), None)];
    assert!(can_count(&list));
    update_cproblem_of_submission(&mut list, 2, false, 50);
    assert_eq!(list[1], problem(2, Some(4), Some(1), Some(90)));
    update_cproblem_of_submission(&mut list, 2, true, 50);
    assert_eq!(list[1], problem(2, Some(5), Some(2), Some(50)));
    update_cproblem_of_submission(&mut list, 2, true, 70);
    assert_eq!(list[1], problem(2, Some(6), Some(3), Some(50)));
    update_cproblem_of_submission(&mut list, 1, true, 70);
    assert_eq!(list[0], problem(1, Some(1), Some(1), Some(70)));
    update_cproblem_of_submission(&mut list, 9, true, 70);
    assert_eq!(list[2], problem(2, Some(0), Some(0), None));
    assert!(!can_count(&vec![problem(1, Some(i32::MAX), None, None)]));
}

#[test]
fn status_codes_are_told_apart() {
    assert_eq!(verdict_of(QUEUEING), Verdict::Waiting);
    assert_eq!(verdict_of(RUNNING), Verdict::Waiting);
    assert_eq!(verdict_of(AC), Verdict::Accepted);
    assert_eq!(verdict_of(WA), Verdict::Rejected);
}
