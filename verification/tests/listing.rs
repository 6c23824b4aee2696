use hoj::listing::{live_status, reads_problem_view, route, with_names, Route};
use hoj::value::{Record, Value};
use std::collections::HashMap;

fn row(id: i64, uid: i64, pid: i64) -> Record {
    let mut r = Record::new();
    r.insert("id", Value::Int(id));
    r.insert("uid", Value::Int(uid));
    r.insert("pid", Value::Int(pid));
    r
}

#[test]
fn rows_get_the_names_of_their_author_and_problem() {
    let rows = vec![row(1, 10, 100), row(2, 11, 100), row(3, 10, 101), row(4, 10, 102)];
    let users: HashMap<i64, String> = [(10, "ann".to_string())].into_iter().collect();
    let titles: HashMap<i64, String> = [(100, "Sum".to_string()), (101, "Sort".to_string())].into_iter().collect();
    let indexes: HashMap<i64, String> = [(100, "P1000".to_string()), (101, "P1001".to_string())].into_iter().collect();
    let named = with_names(&rows, Some(&users), &titles, &indexes);
    assert_eq!(named.len(), 2);
    assert_eq!(named[0].get("id"), Some(&Value::Int(1)));
    assert_eq!(named[0].get("username"), Some(&Value::text("ann")));
    assert_eq!(named[0].get("title"), Some(&Value::text("Sum")));
    assert_eq!(named[0].get("index"), Some(&Value::text("P1000")));
    assert_eq!(named[1].get("id"), Some(&Value::Int(3)));
    assert_eq!(named[1].get("index"), Some(&Value::text("P1001")));
    let named = with_names(&rows, None, &titles, &indexes);
    assert_eq!(named.len(), 3);
    assert_eq!(named[1].get("username"), None);
    assert_eq!(named[1].get("title"), Some(&Value::text("Sum")));
    assert_eq!(rows[0].len(), 3);
}

#[test]
fn a_listing_is_read_where_its_filter_leads() {
    assert_eq!(route(true, false, 1), Route::ByProblem);
    assert_eq!(route(true, true, 2), Route::ByUserAndProblem);
    assert_eq!(route(true, true, 3), Route::Filtered);
    assert_eq!(route(true, false, 2), Route::Filtered);
    assert_eq!(route(false, true, 1), Route::Filtered);
    assert_eq!(route(false, false, 0), Route::Filtered);
    assert!(reads_problem_view(true, 1));
    assert!(!reads_problem_view(true, 2));
    assert!(!reads_problem_view(false, 1));
}

#[test]
fn the_live_status_comes_before_the_stored_one() {
    assert_eq!(live_status(false, Some(2)), Some(2));
    assert_eq!(live_status(false, None), None);
    assert_eq!(live_status(true, None), Some(0));
    assert_eq!(live_status(true, Some(1)), Some(1));
}
