use hoj::bodies::GetBody;
use hoj::error::{Error, ErrorType};
use hoj::forms::{code_of, validate_password, validate_username, FormError};
use hoj::generator::{random_avatar, random_string, CHARSET};
use hoj::model::csubmission::CSubmission;
use hoj::model::submission::Submission;
use hoj::model::team::Team;
use hoj::model::traits::{Model, RedisSortedSet, StructFieldNames};
use hoj::model::tsubmission::TSubmission;
use hoj::model::user::User;
use hoj::model::post::Post;
use hoj::model::problem::Problem;
use hoj::policy::{allowed_enter_of_user, check_new_contest, check_new_problem, check_problem_update,
    check_registration, may_change_post, may_read_submission, may_see_problems, needs_timer, reads_reversed,
    reads_view, reschedules, sight_of_submission, ContestError, ProblemError, RegisterError, Sight};
use hoj::problem_index::{is_indexable, is_open, is_valid_index, last_index, next_index, score_of_index};
use hoj::schema::{Dep, Kind};
use hoj::status::RUNNING;
use hoj::token::{has_bearer, UserToken};
use hoj::user_stats::{change_record, deal_submission_result, int_list_json, problem_mark, StatsChange};
use hoj::value::{Record, Value};
use hoj::wire::window;

#[test]
fn errors_carry_their_kind_and_message() {
    let e = Error::new(ErrorType::Forbidden, "no");
    assert_eq!(e.error_type, ErrorType::Forbidden);
    assert_eq!(e.error, "no");
    assert_eq!(e.describe(), "Forbidden  : no");
    assert_eq!(e.status_code(), 403);
    assert_eq!(Error::none_error("gone").describe(), "NoneError : gone");
    assert_eq!(Error::none_error("gone").status_code(), 404);
    assert_eq!(Error::system_error("db").describe(), "SystemError : db");
    assert_eq!(Error::system_error("db").status_code(), 500);
    assert_eq!(Error::new(ErrorType::Unauthorized, "x").describe(), "Unauthorized  : x");
    assert_eq!(Error::new(ErrorType::Unauthorized, "x").status_code(), 403);
    assert_eq!(Error::new(ErrorType::BadRequest, "x").describe(), "Bad Request  : x");
    assert_eq!(Error::new(ErrorType::BadRequest, "x").status_code(), 400);
}

#[test]
fn an_index_has_a_letter_and_a_number() {
    assert_eq!(score_of_index("P1000"), 1000);
    assert_eq!(score_of_index("U12"), 12);
    assert_eq!(score_of_index("P"), -1);
    assert_eq!(score_of_index("Pabc"), -1);
    assert_eq!(score_of_index("P-5"), -5);
    assert!(is_valid_index("P9"));
    assert!(!is_valid_index("P-1"));
    assert!(!is_valid_index("Px"));
    assert!(is_open("P9"));
    assert!(!is_open("U9"));
    assert!(is_indexable("P9"));
    assert!(!is_indexable(""));
    assert!(!is_indexable("é1"));
    assert_eq!(last_index(true, None), "P999");
    assert_eq!(last_index(false, None), "U999");
    assert_eq!(last_index(true, Some(1041)), "P1041");
    assert_eq!(next_index("P1041"), "P1042");
    assert_eq!(next_index("U999"), "U1000");
}

#[test]
fn a_judged_submission_changes_the_statistics_of_its_author() {
    let c = deal_submission_result(10, 4, vec![1, 2], vec![3, 5, 3], 3, true);
    assert_eq!(
        c,
        StatsChange {
            all_count: 11,
            accepted_count: Some(5),
            solved_problems: Some(vec![1, 2, 3]),
            solved: Some(3),
            failed_problems: Some(vec![5, 3]),
        }
    );
    let c = deal_submission_result(10, 4, vec![1, 2], vec![3], 2, true);
    assert_eq!(c, StatsChange { all_count: 11, accepted_count: Some(5), solved_problems: None, solved: None, failed_problems: None });
    let c = deal_submission_result(10, 4, vec![1], vec![3], 7, true);
    assert_eq!(c.solved_problems, Some(vec![1, 7]));
    assert_eq!(c.failed_problems, None);
    let c = deal_submission_result(10, 4, vec![1], vec![3], 7, false);
    assert_eq!(c, StatsChange { all_count: 11, accepted_count: None, solved_problems: None, solved: None, failed_problems: Some(vec![3, 7]) });
    let c = deal_submission_result(10, 4, vec![1], vec![3], 3, false);
    assert_eq!(c.failed_problems, None);
    let c = deal_submission_result(10, 4, vec![1], vec![3], 1, false);
    assert_eq!(c.failed_problems, None);
}

#[test]
fn a_change_of_statistics_becomes_columns() {
    let c = deal_submission_result(10, 4, vec![1, 2], vec![3], 3, true);
    let columns = change_record(&c);
    assert_eq!(columns.get("all_count"), Some(&Value::Int(11)));
    assert_eq!(columns.get("accepted_count"), Some(&Value::Int(5)));
    assert_eq!(columns.get("solved"), Some(&Value::Int(3)));
    assert_eq!(columns.get("solved_problems"), Some(&Value::json("[1,2,3]")));
    assert_eq!(columns.get("failed_problems"), Some(&Value::json("[]")));
    assert_eq!(int_list_json(&vec![-1, 20]), "[-1,20]");
    assert_eq!(int_list_json(&vec![]), "[]");
    assert_eq!(int_list_json(&vec![i64::MIN, 0, i64::MAX]), "[-9223372036854775808,0,9223372036854775807]");
    assert_eq!(problem_mark(&vec![1], &vec![2], 1), 1);
    assert_eq!(problem_mark(&vec![1], &vec![2], 2), 2);
    assert_eq!(problem_mark(&vec![1], &vec![1, 2], 1), 1);
    assert_eq!(problem_mark(&vec![1], &vec![2], 3), 0);
}

#[test]
fn roles_decide_who_administers() {
    let t = UserToken::from(3, "ann".into(), "admin".into(), 1000, 3600);
    assert_eq!((t.iat, t.exp, t.id, t.privilege), (1000, 4600, 3, 0));
    assert!(t.is_admin() && !t.is_super_admin());
    let t = UserToken::from(1, "root".into(), "super_admin".into(), 0, 1);
    assert!(t.is_admin() && t.is_super_admin());
    let t = UserToken::from(2, "bob".into(), "user".into(), 0, 1);
    assert!(!t.is_admin() && !t.is_super_admin());
    assert!(has_bearer("bearer abc"));
    assert!(has_bearer("Bearer abc"));
    assert!(!has_bearer("BEARER abc"));
    assert!(!has_bearer("bear"));
}

#[test]
fn names_and_passwords_are_checked() {
    assert_eq!(validate_username("ann"), Ok(()));
    assert_eq!(validate_username("皇子"), Ok(()));
    assert_eq!(validate_username("a b"), Err(FormError::WhiteSpace));
    assert_eq!(validate_username("a\u{3000}b"), Err(FormError::WhiteSpace));
    for c in ['\t', '\n', '\u{b}', '\u{c}', '\r', ' ', '\u{85}', '\u{a0}', '\u{1680}', '\u{2000}', '\u{200a}',
        '\u{2028}', '\u{2029}', '\u{202f}', '\u{205f}', '\u{3000}'] {
        assert_eq!(validate_username(&format!("a{}b", c)), Err(FormError::WhiteSpace));
    }
    for c in ['\u{8}', '\u{e}', '\u{200b}', '\u{180e}', '\u{feff}', '_'] {
        assert_eq!(validate_username(&format!("a{}b", c)), Ok(()));
    }
    assert_eq!(validate_password("secret1"), Ok(()));
    assert_eq!(validate_password("se cret"), Err(FormError::WhiteSpace));
    assert_eq!(validate_password("21傻12"), Err(FormError::NotAscii));
    assert_eq!(validate_password("傻 1"), Err(FormError::WhiteSpace));
    assert_eq!(code_of(FormError::WhiteSpace), "white_space");
    assert_eq!(code_of(FormError::NotAscii), "ascii");
}

#[test]
fn random_strings_are_made_of_the_charset() {
    assert_eq!(CHARSET.len(), 131);
    for len in [0, 1, 40] {
        let s = random_string(len);
        assert_eq!(s.chars().count(), len);
        assert!(s.chars().all(|c| CHARSET.contains(c)));
    }
    let avatars = vec!["a.jpg".to_string(), "b.jpg".to_string()];
    for _ in 0..20 {
        assert!(avatars.contains(&random_avatar(&avatars)));
    }
}

#[test]
fn new_submissions_are_created_now_and_running() {
    let s = Submission::from(2, 5, "cpp".into(), "héllo".into());
    assert_eq!((s.id, s.uid, s.pid, s.length, s.status), (0, 2, 5, 6, RUNNING));
    assert!(s.created_at > 1_600_000_000_000);
    assert_eq!(s.code, "héllo");
    let c = CSubmission::from(1, 2, 3, "A".into(), "c".into(), "x".into());
    assert_eq!((c.tid, c.cid, c.pid, c.length, c.status, c.run_id), (1, 2, 3, 1, RUNNING, 0));
    assert!(c.created_at.unwrap() > 1_600_000_000_000);
    let t = TSubmission::from(1, 2, "c".into(), "xy".into());
    assert_eq!((t.uid, t.pid, t.length), (1, 2, 2));
    assert_eq!(Team::default().result, "{}");
}

#[test]
fn entities_tell_the_cache_layer_about_themselves() {
    assert_eq!(Team::table_name(), "team");
    assert_eq!(Team::kind(), Kind::Team);
    assert_eq!(Team::redis_key(4), "team:4");
    assert_eq!(Team::expire(), 259200);
    assert_eq!(Team::zset_expire(), 259200);
    assert_eq!(Team::field_names(), ["id", "cid", "uid", "name", "result"]);
    assert_eq!(Team::zset_key(), "team_zset");
    assert_eq!(Team::one_dep_field(), "cid");
    assert_eq!(Team::zset_key_with_one_dep(Dep::Int(9)), "team_zset:cid=9");
    assert_eq!(Team::sql_with_one_dep(Dep::Int(9)), "SELECT id,cid,uid,name,result FROM \"team\" WHERE cid = '9'");
    assert_eq!(Team::sql(), "SELECT id,cid,uid,name,result FROM \"team\"");
    assert_eq!(Submission::expire(), 28800);
    assert_eq!(CSubmission::zset_expire(), 28800);
    assert_eq!(TSubmission::zset_expire(), 86400);
    assert_eq!(User::zset_expire(), 0);
    assert_eq!(User::zset_fields(), ["id", "username", "role", "avatar", "school", "solved", "all_count", "accepted_count"]);
    assert_eq!(Post::two_dep_fields(), ("cid", "pid"));
    assert_eq!(Post::zset_key_with_two_deps(Dep::Int(0), Dep::Int(7)), "post_zset:cid=0,pid=7");
    assert_eq!(Post::sql_with_two_deps(Dep::Int(0), Dep::Int(7)).ends_with("FROM \"post\" WHERE cid='0' AND pid='7'"), true);
    assert_eq!(Problem::zset_key_with_one_dep(Dep::Flag(true)), "problem_zset:is_open=true");
    let mut t = Team::default();
    t.id = 12;
    assert_eq!(t.id(), 12);
    let mut fields = Record::new();
    fields.insert("id", Value::Int(12));
    assert_eq!(Team::score_from_map(&fields, 0), Some(12));
    fields.insert("index", Value::text("P77"));
    assert_eq!(Problem::score_from_map(&fields, 0), Some(77));
    assert_eq!(User::score_from_map(&fields, 5), None);
    fields.insert("solved", Value::Int(2));
    fields.insert("all_count", Value::Int(4));
    fields.insert("accepted_count", Value::Int(2));
    assert_eq!(User::score_from_map(&fields, 500000000), Some(20500000012));
    assert_eq!(User::score_from_map(&fields, i64::MAX), None);
    fields.insert("all_count", Value::Int(0));
    assert_eq!(User::score_from_map(&fields, 5), Some(21000000012));
}

#[test]
fn the_rules_of_entry() {
    assert_eq!(check_registration(true, 2, 0, true, true), Err(RegisterError::AlreadyRegistered));
    assert_eq!(check_registration(false, 2, 2, true, true), Err(RegisterError::ContestEnded));
    assert_eq!(check_registration(false, 2, 1, false, false), Err(RegisterError::WrongPassword));
    assert_eq!(check_registration(false, 2, 1, false, true), Ok(()));
    assert_eq!(check_registration(false, 2, 1, true, false), Ok(()));
    assert_eq!(check_registration(false, 1, 2, false, false), Ok(()));
    assert!(allowed_enter_of_user(1, false, false));
    assert!(allowed_enter_of_user(2, true, false));
    assert!(allowed_enter_of_user(2, false, true));
    assert!(!allowed_enter_of_user(2, false, false));
    assert!(needs_timer(Some(0)) && needs_timer(Some(1)) && !needs_timer(Some(2)) && !needs_timer(None));
    assert_eq!(check_new_contest(0, true, ""), Err(ContestError::NoLength));
    assert_eq!(check_new_contest(5, false, ""), Err(ContestError::NoPassword));
    assert_eq!(check_new_contest(5, false, "pw"), Ok(()));
    assert_eq!(check_new_contest(5, true, ""), Ok(()));
    assert_eq!(sight_of_submission(false, 2, false, 2), Sight::Hidden);
    assert_eq!(sight_of_submission(true, 2, false, 1), Sight::Summary);
    assert_eq!(sight_of_submission(true, 2, false, 2), Sight::Full);
    assert_eq!(sight_of_submission(false, 1, false, 1), Sight::Full);
    assert_eq!(sight_of_submission(false, 2, true, 0), Sight::Summary);
    assert!(may_read_submission(true, None, 5));
    assert!(!may_read_submission(false, None, 5));
    assert!(may_read_submission(false, Some((5, false)), 5));
    assert!(may_read_submission(false, Some((6, true)), 5));
    assert!(!may_read_submission(false, Some((6, false)), 5));
    assert!(may_change_post(1, 9) && may_change_post(9, 9) && !may_change_post(8, 9));
    assert!(may_see_problems(true, Some(0)));
    assert!(!may_see_problems(false, Some(0)));
    assert!(may_see_problems(false, Some(1)));
    assert!(may_see_problems(false, None));
}

#[test]
fn the_rules_of_problems_and_listings() {
    let mut columns = Record::new();
    assert_eq!(check_problem_update(&columns), Ok(()));
    assert!(reads_view(&columns));
    assert!(!reschedules(&columns));
    columns.insert("title", Value::text("t"));
    assert_eq!(check_problem_update(&columns), Ok(()));
    assert!(!reads_view(&columns));
    columns.insert("is_open", Value::Bool(true));
    assert_eq!(check_problem_update(&columns), Err(ProblemError::OpennessFixed));
    columns.insert("id", Value::Int(1));
    assert_eq!(check_problem_update(&columns), Err(ProblemError::IndexFixed));
    columns.insert("begin", Value::Int(1));
    assert!(reschedules(&columns));
    assert_eq!(check_new_problem("Px", true, false), Err(ProblemError::BadIndex));
    assert_eq!(check_new_problem("P9", false, false), Err(ProblemError::WrongLetter));
    assert_eq!(check_new_problem("U9", true, false), Err(ProblemError::WrongLetter));
    assert_eq!(check_new_problem("P9", true, true), Err(ProblemError::IndexTaken));
    assert_eq!(check_new_problem("U9", false, false), Ok(()));
    assert_eq!(window(Some(10), Some(20)), (20, 29));
    assert_eq!(window(None, None), (0, -1));
    assert_eq!(window(Some(5), None), (0, 4));
    assert!(reads_reversed(None, true));
    assert!(!reads_reversed(Some(true), true));
    assert!(reads_reversed(Some(true), false));
    assert!(!reads_reversed(None, false));
    let body = GetBody { wants: vec!["id".to_string()], id: 3 };
    assert_eq!(body.wants.len(), 1);
}

#[test]
fn the_identity_of_an_entity_is_its_field() {
    let mut u = User::default();
    u.id = 41;
    assert_eq!(u.id(), 41);
    let mut p = Problem::default();
    p.id = -3;
    assert_eq!(p.id(), -3);
    let s = Submission::from(1, 2, "c".into(), "x".into());
    assert_eq!(s.id(), 0);
}
