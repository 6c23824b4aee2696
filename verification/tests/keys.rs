use hoj::keys::{csm_status_key, get_last_index_mapper_key, get_run_id_key, rank_list_key,
    ranklist_expire, submission_list_key, team_id_map_key, tmp_sm_status_key, tmp_tsm_status_key};
use hoj::model::user::User;

#[test]
fn team_key_names_contest_and_user() {
    assert_eq!(team_id_map_key(7, 42), "tid_cid:7_uid:42");
    assert_eq!(team_id_map_key(-3, 0), "tid_cid:-3_uid:0");
}

#[test]
fn status_keys_name_the_submission() {
    assert_eq!(csm_status_key(15), "status_of_csm:15");
    assert_eq!(tmp_sm_status_key(9), "status_of_sm:9");
    assert_eq!(tmp_tsm_status_key(1000), "status_of_tsm:1000");
}

#[test]
fn contest_keys() {
    assert_eq!(get_run_id_key(3), "contest_run_id:3");
    assert_eq!(rank_list_key(3), "ranklist:3");
    assert_eq!(ranklist_expire(), 259200);
}

#[test]
fn submission_list_key_names_user_and_problem() {
    assert_eq!(submission_list_key(2, 1001), "submissions_uid:2_pid:1001");
}

#[test]
fn last_index_mapper_keys() {
    assert_eq!(get_last_index_mapper_key(true), "pub_last_p_idx");
    assert_eq!(get_last_index_mapper_key(false), "pri_last_p_idx");
}

#[test]
fn token_key_of_a_user() {
    assert_eq!(User::jwt_token_key(12), "jwt_token_of_user:12");
    assert_eq!(User::jwt_token_key(i64::MIN), "jwt_token_of_user:-9223372036854775808");
}

#[test]
fn user_score_weighs_solved_then_ratio_then_identity() {
    assert_eq!(User::redis_score(5, 3, 500000000), 30500000005);
    assert_eq!(User::redis_score(1, 0, 1000000000), 1000000001);
}
