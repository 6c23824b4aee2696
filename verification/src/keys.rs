//! The keys of the key-value store that stand outside the entity layer.

use crate::text::{int_digits, push_i64};
use vstd::prelude::*;

verus! {

/// The hash object that maps human-readable indexes to identities.
pub const MAPPER_HSET: &'static str = "mapper_hset";

/// The seconds a live status key of a contest submission lives.
pub const STATUS_KEY_EXPIRE: usize = 120;

/// The seconds a cached team identity or submission list lives.
pub const LOOKUP_EXPIRE: usize = 28800;

fn key_of(prefix: &str, id: i64) -> (key: String)
    ensures
        key@ == prefix@ + int_digits(id as int),
{
    let mut key = String::from_str(prefix);
    push_i64(&mut key, id);
    key
}

fn key_of_two(prefix: &str, first: i64, middle: &str, second: i64) -> (key: String)
    ensures
        key@ == prefix@ + int_digits(first as int) + middle@ + int_digits(second as int),
{
    let mut key = String::from_str(prefix);
    push_i64(&mut key, first);
    key.append(middle);
    push_i64(&mut key, second);
    key
}

/// The key under which the team of a user in a contest is remembered.
pub fn team_id_map_key(cid: i64, uid: i64) -> (key: String)
    ensures
        key@ == "tid_cid:"@ + int_digits(cid as int) + "_uid:"@ + int_digits(uid as int),
{
    key_of_two("tid_cid:", cid, "_uid:", uid)
}

/// The live status key of a contest submission.
pub fn csm_status_key(sid: i64) -> (key: String)
    ensures
        key@ == "status_of_csm:"@ + int_digits(sid as int),
{
    key_of("status_of_csm:", sid)
}

/// The key of a contest's run counter.
pub fn get_run_id_key(cid: i64) -> (key: String)
    ensures
        key@ == "contest_run_id:"@ + int_digits(cid as int),
{
    key_of("contest_run_id:", cid)
}

/// The key of a contest's cached ranklist.
pub fn rank_list_key(cid: i64) -> (key: String)
    ensures
        key@ == "ranklist:"@ + int_digits(cid as int),
{
    key_of("ranklist:", cid)
}

/// The seconds a cached ranklist lives: three days.
pub fn ranklist_expire() -> (t: usize)
    ensures
        t == 259200,
{
    24 * 3600 * 3
}

/// The live status key of a practice submission.
pub fn tmp_sm_status_key(sid: i64) -> (key: String)
    ensures
        key@ == "status_of_sm:"@ + int_digits(sid as int),
{
    key_of("status_of_sm:", sid)
}

/// The live status key of a test submission.
pub fn tmp_tsm_status_key(sid: i64) -> (key: String)
    ensures
        key@ == "status_of_tsm:"@ + int_digits(sid as int),
{
    key_of("status_of_tsm:", sid)
}

/// The key of the cached list of a user's submissions to a problem.
pub fn submission_list_key(uid: i64, pid: i64) -> (key: String)
    ensures
        key@ == "submissions_uid:"@ + int_digits(uid as int) + "_pid:"@ + int_digits(pid as int),
{
    key_of_two("submissions_uid:", uid, "_pid:", pid)
}

/// The field of the mapper hash that remembers the last index of the open
/// or of the closed problems.
pub fn get_last_index_mapper_key(is_open: bool) -> (key: &'static str)
    ensures
        key@ == if is_open {
            "pub_last_p_idx"@
        } else {
            "pri_last_p_idx"@
        },
{
    match is_open {
        true => "pub_last_p_idx",
        false => "pri_last_p_idx",
    }
}

} // verus!
