//! Contest submissions.

use crate::clock::now_millis;
use crate::model::submission::CaseResult;
use crate::status::RUNNING;
use crate::model::traits::{Model, RedisSortedSet, StructFieldNames};
use crate::schema::{all_fields, field_names_of, Kind};
use vstd::prelude::*;

verus! {

/// A submission made in a contest.
#[derive(Debug)]
pub struct CSubmission {
    pub id: i64,
    pub run_id: i64,
    pub tid: i64,
    pub cid: i64,
    pub pid: i64,
    pub label: String,
    pub author: String,
    pub created_at: Option<i64>,
    pub lang: String,
    pub code: String,
    pub compile_info: String,
    pub case_count: i16,
    pub pass_count: i16,
    pub length: i32,
    pub time: i32,
    pub memory: i32,
    pub total_time: i32,
    pub status: i32,
    pub error: String,
    pub details: Vec<CaseResult>,
    pub is_open: bool,
}

impl Default for CSubmission {
    fn default() -> (r: Self)
        ensures
            r.id == 0,
            r.run_id == 0,
            r.tid == 0,
            r.cid == 0,
            r.pid == 0,
            r.label@ == Seq::<char>::empty(),
            r.author@ == Seq::<char>::empty(),
            r.created_at is None,
            r.lang@ == Seq::<char>::empty(),
            r.code@ == Seq::<char>::empty(),
            r.compile_info@ == Seq::<char>::empty(),
            r.case_count == 0,
            r.pass_count == 0,
            r.length == 0,
            r.time == 0,
            r.memory == 0,
            r.total_time == 0,
            r.status == 0,
            r.error@ == Seq::<char>::empty(),
            r.details@.len() == 0,
            !r.is_open,
    {
        CSubmission {
            id: 0,
            run_id: 0,
            tid: 0,
            cid: 0,
            pid: 0,
            label: String::new(),
            author: String::new(),
            created_at: None,
            lang: String::new(),
            code: String::new(),
            compile_info: String::new(),
            case_count: 0,
            pass_count: 0,
            length: 0,
            time: 0,
            memory: 0,
            total_time: 0,
            status: 0,
            error: String::new(),
            details: Vec::new(),
            is_open: false,
        }
    }
}

impl StructFieldNames for CSubmission {
    open spec fn names() -> Seq<Seq<char>> {
        all_fields(Kind::CSubmission)
    }

    fn field_names() -> (v: Vec<&'static str>) {
        field_names_of(Kind::CSubmission)
    }
}

impl Model for CSubmission {
    open spec fn kind_spec() -> Kind {
        Kind::CSubmission
    }

    fn kind() -> (k: Kind) {
        Kind::CSubmission
    }

    fn id(&self) -> (id: i64) {
        self.id
    }

    open spec fn identity(&self) -> i64 {
        self.id
    }
}

impl RedisSortedSet for CSubmission {
}

impl CSubmission {
    /// A new submission of `code` by the team `tid` to the problem `pid`
    /// of the contest `cid`, created now.
    pub fn from(tid: i64, cid: i64, pid: i64, label: String, lang: String, code: String) -> (s: Self)
        ensures
            s.id == 0,
            s.run_id == 0,
            s.tid == tid,
            s.cid == cid,
            s.pid == pid,
            s.label == label,
            s.lang == lang,
            s.code == code,
            s.created_at is Some,
            s.length == vstd::utf8::encode_utf8(code@).len() as usize as i32,
            s.status == RUNNING,
    {
        let mut s = CSubmission::default();
        s.created_at = Some(now_millis());
        s.tid = tid;
        s.cid = cid;
        s.pid = pid;
        s.label = label;
        s.lang = lang;
        s.length = #[verifier::truncate] (code.as_str().len() as i32);
        s.code = code;
        s.status = RUNNING;
        s
    }
}

} // verus!
