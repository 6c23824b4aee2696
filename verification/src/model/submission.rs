//! Practice submissions.

use crate::clock::now_millis;
use crate::status::RUNNING;
use crate::model::traits::{Model, RedisSortedSet, StructFieldNames};
use crate::schema::{all_fields, field_names_of, Kind};
use vstd::prelude::*;

verus! {

/// What the judge found on one test case.
#[derive(Debug)]
pub struct CaseResult {
    pub id: i32,
    pub cpu_time: i32,
    pub memory: i32,
    pub info: String,
    pub status: i32,
}

impl Default for CaseResult {
    fn default() -> (r: Self)
        ensures
            r.id == 0,
            r.cpu_time == 0,
            r.memory == 0,
            r.info@ == Seq::<char>::empty(),
            r.status == 0,
    {
        CaseResult {
            id: 0,
            cpu_time: 0,
            memory: 0,
            info: String::new(),
            status: 0,
        }
    }
}

/// A submission made in practice.
#[derive(Debug)]
pub struct Submission {
    pub id: i64,
    pub uid: i64,
    pub pid: i64,
    pub created_at: i64,
    pub lang: String,
    pub code: String,
    pub compile_info: String,
    pub case_count: i16,
    pub pass_count: i16,
    pub length: i32,
    pub time: i32,
    pub memory: i32,
    pub total_time: i32,
    pub status: i32,
    pub error: String,
    pub details: Vec<CaseResult>,
    pub is_open: bool,
}

impl Default for Submission {
    fn default() -> (r: Self)
        ensures
            r.id == 0,
            r.uid == 0,
            r.pid == 0,
            r.created_at == 0,
            r.lang@ == Seq::<char>::empty(),
            r.code@ == Seq::<char>::empty(),
            r.compile_info@ == Seq::<char>::empty(),
            r.case_count == 0,
            r.pass_count == 0,
            r.length == 0,
            r.time == 0,
            r.memory == 0,
            r.total_time == 0,
            r.status == 0,
            r.error@ == Seq::<char>::empty(),
            r.details@.len() == 0,
            !r.is_open,
    {
        Submission {
            id: 0,
            uid: 0,
            pid: 0,
            created_at: 0,
            lang: String::new(),
            code: String::new(),
            compile_info: String::new(),
            case_count: 0,
            pass_count: 0,
            length: 0,
            time: 0,
            memory: 0,
            total_time: 0,
            status: 0,
            error: String::new(),
            details: Vec::new(),
            is_open: false,
        }
    }
}

impl StructFieldNames for Submission {
    open spec fn names() -> Seq<Seq<char>> {
        all_fields(Kind::Submission)
    }

    fn field_names() -> (v: Vec<&'static str>) {
        field_names_of(Kind::Submission)
    }
}

impl Model for Submission {
    open spec fn kind_spec() -> Kind {
        Kind::Submission
    }

    fn kind() -> (k: Kind) {
        Kind::Submission
    }

    fn id(&self) -> (id: i64) {
        self.id
    }

    open spec fn identity(&self) -> i64 {
        self.id
    }
}

impl RedisSortedSet for Submission {
}

impl Submission {
    /// A new submission of `code` by the user `uid` to the problem `pid`,
    /// created now.
    pub fn from(uid: i64, pid: i64, lang: String, code: String) -> (s: Self)
        ensures
            s.id == 0,
            s.uid == uid,
            s.pid == pid,
            s.lang == lang,
            s.code == code,
            s.length == vstd::utf8::encode_utf8(code@).len() as usize as i32,
            s.status == RUNNING,
    {
        let mut s = Submission::default();
        s.uid = uid;
        s.pid = pid;
        s.lang = lang;
        s.created_at = now_millis();
        s.length = #[verifier::truncate] (code.as_str().len() as i32);
        s.code = code;
        s.status = RUNNING;
        s
    }
}

} // verus!
