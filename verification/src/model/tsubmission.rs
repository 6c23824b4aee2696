//! Test submissions.

use crate::clock::now_millis;
use crate::model::traits::{Model, RedisSortedSet, StructFieldNames};
use crate::schema::{all_fields, field_names_of, Kind};
use vstd::prelude::*;

verus! {

/// A submission made to test a problem. `result` holds the judge's result as JSON text.
#[derive(Debug)]
pub struct TSubmission {
    pub id: i64,
    pub uid: i64,
    pub pid: i64,
    pub created_at: i64,
    pub lang: String,
    pub code: String,
    pub length: i32,
    pub result: String,
}

impl Default for TSubmission {
    fn default() -> (r: Self)
        ensures
            r.id == 0,
            r.uid == 0,
            r.pid == 0,
            r.created_at == 0,
            r.lang@ == Seq::<char>::empty(),
            r.code@ == Seq::<char>::empty(),
            r.length == 0,
            r.result@ == Seq::<char>::empty(),
    {
        TSubmission {
            id: 0,
            uid: 0,
            pid: 0,
            created_at: 0,
            lang: String::new(),
            code: String::new(),
            length: 0,
            result: String::new(),
        }
    }
}

impl StructFieldNames for TSubmission {
    open spec fn names() -> Seq<Seq<char>> {
        all_fields(Kind::TSubmission)
    }

    fn field_names() -> (v: Vec<&'static str>) {
        field_names_of(Kind::TSubmission)
    }
}

impl Model for TSubmission {
    open spec fn kind_spec() -> Kind {
        Kind::TSubmission
    }

    fn kind() -> (k: Kind) {
        Kind::TSubmission
    }

    fn id(&self) -> (id: i64) {
        self.id
    }

    open spec fn identity(&self) -> i64 {
        self.id
    }
}

impl RedisSortedSet for TSubmission {
}

impl TSubmission {
    /// A new submission of `code` by the user `uid` to the problem `pid`,
    /// created now.
    pub fn from(uid: i64, pid: i64, lang: String, code: String) -> (s: Self)
        ensures
            s.id == 0,
            s.uid == uid,
            s.pid == pid,
            s.lang == lang,
            s.code == code,
            s.length == vstd::utf8::encode_utf8(code@).len() as usize as i32,
    {
        let mut s = TSubmission::default();
        s.uid = uid;
        s.pid = pid;
        s.lang = lang;
        s.created_at = now_millis();
        s.length = #[verifier::truncate] (code.as_str().len() as i32);
        s.code = code;
        s
    }
}

} // verus!
