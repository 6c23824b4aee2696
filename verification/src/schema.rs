//! The entity kinds and what the cache layer has to know of each: its
//! table, its fields, how long its cached copies live, which fields its
//! sorted-set views carry and by which foreign keys they are scoped.

use crate::text::{int_digits, push_i64, slices};
use vstd::prelude::*;

verus! {

/// The kinds of entity the stores hold.
#[derive(Debug, Clone, Copy, PartialEq, Eq, Structural)]
pub enum Kind {
    User,
    Problem,
    Submission,
    Contest,
    Team,
    CSubmission,
    TSubmission,
    Post,
    Comment,
}

/// A foreign-key value that scopes a sorted-set view.
#[derive(Debug, Clone, Copy, PartialEq, Eq, Structural)]
pub enum Dep {
    Int(i64),
    Flag(bool),
}

/// Which rows of a kind a sorted-set view mirrors: all of them, those with
/// one foreign key at a given value, or those with two.
#[derive(Debug, Clone, Copy, PartialEq, Eq, Structural)]
pub enum Scope {
    Whole,
    By(Dep),
    ByTwo(Dep, Dep),
}

/// How long a cached copy lives where a kind says nothing else: three days,
/// in seconds.
pub const DEFAULT_EXPIRE: usize = 259200;


/// A dependency value as it is written into keys and statements.
pub open spec fn dep_text(dep: Dep) -> Seq<char> {
    match dep {
        Dep::Int(i) => int_digits(i as int),
        Dep::Flag(b) => if b {
            "true"@
        } else {
            "false"@
        },
    }
}

/// Appends a dependency value to `out`.
pub fn push_dep(out: &mut String, dep: Dep)
    ensures
        final(out)@ == old(out)@ + dep_text(dep),
{
    match dep {
        Dep::Int(i) => push_i64(out, i),
        Dep::Flag(b) => {
            if b {
                out.append("true")
            } else {
                out.append("false")
            }
        },
    }
}

/// The name of a kind's table.
pub open spec fn table(kind: Kind) -> Seq<char> {
    match kind {
        Kind::User => "user"@,
        Kind::Problem => "problem"@,
        Kind::Submission => "submission"@,
        Kind::Contest => "contest"@,
        Kind::Team => "team"@,
        Kind::CSubmission => "csubmission"@,
        Kind::TSubmission => "tsubmission"@,
        Kind::Post => "post"@,
        Kind::Comment => "comment"@,
    }
}

/// The name of a kind's table.
pub fn table_name(kind: Kind) -> (s: &'static str)
    ensures
        s@ == table(kind),
{
    match kind {
        Kind::User => "user",
        Kind::Problem => "problem",
        Kind::Submission => "submission",
        Kind::Contest => "contest",
        Kind::Team => "team",
        Kind::CSubmission => "csubmission",
        Kind::TSubmission => "tsubmission",
        Kind::Post => "post",
        Kind::Comment => "comment",
    }
}

/// The seconds a kind's cached hash object lives.
pub open spec fn hash_ttl(kind: Kind) -> usize {
    match kind {
        Kind::User => DEFAULT_EXPIRE,
        Kind::Problem => DEFAULT_EXPIRE,
        Kind::Submission => 28800,
        Kind::Contest => DEFAULT_EXPIRE,
        Kind::Team => DEFAULT_EXPIRE,
        Kind::CSubmission => 28800,
        Kind::TSubmission => 28800,
        Kind::Post => DEFAULT_EXPIRE,
        Kind::Comment => DEFAULT_EXPIRE,
    }
}

/// The seconds a kind's cached hash object lives.
pub fn expire_of(kind: Kind) -> (t: usize)
    ensures
        t == hash_ttl(kind),
{
    match kind {
        Kind::Submission | Kind::CSubmission | Kind::TSubmission => 8 * 3600,
        _ => DEFAULT_EXPIRE,
    }
}

/// The seconds a kind's sorted-set views live; 0 stands for no limit.
pub open spec fn view_ttl(kind: Kind) -> usize {
    match kind {
        Kind::User => 0,
        Kind::Problem => 0,
        Kind::Submission => 259200,
        Kind::Contest => 0,
        Kind::Team => 259200,
        Kind::CSubmission => 28800,
        Kind::TSubmission => 86400,
        Kind::Post => 86400,
        Kind::Comment => 86400,
    }
}

/// The seconds a kind's sorted-set views live; 0 stands for no limit.
pub fn zset_expire_of(kind: Kind) -> (t: usize)
    ensures
        t == view_ttl(kind),
{
    match kind {
        Kind::User => 0,
        Kind::Problem => 0,
        Kind::Submission => 3600 * 24 * 3,
        Kind::Contest => 0,
        Kind::Team => 3600 * 24 * 3,
        Kind::CSubmission => 3600 * 8,
        Kind::TSubmission => 3600 * 24,
        Kind::Post => 24 * 3600,
        Kind::Comment => 24 * 3600,
    }
}

/// The foreign key that scopes a kind's views by one value; empty where the
/// kind names none.
pub open spec fn dep_field(kind: Kind) -> Seq<char> {
    match kind {
        Kind::User => ""@,
        Kind::Problem => "is_open"@,
        Kind::Submission => "pid"@,
        Kind::Contest => ""@,
        Kind::Team => "cid"@,
        Kind::CSubmission => "cid"@,
        Kind::TSubmission => "pid"@,
        Kind::Post => ""@,
        Kind::Comment => "post_id"@,
    }
}

/// The foreign key that scopes a kind's views by one value.
pub fn one_dep_field_of(kind: Kind) -> (s: &'static str)
    ensures
        s@ == dep_field(kind),
{
    match kind {
        Kind::User => "",
        Kind::Problem => "is_open",
        Kind::Submission => "pid",
        Kind::Contest => "",
        Kind::Team => "cid",
        Kind::CSubmission => "cid",
        Kind::TSubmission => "pid",
        Kind::Post => "",
        Kind::Comment => "post_id",
    }
}

/// The two foreign keys that scope a kind's views by two values; empty
/// where the kind names none.
pub open spec fn dep_fields(kind: Kind) -> (Seq<char>, Seq<char>) {
    match kind {
        Kind::Post => ("cid"@, "pid"@),
        _ => (""@, ""@),
    }
}

/// The two foreign keys that scope a kind's views by two values.
pub fn two_dep_fields_of(kind: Kind) -> (s: (&'static str, &'static str))
    ensures
        (s.0@, s.1@) == dep_fields(kind),
{
    match kind {
        Kind::Post => ("cid", "pid"),
        _ => ("", ""),
    }
}

/// Every field of a kind, in the order of its columns.
pub open spec fn all_fields(kind: Kind) -> Seq<Seq<char>> {
    match kind {
        Kind::User => seq![
            "id"@,
            "created_at"@,
            "username"@,
            "password"@,
            "school"@,
            "email"@,
            "role"@,
            "description"@,
            "avatar"@,
            "rating"@,
            "privilege"@,
            "solved"@,
            "all_count"@,
            "accepted_count"@,
            "solved_problems"@,
            "failed_problems"@,
        ],
        Kind::Problem => seq![
            "id"@,
            "index"@,
            "is_open"@,
            "created_at"@,
            "author"@,
            "source"@,
            "title"@,
            "background"@,
            "statement"@,
            "input"@,
            "output"@,
            "hint"@,
            "examples_in"@,
            "examples_out"@,
            "time_limit"@,
            "memory_limit"@,
            "tags"@,
            "accepted_count"@,
            "all_count"@,
            "spj_config"@,
            "test_cases"@,
            "checker"@,
        ],
        Kind::Submission => seq![
            "id"@,
            "uid"@,
            "pid"@,
            "created_at"@,
            "lang"@,
            "code"@,
            "compile_info"@,
            "case_count"@,
            "pass_count"@,
            "length"@,
            "time"@,
            "memory"@,
            "total_time"@,
            "status"@,
            "error"@,
            "details"@,
            "is_open"@,
        ],
        Kind::Contest => seq![
            "id"@,
            "created_at"@,
            "title"@,
            "begin"@,
            "length"@,
            "description"@,
            "author"@,
            "is_open"@,
            "password"@,
            "format"@,
            "status"@,
            "team_count"@,
            "problems"@,
            "clarifications"@,
        ],
        Kind::Team => seq![
            "id"@,
            "cid"@,
            "uid"@,
            "name"@,
            "result"@,
        ],
        Kind::CSubmission => seq![
            "id"@,
            "run_id"@,
            "tid"@,
            "cid"@,
            "pid"@,
            "label"@,
            "author"@,
            "created_at"@,
            "lang"@,
            "code"@,
            "compile_info"@,
            "case_count"@,
            "pass_count"@,
            "length"@,
            "time"@,
            "memory"@,
            "total_time"@,
            "status"@,
            "error"@,
            "details"@,
            "is_open"@,
        ],
        Kind::TSubmission => seq![
            "id"@,
            "uid"@,
            "pid"@,
            "created_at"@,
            "lang"@,
            "code"@,
            "length"@,
            "result"@,
        ],
        Kind::Post => seq![
            "id"@,
            "created_at"@,
            "updated_at"@,
            "uid"@,
            "cid"@,
            "pid"@,
            "kind"@,
            "title"@,
            "content"@,
            "tags"@,
            "comment_count"@,
            "comment_allowable"@,
        ],
        Kind::Comment => seq![
            "id"@,
            "created_at"@,
            "uid"@,
            "post_id"@,
            "reply_id"@,
            "content"@,
        ],
    }
}

/// Every field of a kind, in the order of its columns.
pub fn field_names_of(kind: Kind) -> (v: Vec<&'static str>)
    ensures
        slices(v@) == all_fields(kind),
{
    let v = match kind {
        Kind::User => vec![
            "id",
            "created_at",
            "username",
            "password",
            "school",
            "email",
            "role",
            "description",
            "avatar",
            "rating",
            "privilege",
            "solved",
            "all_count",
            "accepted_count",
            "solved_problems",
            "failed_problems",
        ],
        Kind::Problem => vec![
            "id",
            "index",
            "is_open",
            "created_at",
            "author",
            "source",
            "title",
            "background",
            "statement",
            "input",
            "output",
            "hint",
            "examples_in",
            "examples_out",
            "time_limit",
            "memory_limit",
            "tags",
            "accepted_count",
            "all_count",
            "spj_config",
            "test_cases",
            "checker",
        ],
        Kind::Submission => vec![
            "id",
            "uid",
            "pid",
            "created_at",
            "lang",
            "code",
            "compile_info",
            "case_count",
            "pass_count",
            "length",
            "time",
            "memory",
            "total_time",
            "status",
            "error",
            "details",
            "is_open",
        ],
        Kind::Contest => vec![
            "id",
            "created_at",
            "title",
            "begin",
            "length",
            "description",
            "author",
            "is_open",
            "password",
            "format",
            "status",
            "team_count",
            "problems",
            "clarifications",
        ],
        Kind::Team => vec![
            "id",
            "cid",
            "uid",
            "name",
            "result",
        ],
        Kind::CSubmission => vec![
            "id",
            "run_id",
            "tid",
            "cid",
            "pid",
            "label",
            "author",
            "created_at",
            "lang",
            "code",
            "compile_info",
            "case_count",
            "pass_count",
            "length",
            "time",
            "memory",
            "total_time",
            "status",
            "error",
            "details",
            "is_open",
        ],
        Kind::TSubmission => vec![
            "id",
            "uid",
            "pid",
            "created_at",
            "lang",
            "code",
            "length",
            "result",
        ],
        Kind::Post => vec![
            "id",
            "created_at",
            "updated_at",
            "uid",
            "cid",
            "pid",
            "kind",
            "title",
            "content",
            "tags",
            "comment_count",
            "comment_allowable",
        ],
        Kind::Comment => vec![
            "id",
            "created_at",
            "uid",
            "post_id",
            "reply_id",
            "content",
        ],
    };
    assert(slices(v@) =~= all_fields(kind));
    v
}

/// The fields that a member of a kind's sorted-set views carries.
pub open spec fn view_fields(kind: Kind) -> Seq<Seq<char>> {
    match kind {
        Kind::User => seq![
            "id"@,
            "username"@,
            "role"@,
            "avatar"@,
            "school"@,
            "solved"@,
            "all_count"@,
            "accepted_count"@,
        ],
        Kind::Problem => seq![
            "id"@,
            "index"@,
            "is_open"@,
            "created_at"@,
            "author"@,
            "source"@,
            "title"@,
            "tags"@,
            "accepted_count"@,
            "all_count"@,
        ],
        Kind::Submission => seq![
            "id"@,
            "uid"@,
            "pid"@,
            "created_at"@,
            "status"@,
            "lang"@,
            "length"@,
            "time"@,
            "memory"@,
            "total_time"@,
            "is_open"@,
        ],
        Kind::Contest => all_fields(kind),
        Kind::Team => all_fields(kind),
        Kind::CSubmission => seq![
            "id"@,
            "run_id"@,
            "tid"@,
            "cid"@,
            "pid"@,
            "label"@,
            "author"@,
            "created_at"@,
            "status"@,
            "lang"@,
            "length"@,
            "time"@,
            "memory"@,
            "total_time"@,
            "is_open"@,
        ],
        Kind::TSubmission => seq![
            "id"@,
            "uid"@,
            "pid"@,
            "created_at"@,
            "length"@,
            "lang"@,
            "code"@,
            "result"@,
        ],
        Kind::Post => all_fields(kind),
        Kind::Comment => all_fields(kind),
    }
}

/// The fields that a member of a kind's sorted-set views carries.
pub fn zset_fields_of(kind: Kind) -> (v: Vec<&'static str>)
    ensures
        slices(v@) == view_fields(kind),
{
    match kind {
        Kind::User => {
            let v = vec![
                "id",
                "username",
                "role",
                "avatar",
                "school",
                "solved",
                "all_count",
                "accepted_count",
            ];
            assert(slices(v@) =~= view_fields(kind));
            v
        },
        Kind::Problem => {
            let v = vec![
                "id",
                "index",
                "is_open",
                "created_at",
                "author",
                "source",
                "title",
                "tags",
                "accepted_count",
                "all_count",
            ];
            assert(slices(v@) =~= view_fields(kind));
            v
        },
        Kind::Submission => {
            let v = vec![
                "id",
                "uid",
                "pid",
                "created_at",
                "status",
                "lang",
                "length",
                "time",
                "memory",
                "total_time",
                "is_open",
            ];
            assert(slices(v@) =~= view_fields(kind));
            v
        },
        Kind::Contest => field_names_of(kind),
        Kind::Team => field_names_of(kind),
        Kind::CSubmission => {
            let v = vec![
                "id",
                "run_id",
                "tid",
                "cid",
                "pid",
                "label",
                "author",
                "created_at",
                "status",
                "lang",
                "length",
                "time",
                "memory",
                "total_time",
                "is_open",
            ];
            assert(slices(v@) =~= view_fields(kind));
            v
        },
        Kind::TSubmission => {
            let v = vec![
                "id",
                "uid",
                "pid",
                "created_at",
                "length",
                "lang",
                "code",
                "result",
            ];
            assert(slices(v@) =~= view_fields(kind));
            v
        },
        Kind::Post => field_names_of(kind),
        Kind::Comment => field_names_of(kind),
    }
}

/// The key of the hash object that mirrors the row `id` of a kind.
pub open spec fn hash_key(kind: Kind, id: i64) -> Seq<char> {
    table(kind) + seq![':'] + int_digits(id as int)
}

/// The key of the hash object that mirrors the row `id` of a kind.
pub fn redis_key_of(kind: Kind, id: i64) -> (key: String)
    ensures
        key@ == hash_key(kind, id),
{
    let mut key = String::from_str(table_name(kind));
    key.push(':');
    push_i64(&mut key, id);
    key
}

/// The key of the sorted-set view of a kind in a scope.
pub open spec fn view_key(kind: Kind, scope: Scope) -> Seq<char> {
    match scope {
        Scope::Whole => table(kind) + "_zset"@,
        Scope::By(dep) => table(kind) + "_zset:"@ + dep_field(kind) + seq!['='] + dep_text(dep),
        Scope::ByTwo(first, second) => table(kind) + "_zset:"@ + dep_fields(kind).0 + seq!['=']
            + dep_text(first) + seq![','] + dep_fields(kind).1 + seq!['='] + dep_text(second),
    }
}

/// The key of the sorted-set view of a kind in a scope.
pub fn zset_key_of(kind: Kind, scope: Scope) -> (key: String)
    ensures
        key@ == view_key(kind, scope),
{
    let mut key = String::from_str(table_name(kind));
    match scope {
        Scope::Whole => {
            key.append("_zset");
        },
        Scope::By(dep) => {
            key.append("_zset:");
            key.append(one_dep_field_of(kind));
            key.push('=');
            push_dep(&mut key, dep);
        },
        Scope::ByTwo(first, second) => {
            let fields = two_dep_fields_of(kind);
            key.append("_zset:");
            key.append(fields.0);
            key.push('=');
            push_dep(&mut key, first);
            key.push(',');
            key.append(fields.1);
            key.push('=');
            push_dep(&mut key, second);
        },
    }
    key
}

} // verus!
