//! Names that the whole crate shares.

use vstd::prelude::*;

verus! {

/// The header that carries the caller's token.
pub const AUTHORIZATION: &'static str = "Authorization";

/// The header under which a new token is handed out.
pub const HEAD_TOKEN_NAME: &'static str = "token";

pub const USER_TABLE_NAME: &'static str = "user";

pub const PROBLEM_TABLE_NAME: &'static str = "problem";

pub const SUBMISSION_TABLE_NAME: &'static str = "submission";

pub const CONTEST_TABLE_NAME: &'static str = "contest";

pub const TEAM_TABLE_NAME: &'static str = "team";

pub const CSUBMISSION_TABLE_NAME: &'static str = "csubmission";

pub const TSUBMISSION_TABLE_NAME: &'static str = "tsubmission";

pub const POST_TABLE_NAME: &'static str = "post";

pub const STAR_TABLE_NAME: &'static str = "star";

pub const COMMENT_TABLE_NAME: &'static str = "comment";

/// How many connections to the relational store are kept.
pub const POSTGRES_POOL_SIZE: usize = 8;

/// How many connections to the key-value store are kept.
pub const REDIS_POOL_SIZE: u64 = 10;

pub const SUPER_ADMIN: &'static str = "super_admin";

pub const ADMIN: &'static str = "admin";

pub const USER: &'static str = "user";

pub const VISITOR: &'static str = "visitor";

/// The identity of the user who judges as administrator.
pub const ROOT_USER: i64 = 1;

} // verus!
