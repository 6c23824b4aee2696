//! Users.

use crate::score::composite;
use crate::text::{int_digits, push_i64};
use crate::model::traits::{Model, RedisSortedSet, StructFieldNames};
use crate::schema::{all_fields, field_names_of, Kind};
use vstd::prelude::*;

verus! {

/// A user.
#[derive(Debug)]
pub struct User {
    pub id: i64,
    pub created_at: Option<i64>,
    pub username: String,
    pub password: String,
    pub school: String,
    pub email: String,
    pub role: Option<String>,
    pub description: Option<String>,
    pub avatar: String,
    pub rating: Option<i32>,
    pub privilege: i64,
    pub solved: i32,
    pub all_count: i32,
    pub accepted_count: i32,
    pub solved_problems: Vec<i64>,
    pub failed_problems: Vec<i64>,
}

impl Default for User {
    fn default() -> (r: Self)
        ensures
            r.id == 0,
            r.created_at is None,
            r.username@ == Seq::<char>::empty(),
            r.password@ == Seq::<char>::empty(),
            r.school@ == Seq::<char>::empty(),
            r.email@ == Seq::<char>::empty(),
            r.role is None,
            r.description is None,
            r.avatar@ == Seq::<char>::empty(),
            r.rating is None,
            r.privilege == 0,
            r.solved == 0,
            r.all_count == 0,
            r.accepted_count == 0,
            r.solved_problems@.len() == 0,
            r.failed_problems@.len() == 0,
    {
        User {
            id: 0,
            created_at: None,
            username: String::new(),
            password: String::new(),
            school: String::new(),
            email: String::new(),
            role: None,
            description: None,
            avatar: String::new(),
            rating: None,
            privilege: 0,
            solved: 0,
            all_count: 0,
            accepted_count: 0,
            solved_problems: Vec::new(),
            failed_problems: Vec::new(),
        }
    }
}

impl StructFieldNames for User {
    open spec fn names() -> Seq<Seq<char>> {
        all_fields(Kind::User)
    }

    fn field_names() -> (v: Vec<&'static str>) {
        field_names_of(Kind::User)
    }
}

impl Model for User {
    open spec fn kind_spec() -> Kind {
        Kind::User
    }

    fn kind() -> (k: Kind) {
        Kind::User
    }

    fn id(&self) -> (id: i64) {
        self.id
    }

    open spec fn identity(&self) -> i64 {
        self.id
    }
}

impl RedisSortedSet for User {
}

impl User {
    /// The key under which the token of a user is kept.
    pub fn jwt_token_key(id: i64) -> (key: String)
        ensures
            key@ == "jwt_token_of_user:"@ + int_digits(id as int),
    {
        let mut key = String::from_str("jwt_token_of_user:");
        push_i64(&mut key, id);
        key
    }

    /// Whether a user's score fits into 64 bits.
    pub open spec fn scorable(id: i64, solved: i64, ratio: i64) -> bool {
        i64::MIN <= composite(id, solved, ratio) <= i64::MAX
    }

    /// The score of a user in the ranking: the solved problems weigh most,
    /// then the accuracy ratio, then the identity. `ratio` is the share of
    /// accepted submissions in thousand-millionths, as the caller computes
    /// it.
    pub fn redis_score(id: i64, solved: i64, ratio: i64) -> (score: i64)
        requires
            Self::scorable(id, solved, ratio),
        ensures
            score == composite(id, solved, ratio),
    {
        let weighted: i128 = (solved as i128) * 10000000000;
        let wide: i128 = weighted + (ratio as i128) + (id as i128);
        wide as i64
    }
}

} // verus!
