//! Contests.

use crate::aggregate::ContestProblem;
use crate::model::traits::{Model, RedisSortedSet, StructFieldNames};
use crate::schema::{all_fields, field_names_of, Kind};
use vstd::prelude::*;

verus! {

/// A contest: when it begins, how many minutes it lasts, and the tallies of its problems.
#[derive(Debug)]
pub struct Contest {
    pub id: i64,
    pub created_at: i64,
    pub title: String,
    pub begin: i64,
    pub length: i32,
    pub description: String,
    pub author: String,
    pub is_open: bool,
    pub password: String,
    pub format: String,
    pub status: i16,
    pub team_count: i32,
    pub problems: Vec<ContestProblem>,
    pub clarifications: Vec<String>,
}

impl Default for Contest {
    fn default() -> (r: Self)
        ensures
            r.id == 0,
            r.created_at == 0,
            r.title@ == Seq::<char>::empty(),
            r.begin == 0,
            r.length == 0,
            r.description@ == Seq::<char>::empty(),
            r.author@ == Seq::<char>::empty(),
            !r.is_open,
            r.password@ == Seq::<char>::empty(),
            r.format@ == Seq::<char>::empty(),
            r.status == 0,
            r.team_count == 0,
            r.problems@.len() == 0,
            r.clarifications@.len() == 0,
    {
        Contest {
            id: 0,
            created_at: 0,
            title: String::new(),
            begin: 0,
            length: 0,
            description: String::new(),
            author: String::new(),
            is_open: false,
            password: String::new(),
            format: String::new(),
            status: 0,
            team_count: 0,
            problems: Vec::new(),
            clarifications: Vec::new(),
        }
    }
}

impl StructFieldNames for Contest {
    open spec fn names() -> Seq<Seq<char>> {
        all_fields(Kind::Contest)
    }

    fn field_names() -> (v: Vec<&'static str>) {
        field_names_of(Kind::Contest)
    }
}

impl Model for Contest {
    open spec fn kind_spec() -> Kind {
        Kind::Contest
    }

    fn kind() -> (k: Kind) {
        Kind::Contest
    }

    fn id(&self) -> (id: i64) {
        self.id
    }

    open spec fn identity(&self) -> i64 {
        self.id
    }
}

impl RedisSortedSet for Contest {
}

} // verus!
