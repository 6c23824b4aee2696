//! Posts.

use crate::model::problem::Tag;
use crate::model::traits::{Model, RedisSortedSet, StructFieldNames};
use crate::schema::{all_fields, field_names_of, Kind};
use vstd::prelude::*;

verus! {

/// A post in a discussion.
#[derive(Debug)]
pub struct Post {
    pub id: i64,
    pub created_at: i64,
    pub updated_at: i64,
    pub uid: i64,
    pub cid: i64,
    pub pid: i64,
    pub kind: i32,
    pub title: String,
    pub content: String,
    pub tags: Vec<Tag>,
    pub comment_count: u32,
    pub comment_allowable: bool,
}

impl Default for Post {
    fn default() -> (r: Self)
        ensures
            r.id == 0,
            r.created_at == 0,
            r.updated_at == 0,
            r.uid == 0,
            r.cid == 0,
            r.pid == 0,
            r.kind == 0,
            r.title@ == Seq::<char>::empty(),
            r.content@ == Seq::<char>::empty(),
            r.tags@.len() == 0,
            r.comment_count == 0,
            !r.comment_allowable,
    {
        Post {
            id: 0,
            created_at: 0,
            updated_at: 0,
            uid: 0,
            cid: 0,
            pid: 0,
            kind: 0,
            title: String::new(),
            content: String::new(),
            tags: Vec::new(),
            comment_count: 0,
            comment_allowable: false,
        }
    }
}

impl StructFieldNames for Post {
    open spec fn names() -> Seq<Seq<char>> {
        all_fields(Kind::Post)
    }

    fn field_names() -> (v: Vec<&'static str>) {
        field_names_of(Kind::Post)
    }
}

impl Model for Post {
    open spec fn kind_spec() -> Kind {
        Kind::Post
    }

    fn kind() -> (k: Kind) {
        Kind::Post
    }

    fn id(&self) -> (id: i64) {
        self.id
    }

    open spec fn identity(&self) -> i64 {
        self.id
    }
}

impl RedisSortedSet for Post {
}

} // verus!
