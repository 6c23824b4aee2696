//! Comments.

use crate::model::traits::{Model, RedisSortedSet, StructFieldNames};
use crate::schema::{all_fields, field_names_of, Kind};
use vstd::prelude::*;

verus! {

/// A comment on a post.
#[derive(Debug)]
pub struct Comment {
    pub id: i64,
    pub created_at: i64,
    pub uid: i64,
    pub post_id: i64,
    pub reply_id: i64,
    pub content: String,
}

impl Default for Comment {
    fn default() -> (r: Self)
        ensures
            r.id == 0,
            r.created_at == 0,
            r.uid == 0,
            r.post_id == 0,
            r.reply_id == 0,
            r.content@ == Seq::<char>::empty(),
    {
        Comment {
            id: 0,
            created_at: 0,
            uid: 0,
            post_id: 0,
            reply_id: 0,
            content: String::new(),
        }
    }
}

impl StructFieldNames for Comment {
    open spec fn names() -> Seq<Seq<char>> {
        all_fields(Kind::Comment)
    }

    fn field_names() -> (v: Vec<&'static str>) {
        field_names_of(Kind::Comment)
    }
}

impl Model for Comment {
    open spec fn kind_spec() -> Kind {
        Kind::Comment
    }

    fn kind() -> (k: Kind) {
        Kind::Comment
    }

    fn id(&self) -> (id: i64) {
        self.id
    }

    open spec fn identity(&self) -> i64 {
        self.id
    }
}

impl RedisSortedSet for Comment {
}

} // verus!
