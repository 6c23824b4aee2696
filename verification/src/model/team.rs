//! Teams.

use crate::model::traits::{Model, RedisSortedSet, StructFieldNames};
use crate::schema::{all_fields, field_names_of, Kind};
use vstd::prelude::*;

verus! {

/// A team of a contest. `result` holds, as JSON text, what the team has achieved on each label.
#[derive(Debug)]
pub struct Team {
    pub id: i64,
    pub cid: i64,
    pub uid: i64,
    pub name: String,
    pub result: String,
}

impl Default for Team {
    /// A team with no name, whose result is the empty JSON object.
    fn default() -> (r: Self)
        ensures
            r.id == 0,
            r.cid == 0,
            r.uid == 0,
            r.name@ == Seq::<char>::empty(),
            r.result@ == "{}"@,
    {
        Team { id: 0, cid: 0, uid: 0, name: String::new(), result: String::from_str("{}") }
    }
}

impl StructFieldNames for Team {
    open spec fn names() -> Seq<Seq<char>> {
        all_fields(Kind::Team)
    }

    fn field_names() -> (v: Vec<&'static str>) {
        field_names_of(Kind::Team)
    }
}

impl Model for Team {
    open spec fn kind_spec() -> Kind {
        Kind::Team
    }

    fn kind() -> (k: Kind) {
        Kind::Team
    }

    fn id(&self) -> (id: i64) {
        self.id
    }

    open spec fn identity(&self) -> i64 {
        self.id
    }
}

impl RedisSortedSet for Team {
}

} // verus!
