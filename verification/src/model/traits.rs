//! What an entity tells the cache layer about itself.

use crate::schema::{dep_field, dep_fields, expire_of, hash_key, hash_ttl, one_dep_field_of,
    redis_key_of, table, table_name, two_dep_fields_of, view_fields, view_key, view_ttl,
    zset_expire_of, zset_fields_of, zset_key_of, Dep, Kind, Scope};
use crate::score::{base_score, score_from_map, user_score, user_score_of, Fields};
use crate::sql::{scan_sql, scan_text};
use crate::text::slices;
use crate::value::Record;
use vstd::prelude::*;

verus! {

/// A type that knows the names of its fields.
pub trait StructFieldNames {
    /// The names of the fields, in their order.
    spec fn names() -> Seq<Seq<char>>;

    /// The names of the fields, in their order.
    fn field_names() -> (v: Vec<&'static str>)
        ensures
            slices(v@) == Self::names(),
    ;
}

/// The score of a row of a kind, with the accuracy ratio that a user's
/// score needs.
pub open spec fn score_with(kind: Kind, fields: Fields, ratio: i64) -> Option<i64> {
    match kind {
        Kind::User => user_score(fields, ratio),
        _ => base_score(kind, fields),
    }
}

/// An entity: a row of a table with an integer identity, mirrored by a
/// hash object under `redis_key`.
pub trait Model: StructFieldNames {
    /// The kind of the entity.
    spec fn kind_spec() -> Kind;

    /// The kind of the entity.
    fn kind() -> (k: Kind)
        ensures
            k == Self::kind_spec(),
    ;

    /// The identity of the entity: what its field `id` holds.
    fn id(&self) -> (id: i64)
        ensures
            id == self.identity(),
    ;

    /// The identity of the entity, as contracts see it.
    spec fn identity(&self) -> i64;

    /// The seconds the hash object lives.
    fn expire() -> (t: usize)
        ensures
            t == hash_ttl(Self::kind_spec()),
    {
        expire_of(Self::kind())
    }

    /// The name of the table.
    fn table_name() -> (s: &'static str)
        ensures
            s@ == table(Self::kind_spec()),
    {
        table_name(Self::kind())
    }

    /// The key of the hash object of the row `id`.
    fn redis_key(id: i64) -> (key: String)
        ensures
            key@ == hash_key(Self::kind_spec(), id),
    {
        redis_key_of(Self::kind(), id)
    }
}

/// An entity whose rows are mirrored by sorted-set views.
pub trait RedisSortedSet: Model {
    /// The seconds a view lives; 0 stands for no limit.
    fn zset_expire() -> (t: usize)
        ensures
            t == view_ttl(Self::kind_spec()),
    {
        zset_expire_of(Self::kind())
    }

    /// The fields that a member of a view carries.
    fn zset_fields() -> (v: Vec<&'static str>)
        ensures
            slices(v@) == view_fields(Self::kind_spec()),
    {
        zset_fields_of(Self::kind())
    }

    /// The key of the view of all rows.
    fn zset_key() -> (key: String)
        ensures
            key@ == view_key(Self::kind_spec(), Scope::Whole),
    {
        zset_key_of(Self::kind(), Scope::Whole)
    }

    /// The statement that reads the members of the view of all rows.
    fn sql() -> (text: String)
        ensures
            text@ == scan_text(Self::kind_spec(), Scope::Whole),
    {
        scan_sql(Self::kind(), Scope::Whole)
    }

    /// The foreign key that scopes views by one value; empty where the
    /// entity names none.
    fn one_dep_field() -> (s: &'static str)
        ensures
            s@ == dep_field(Self::kind_spec()),
    {
        one_dep_field_of(Self::kind())
    }

    /// The key of the view of the rows with the foreign key at `dep`.
    fn zset_key_with_one_dep(dep: Dep) -> (key: String)
        ensures
            key@ == view_key(Self::kind_spec(), Scope::By(dep)),
    {
        zset_key_of(Self::kind(), Scope::By(dep))
    }

    /// The statement that reads the members of the view of one value.
    fn sql_with_one_dep(dep: Dep) -> (text: String)
        ensures
            text@ == scan_text(Self::kind_spec(), Scope::By(dep)),
    {
        scan_sql(Self::kind(), Scope::By(dep))
    }

    /// The two foreign keys that scope views by two values.
    fn two_dep_fields() -> (s: (&'static str, &'static str))
        ensures
            (s.0@, s.1@) == dep_fields(Self::kind_spec()),
    {
        two_dep_fields_of(Self::kind())
    }

    /// The key of the view of the rows with the two foreign keys at
    /// `first` and `second`.
    fn zset_key_with_two_deps(first: Dep, second: Dep) -> (key: String)
        ensures
            key@ == view_key(Self::kind_spec(), Scope::ByTwo(first, second)),
    {
        zset_key_of(Self::kind(), Scope::ByTwo(first, second))
    }

    /// The statement that reads the members of the view of two values.
    fn sql_with_two_deps(first: Dep, second: Dep) -> (text: String)
        ensures
            text@ == scan_text(Self::kind_spec(), Scope::ByTwo(first, second)),
    {
        scan_sql(Self::kind(), Scope::ByTwo(first, second))
    }

    /// The score of a row from the fields of its member; `ratio` is the
    /// accuracy ratio, which only a user's score needs. `None` where the
    /// fields do not hold what the score is made of, or the score does
    /// not fit.
    fn score_from_map(mp: &Record, ratio: i64) -> (score: Option<i64>)
        ensures
            score == score_with(Self::kind_spec(), mp@, ratio),
    {
        match Self::kind() {
            Kind::User => user_score_of(mp, ratio),
            _ => score_from_map(Self::kind(), mp),
        }
    }
}

} // verus!
