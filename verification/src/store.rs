//! A model of the two stores, against which the entity layer is proved.
//!
//! The model is a value of mathematics: the rows of the relational store,
//! the hash objects and the sorted sets of the key-value store. `answer`
//! says what a command does to it and what the reply is; `run` carries a
//! task through to its outcome. Time is not modelled: a cached copy may
//! vanish at any moment, which `expire` stands for.

use crate::cache::{ColumnsView, CommandView, Entries, Key, ReplyView, StepView, TaskView};
use crate::cache::AnswerView;
use crate::error::ErrorType;
use crate::schema::{all_fields, dep_field, dep_fields, view_fields, Dep, Kind, Scope};
use crate::score::{score_of, Fields};
use crate::value::{map_of, pick, ValueView};
use vstd::prelude::*;

verus! {

/// The two stores, and what the caller brings: the accuracy ratio, the
/// identity that the next insert generates, and what an insert leaves in
/// the columns it does not set.
#[verifier::ext_equal]
pub struct Stores {
    pub rows: Map<(Kind, i64), Fields>,
    pub hashes: Map<(Kind, i64), Fields>,
    pub views: Map<(Kind, Scope), Set<(i64, Fields)>>,
    pub accuracy: spec_fn(i64, i64) -> i64,
    pub fresh: spec_fn(Kind) -> i64,
    pub defaults: spec_fn(Kind) -> Fields,
}

/// The names that a choice of columns stands for.
pub open spec fn column_names(kind: Kind, columns: ColumnsView) -> Seq<Seq<char>> {
    match columns {
        ColumnsView::All => all_fields(kind),
        ColumnsView::ViewFields => view_fields(kind),
        ColumnsView::Named(names) => names,
    }
}

/// What a member of a view holds of a row.
pub open spec fn member_of(kind: Kind, row: Fields) -> Fields {
    pick(row, view_fields(kind))
}

/// A dependency value as a field holds it.
pub open spec fn dep_value(dep: Dep) -> ValueView {
    match dep {
        Dep::Int(i) => ValueView::Int(i),
        Dep::Flag(b) => ValueView::Bool(b),
    }
}

/// Whether a row belongs to a scope.
pub open spec fn in_scope(kind: Kind, scope: Scope, row: Fields) -> bool {
    match scope {
        Scope::Whole => true,
        Scope::By(dep) => row.contains_key(dep_field(kind)) && row[dep_field(kind)] == dep_value(
            dep,
        ),
        Scope::ByTwo(first, second) => row.contains_key(dep_fields(kind).0) && row[dep_fields(
            kind,
        ).0] == dep_value(first) && row.contains_key(dep_fields(kind).1) && row[dep_fields(
            kind,
        ).1] == dep_value(second),
    }
}

/// The fields of an insert that are written: all but the identity and the
/// nulls.
pub open spec fn inserted(fields: Entries) -> Fields {
    let m = map_of(fields);
    Map::new(
        |n: Seq<char>| m.contains_key(n) && n != "id"@ && !(m[n] is Null),
        |n: Seq<char>| m[n],
    )
}

/// A row with one added to each of `names` that holds an integer.
pub open spec fn bumped(row: Fields, names: Seq<Seq<char>>) -> Fields {
    Map::new(
        |n: Seq<char>| row.contains_key(n),
        |n: Seq<char>|
            match row[n] {
                ValueView::Int(v) => if names.contains(n) && v < i64::MAX {
                    ValueView::Int((v + 1) as i64)
                } else {
                    row[n]
                },
                _ => row[n],
            },
    )
}

/// Whether `listing` holds the members of the rows of a scope, each once.
pub open spec fn lists_scope(s: Stores, kind: Kind, scope: Scope, listing: Seq<Fields>) -> bool {
    &&& forall|i: int, j: int| 0 <= i < j < listing.len() ==> listing[i] != listing[j]
    &&& forall|m: Fields|
        listing.contains(m) <==> exists|id: i64|
            s.rows.contains_key((kind, id)) && in_scope(kind, scope, s.rows[(kind, id)]) && m
                == member_of(kind, #[trigger] s.rows[(kind, id)])
}

/// Whether `ranking` holds the members of a sorted set, each once, by
/// rising score.
pub open spec fn ranks(set: Set<(i64, Fields)>, ranking: Seq<(i64, Fields)>) -> bool {
    &&& forall|i: int, j: int| 0 <= i < j < ranking.len() ==> ranking[i] != ranking[j]
    &&& forall|i: int, j: int| 0 <= i < j < ranking.len() ==> ranking[i].0 <= ranking[j].0
    &&& forall|p: (i64, Fields)| ranking.contains(p) <==> set.contains(p)
}

/// The members of a sorted set by rising score.
pub open spec fn ranking_of(set: Set<(i64, Fields)>) -> Seq<(i64, Fields)> {
    choose|ranking: Seq<(i64, Fields)>| ranks(set, ranking)
}

/// The part of a ranking from rank `low` to rank `high`; a negative rank
/// counts from the end.
pub open spec fn rank_slice(ranking: Seq<(i64, Fields)>, low: i64, high: i64) -> Seq<(i64, Fields)> {
    let n = ranking.len() as int;
    let from = if low < 0 {
        if n + low < 0 {
            0
        } else {
            n + low
        }
    } else {
        low as int
    };
    let to = if high < 0 {
        n + high
    } else if high >= n {
        n - 1
    } else {
        high as int
    };
    if from > to || from >= n {
        Seq::empty()
    } else {
        ranking.subrange(from, to + 1)
    }
}

/// The members of a ranking, without their scores.
pub open spec fn members(ranking: Seq<(i64, Fields)>) -> Seq<Fields> {
    Seq::new(ranking.len(), |i: int| ranking[i].1)
}

/// A sorted set once what stood under the score `remove` is gone and
/// `member` stands under `score`; a member stands under one score only.
pub open spec fn replaced(set: Set<(i64, Fields)>, remove: i64, score: i64, member: Fields) -> Set<
    (i64, Fields),
> {
    set.filter(|p: (i64, Fields)| p.0 != remove && p.1 != member).insert((score, member))
}

impl Stores {
    /// The stores once a member has been put in its place in a view.
    pub open spec fn placed(self, kind: Kind, scope: Scope, remove: i64, score: i64, member: Fields)
        -> Stores {
        Stores {
            views: self.views.insert(
                (kind, scope),
                replaced(self.view(kind, scope), remove, score, member),
            ),
            ..self
        }
    }

    /// The sorted set under a view's key; empty where the key is not there.
    pub open spec fn view(self, kind: Kind, scope: Scope) -> Set<(i64, Fields)> {
        if self.views.contains_key((kind, scope)) {
            self.views[(kind, scope)]
        } else {
            Set::empty()
        }
    }

    /// The hash object under a row's key; empty where the key is not there.
    pub open spec fn hash(self, kind: Kind, id: i64) -> Fields {
        if self.hashes.contains_key((kind, id)) {
            self.hashes[(kind, id)]
        } else {
            Map::empty()
        }
    }

    /// The score of a row.
    pub open spec fn score(self, kind: Kind, row: Fields) -> Option<i64> {
        score_of(kind, member_of(kind, row), self.accuracy)
    }

    /// What a command does to the stores, and the reply to it.
    pub open spec fn answer(self, command: CommandView) -> (Stores, ReplyView) {
        match command {
            CommandView::Insert { kind, fields } => {
                let id = (self.fresh)(kind);
                let row = (self.defaults)(kind).union_prefer_right(inserted(fields)).insert(
                    "id"@,
                    ValueView::Int(id),
                );
                (Stores { rows: self.rows.insert((kind, id), row), ..self }, ReplyView::Id(id))
            },
            CommandView::SelectRow { kind, id } => if self.rows.contains_key((kind, id)) {
                (self, ReplyView::Row(self.rows[(kind, id)]))
            } else {
                (self, ReplyView::Missing)
            },
            CommandView::Update { kind, id, columns } => if self.rows.contains_key((kind, id)) {
                (
                    Stores {
                        rows: self.rows.insert(
                            (kind, id),
                            self.rows[(kind, id)].union_prefer_right(map_of(columns)),
                        ),
                        ..self
                    },
                    ReplyView::Done,
                )
            } else {
                (self, ReplyView::Done)
            },
            CommandView::Increment { kind, id, fields } => if self.rows.contains_key((kind, id)) {
                (
                    Stores {
                        rows: self.rows.insert((kind, id), bumped(self.rows[(kind, id)], fields)),
                        ..self
                    },
                    ReplyView::Count(1),
                )
            } else {
                (self, ReplyView::Count(0))
            },
            CommandView::Delete { kind, id } => (
                Stores { rows: self.rows.remove((kind, id)), ..self },
                ReplyView::Done,
            ),
            CommandView::Scan { kind, scope } => (
                self,
                ReplyView::Rows(choose|listing: Seq<Fields>| lists_scope(self, kind, scope, listing)),
            ),
            CommandView::Exists { key } => match key {
                Key::Hash(kind, id) => (self, ReplyView::Flag(self.hashes.contains_key((kind, id)))),
                Key::View(kind, scope) => (
                    self,
                    ReplyView::Flag(self.views.contains_key((kind, scope))),
                ),
            },
            CommandView::HashSet { kind, id, fields, ttl } => (
                Stores {
                    hashes: self.hashes.insert(
                        (kind, id),
                        self.hash(kind, id).union_prefer_right(fields),
                    ),
                    ..self
                },
                ReplyView::Done,
            ),
            CommandView::HashGet { kind, id, columns } => (
                self,
                ReplyView::Row(pick(self.hash(kind, id), column_names(kind, columns))),
            ),
            CommandView::DropHash { kind, id } => (
                Stores { hashes: self.hashes.remove((kind, id)), ..self },
                ReplyView::Done,
            ),
            CommandView::DropKeys { kind, id, scope } => (
                Stores {
                    hashes: self.hashes.remove((kind, id)),
                    views: self.views.remove((kind, scope)),
                    ..self
                },
                ReplyView::Done,
            ),
            CommandView::Replace { kind, scope, remove, score, member } => (
                self.placed(kind, scope, remove, score, member),
                ReplyView::Done,
            ),
            CommandView::Fill { kind, scope, items, ttl } => if items.len() == 0 {
                (self, ReplyView::Done)
            } else {
                (
                    Stores {
                        views: self.views.insert(
                            (kind, scope),
                            Set::new(
                                |p: (i64, Fields)|
                                    (self.view(kind, scope).contains(p) && forall|i: int|
                                        0 <= i < items.len() ==> (#[trigger] items[i]).1 != p.1) || (
                                    exists|i: int|
                                        0 <= i < items.len() && #[trigger] items[i] == p && forall|
                                            j: int,
                                        | i < j < items.len() ==> (#[trigger] items[j]).1 != p.1),
                            ),
                        ),
                        ..self
                    },
                    ReplyView::Done,
                )
            },
            CommandView::Range { kind, scope, low, high, reverse } => {
                let ranking = ranking_of(self.view(kind, scope));
                (
                    self,
                    ReplyView::Rows(
                        members(
                            rank_slice(
                                if reverse {
                                    ranking.reverse()
                                } else {
                                    ranking
                                },
                                low,
                                high,
                            ),
                        ),
                    ),
                )
            },
            CommandView::RangeByScore { kind, scope, low, high } => (
                self,
                ReplyView::Rows(
                    members(
                        ranking_of(self.view(kind, scope)).filter(
                            |p: (i64, Fields)| low <= p.0 <= high,
                        ),
                    ),
                ),
            ),
            CommandView::Card { kind, scope } => (
                self,
                ReplyView::Number(self.view(kind, scope).len() as i64),
            ),
            CommandView::Accuracy { pairs } => (
                self,
                ReplyView::Numbers(
                    Seq::new(pairs.len(), |i: int| (self.accuracy)(pairs[i].0, pairs[i].1)),
                ),
            ),
        }
    }

    /// The stores after a cached copy has run out.
    pub open spec fn expire(self, key: Key) -> Stores {
        match key {
            Key::Hash(kind, id) => Stores { hashes: self.hashes.remove((kind, id)), ..self },
            Key::View(kind, scope) => Stores { views: self.views.remove((kind, scope)), ..self },
        }
    }

    /// Whether the hash object of a row, where it is there, mirrors the row.
    pub open spec fn hash_mirrors(self, kind: Kind, id: i64) -> bool {
        self.hashes.contains_key((kind, id)) ==> self.rows.contains_key((kind, id))
            && self.hashes[(kind, id)] == self.rows[(kind, id)]
    }

    /// What the view of a scope has to hold: the member of each row of the
    /// scope under the row's score.
    pub open spec fn expected_view(self, kind: Kind, scope: Scope) -> Set<(i64, Fields)> {
        Set::new(
            |p: (i64, Fields)|
                exists|id: i64|
                    self.rows.contains_key((kind, id)) && in_scope(kind, scope, self.rows[(kind, id)])
                        && self.score(kind, self.rows[(kind, id)]) == Some(p.0) && p.1 == member_of(
                        kind,
                        #[trigger] self.rows[(kind, id)],
                    ),
        )
    }

    /// Whether the view of a scope, where it is there, mirrors the rows.
    pub open spec fn view_mirrors(self, kind: Kind, scope: Scope) -> bool {
        self.views.contains_key((kind, scope)) ==> self.views[(kind, scope)] == self.expected_view(
            kind,
            scope,
        )
    }

    /// Whether every row holds its own identity.
    pub open spec fn rows_identified(self) -> bool {
        forall|kind: Kind, id: i64| #[trigger]
            self.rows.contains_key((kind, id)) ==> self.rows[(kind, id)].contains_key("id"@)
                && self.rows[(kind, id)]["id"@] == ValueView::Int(id)
    }
}

/// The most commands that an operation sends.
pub open spec fn enough() -> nat {
    20
}

/// The stores and the outcome after a task has been carried through, each
/// command answered by the model. `None` where `fuel` commands did not get
/// the task to its outcome.
pub open spec fn run(task: TaskView, command: CommandView, s: Stores, fuel: nat) -> (
    Stores,
    Option<Result<AnswerView, ErrorType>>,
)
    decreases fuel,
{
    if fuel == 0 {
        (s, None)
    } else {
        let (after, reply) = s.answer(command);
        match task.step(reply) {
            StepView::Next(next, then) => run(next, then, after, (fuel - 1) as nat),
            StepView::Done(outcome) => (after, Some(outcome)),
        }
    }
}

} // verus!
