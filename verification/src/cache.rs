//! The cache-aside entity layer as a machine.
//!
//! An operation on an entity is a `Task`. It starts with a command for one
//! of the two stores; the caller performs the command and hands the reply
//! to `step`, which answers with the next command or with the outcome. The
//! relational store is the source of truth: its failures end the operation
//! with `SystemError`. What is done to the key-value store after a write to
//! the relational store has succeeded is best effort: a failure there ends
//! the operation with the write's result. What an update or an increment
//! reads from the key-value store before its write is best effort too: a
//! failure there leaves the old score unknown and the write goes on. A
//! read that has its row from the relational store gives the row though
//! the hash object could not be filled.

use crate::error::ErrorType;
use crate::schema::{expire_of, hash_ttl, view_fields, view_ttl, zset_expire_of, zset_fields_of, Kind,
    Scope};
use crate::score::{base_score, score_from_map, user_score, user_score_of, user_terms, user_terms_of,
    Fields};
use crate::sql::insertable_count;
use crate::text::texts;
use crate::value::{map_of, pick, Record, ValueView};
use vstd::prelude::*;

verus! {

/// The fields of a record in their order.
pub type Entries = Seq<(Seq<char>, ValueView)>;

/// A key of the key-value store: the hash object of a row, or the sorted
/// set of a view.
#[derive(Debug, Clone, Copy, PartialEq, Eq, Structural)]
pub enum Key {
    Hash(Kind, i64),
    View(Kind, Scope),
}

/// Which fields of a hash object to read.
#[derive(Debug, PartialEq, Eq)]
pub enum Columns {
    All,
    ViewFields,
    Named(Vec<String>),
}

#[verifier::ext_equal]
pub enum ColumnsView {
    All,
    ViewFields,
    Named(Seq<Seq<char>>),
}

impl View for Columns {
    type V = ColumnsView;

    open spec fn view(&self) -> ColumnsView {
        match self {
            Columns::All => ColumnsView::All,
            Columns::ViewFields => ColumnsView::ViewFields,
            Columns::Named(names) => ColumnsView::Named(texts(names@)),
        }
    }
}

/// A member of a sorted set with its score.
#[derive(Debug, PartialEq, Eq)]
pub struct Scored {
    pub score: i64,
    pub member: Record,
}

/// The views of a list of records.
pub open spec fn rows_view(rows: Seq<Record>) -> Seq<Fields> {
    Seq::new(rows.len(), |i: int| rows[i]@)
}

/// The views of a list of scored members.
pub open spec fn items_view(items: Seq<Scored>) -> Seq<(i64, Fields)> {
    Seq::new(items.len(), |i: int| (items[i].score, items[i].member@))
}

/// What the caller is asked to do. The first six go to the relational
/// store, the last is arithmetic, the others go to the key-value store.
#[derive(Debug, PartialEq, Eq)]
#[allow(inconsistent_fields)]
pub enum Command {
    /// Insert a row; the reply is its generated identity.
    Insert { kind: Kind, fields: Record },
    /// Read a whole row.
    SelectRow { kind: Kind, id: i64 },
    /// Write columns of a row.
    Update { kind: Kind, id: i64, columns: Record },
    /// Add one to fields of a row; the reply counts the rows changed.
    Increment { kind: Kind, id: i64, fields: Vec<String> },
    /// Delete a row.
    Delete { kind: Kind, id: i64 },
    /// Read the view fields of every row in a scope.
    Scan { kind: Kind, scope: Scope },
    /// Ask whether a key is there.
    Exists { key: Key },
    /// Set fields of a row's hash object and renew its time to live.
    HashSet { kind: Kind, id: i64, fields: Record, ttl: usize },
    /// Read fields of a row's hash object; a field that is not there reads
    /// as null.
    HashGet { kind: Kind, id: i64, columns: Columns },
    /// Delete a row's hash object.
    DropHash { kind: Kind, id: i64 },
    /// Delete a row's hash object and a view, as one.
    DropKeys { kind: Kind, id: i64, scope: Scope },
    /// Remove from a view what stands under the score `remove`, then add
    /// `member` under `score`, as one.
    Replace { kind: Kind, scope: Scope, remove: i64, score: i64, member: Record },
    /// Add members to a view and set its time to live; 0 sets none.
    Fill { kind: Kind, scope: Scope, items: Vec<Scored>, ttl: usize },
    /// Read the members of a view from rank `low` to rank `high`.
    Range { kind: Kind, scope: Scope, low: i64, high: i64, reverse: bool },
    /// Read the members of a view with a score from `low` to `high`.
    RangeByScore { kind: Kind, scope: Scope, low: i64, high: i64 },
    /// Count the members of a view.
    Card { kind: Kind, scope: Scope },
    /// Compute the accuracy ratio of each pair of accepted and total
    /// submissions.
    Accuracy { pairs: Vec<(i64, i64)> },
}

#[verifier::ext_equal]
#[allow(inconsistent_fields)]
pub enum CommandView {
    Insert { kind: Kind, fields: Entries },
    SelectRow { kind: Kind, id: i64 },
    Update { kind: Kind, id: i64, columns: Entries },
    Increment { kind: Kind, id: i64, fields: Seq<Seq<char>> },
    Delete { kind: Kind, id: i64 },
    Scan { kind: Kind, scope: Scope },
    Exists { key: Key },
    HashSet { kind: Kind, id: i64, fields: Fields, ttl: usize },
    HashGet { kind: Kind, id: i64, columns: ColumnsView },
    DropHash { kind: Kind, id: i64 },
    DropKeys { kind: Kind, id: i64, scope: Scope },
    Replace { kind: Kind, scope: Scope, remove: i64, score: i64, member: Fields },
    Fill { kind: Kind, scope: Scope, items: Seq<(i64, Fields)>, ttl: usize },
    Range { kind: Kind, scope: Scope, low: i64, high: i64, reverse: bool },
    RangeByScore { kind: Kind, scope: Scope, low: i64, high: i64 },
    Card { kind: Kind, scope: Scope },
    Accuracy { pairs: Seq<(i64, i64)> },
}

impl View for Command {
    type V = CommandView;

    open spec fn view(&self) -> CommandView {
        match self {
            Command::Insert { kind, fields } => CommandView::Insert {
                kind: *kind,
                fields: fields.entries(),
            },
            Command::SelectRow { kind, id } => CommandView::SelectRow { kind: *kind, id: *id },
            Command::Update { kind, id, columns } => CommandView::Update {
                kind: *kind,
                id: *id,
                columns: columns.entries(),
            },
            Command::Increment { kind, id, fields } => CommandView::Increment {
                kind: *kind,
                id: *id,
                fields: texts(fields@),
            },
            Command::Delete { kind, id } => CommandView::Delete { kind: *kind, id: *id },
            Command::Scan { kind, scope } => CommandView::Scan { kind: *kind, scope: *scope },
            Command::Exists { key } => CommandView::Exists { key: *key },
            Command::HashSet { kind, id, fields, ttl } => CommandView::HashSet {
                kind: *kind,
                id: *id,
                fields: fields@,
                ttl: *ttl,
            },
            Command::HashGet { kind, id, columns } => CommandView::HashGet {
                kind: *kind,
                id: *id,
                columns: columns@,
            },
            Command::DropHash { kind, id } => CommandView::DropHash { kind: *kind, id: *id },
            Command::DropKeys { kind, id, scope } => CommandView::DropKeys {
                kind: *kind,
                id: *id,
                scope: *scope,
            },
            Command::Replace { kind, scope, remove, score, member } => CommandView::Replace {
                kind: *kind,
                scope: *scope,
                remove: *remove,
                score: *score,
                member: member@,
            },
            Command::Fill { kind, scope, items, ttl } => CommandView::Fill {
                kind: *kind,
                scope: *scope,
                items: items_view(items@),
                ttl: *ttl,
            },
            Command::Range { kind, scope, low, high, reverse } => CommandView::Range {
                kind: *kind,
                scope: *scope,
                low: *low,
                high: *high,
                reverse: *reverse,
            },
            Command::RangeByScore { kind, scope, low, high } => CommandView::RangeByScore {
                kind: *kind,
                scope: *scope,
                low: *low,
                high: *high,
            },
            Command::Card { kind, scope } => CommandView::Card { kind: *kind, scope: *scope },
            Command::Accuracy { pairs } => CommandView::Accuracy { pairs: pairs@ },
        }
    }
}

/// What came of a command.
#[derive(Debug, PartialEq, Eq)]
pub enum Reply {
    /// The store failed.
    Failed,
    /// The command was carried out and has nothing to say.
    Done,
    /// There is no such row.
    Missing,
    Flag(bool),
    Id(i64),
    Count(u64),
    Number(i64),
    Row(Record),
    Rows(Vec<Record>),
    Numbers(Vec<i64>),
}

#[verifier::ext_equal]
pub enum ReplyView {
    Failed,
    Done,
    Missing,
    Flag(bool),
    Id(i64),
    Count(u64),
    Number(i64),
    Row(Fields),
    Rows(Seq<Fields>),
    Numbers(Seq<i64>),
}

impl View for Reply {
    type V = ReplyView;

    open spec fn view(&self) -> ReplyView {
        match self {
            Reply::Failed => ReplyView::Failed,
            Reply::Done => ReplyView::Done,
            Reply::Missing => ReplyView::Missing,
            Reply::Flag(b) => ReplyView::Flag(*b),
            Reply::Id(i) => ReplyView::Id(*i),
            Reply::Count(n) => ReplyView::Count(*n),
            Reply::Number(n) => ReplyView::Number(*n),
            Reply::Row(r) => ReplyView::Row(r@),
            Reply::Rows(rows) => ReplyView::Rows(rows_view(rows@)),
            Reply::Numbers(ns) => ReplyView::Numbers(ns@),
        }
    }
}

/// What an operation gives back when it succeeds.
#[derive(Debug, PartialEq, Eq)]
pub enum Answer {
    Unit,
    Flag(bool),
    Id(i64),
    Number(i64),
    Row(Record),
    Rows(Vec<Record>),
}

#[verifier::ext_equal]
pub enum AnswerView {
    Unit,
    Flag(bool),
    Id(i64),
    Number(i64),
    Row(Fields),
    Rows(Seq<Fields>),
}

impl View for Answer {
    type V = AnswerView;

    open spec fn view(&self) -> AnswerView {
        match self {
            Answer::Unit => AnswerView::Unit,
            Answer::Flag(b) => AnswerView::Flag(*b),
            Answer::Id(i) => AnswerView::Id(*i),
            Answer::Number(n) => AnswerView::Number(*n),
            Answer::Row(r) => AnswerView::Row(r@),
            Answer::Rows(rows) => AnswerView::Rows(rows_view(rows@)),
        }
    }
}

/// The operations.
#[derive(Debug, Clone, Copy, PartialEq, Eq, Structural)]
pub enum Goal {
    Get,
    GetFields,
    Exists,
    InsertRow,
    Insert,
    Update,
    Increment,
    Delete,
    Range,
    RangeByScore,
    Count,
}

/// Whether the write to the relational store is still to come.
#[derive(Debug, Clone, Copy, PartialEq, Eq, Structural)]
pub enum Stage {
    Before,
    After,
}

/// The command whose reply a task waits for.
#[derive(Debug, Clone, Copy, PartialEq, Eq, Structural)]
pub enum Point {
    ProbeView,
    ProbeHash,
    Load,
    Store,
    Fetch,
    Rate,
    Write,
    CheckHash,
    Patch,
    Forget,
    Place,
    ScanRows,
    RateRows,
    FillView,
    ReadView,
}

/// An operation under way.
#[derive(Debug, PartialEq, Eq)]
pub struct Task {
    pub goal: Goal,
    pub kind: Kind,
    pub id: i64,
    pub scope: Scope,
    pub stage: Stage,
    pub point: Point,
    /// Whether the view of `scope` was there when the operation began.
    pub cached: bool,
    /// The score of the row before the write, where it was read.
    pub old: Option<i64>,
    pub names: Vec<String>,
    pub columns: Record,
    pub held: Record,
    pub rows: Vec<Record>,
    pub low: i64,
    pub high: i64,
    pub reverse: bool,
}

#[verifier::ext_equal]
pub struct TaskView {
    pub goal: Goal,
    pub kind: Kind,
    pub id: i64,
    pub scope: Scope,
    pub stage: Stage,
    pub point: Point,
    pub cached: bool,
    pub old: Option<i64>,
    pub names: Seq<Seq<char>>,
    pub columns: Entries,
    pub held: Fields,
    pub rows: Seq<Fields>,
    pub low: i64,
    pub high: i64,
    pub reverse: bool,
}

impl View for Task {
    type V = TaskView;

    open spec fn view(&self) -> TaskView {
        TaskView {
            goal: self.goal,
            kind: self.kind,
            id: self.id,
            scope: self.scope,
            stage: self.stage,
            point: self.point,
            cached: self.cached,
            old: self.old,
            names: texts(self.names@),
            columns: self.columns.entries(),
            held: self.held@,
            rows: rows_view(self.rows@),
            low: self.low,
            high: self.high,
            reverse: self.reverse,
        }
    }
}

/// What a step gives: the task and its next command, or the outcome.
#[derive(Debug, PartialEq, Eq)]
pub enum Step {
    Next(Task, Command),
    Done(Result<Answer, ErrorType>),
}

#[verifier::ext_equal]
pub enum StepView {
    Next(TaskView, CommandView),
    Done(Result<AnswerView, ErrorType>),
}

impl View for Step {
    type V = StepView;

    open spec fn view(&self) -> StepView {
        match self {
            Step::Next(t, c) => StepView::Next(t@, c@),
            Step::Done(Ok(a)) => StepView::Done(Ok(a@)),
            Step::Done(Err(e)) => StepView::Done(Err(*e)),
        }
    }
}

/// Whether every row has a score of its own right.
pub open spec fn all_scored(kind: Kind, rows: Seq<Fields>) -> bool {
    forall|i: int| 0 <= i < rows.len() ==> base_score(kind, #[trigger] rows[i]) is Some
}

/// Each row under its score.
pub open spec fn scored_items(kind: Kind, rows: Seq<Fields>) -> Seq<(i64, Fields)> {
    Seq::new(rows.len(), |i: int| (base_score(kind, rows[i]).unwrap(), rows[i]))
}

/// Whether every row holds what a user's score is made of.
pub open spec fn all_termed(rows: Seq<Fields>) -> bool {
    forall|i: int| 0 <= i < rows.len() ==> user_terms(#[trigger] rows[i]) is Some
}

/// The accepted and total submissions of each row.
pub open spec fn term_pairs(rows: Seq<Fields>) -> Seq<(i64, i64)> {
    Seq::new(rows.len(), |i: int| user_terms(rows[i]).unwrap())
}

/// Whether every row's score with its ratio fits.
pub open spec fn all_rated(rows: Seq<Fields>, ratios: Seq<i64>) -> bool {
    forall|i: int| 0 <= i < rows.len() ==> user_score(#[trigger] rows[i], ratios[i]) is Some
}

/// Each user row under its score.
pub open spec fn rated_items(rows: Seq<Fields>, ratios: Seq<i64>) -> Seq<(i64, Fields)> {
    Seq::new(rows.len(), |i: int| (user_score(rows[i], ratios[i]).unwrap(), rows[i]))
}

impl TaskView {
    /// A task that holds nothing yet.
    pub open spec fn blank(goal: Goal, kind: Kind, id: i64, scope: Scope, point: Point) -> TaskView {
        TaskView {
            goal,
            kind,
            id,
            scope,
            stage: Stage::Before,
            point,
            cached: false,
            old: None,
            names: Seq::empty(),
            columns: Seq::empty(),
            held: Map::empty(),
            rows: Seq::empty(),
            low: 0,
            high: 0,
            reverse: false,
        }
    }

    /// What a write gives back once it has succeeded.
    pub open spec fn result(self) -> AnswerView {
        match self.goal {
            Goal::Insert => AnswerView::Id(self.id),
            _ => AnswerView::Unit,
        }
    }

    /// The end after a failure: before the write the operation fails, after
    /// it the write's result stands.
    pub open spec fn settle(self) -> StepView {
        if self.stage == Stage::After {
            StepView::Done(Ok(self.result()))
        } else {
            StepView::Done(Err(ErrorType::SystemError))
        }
    }

    /// What follows when the key-value store fails, or holds what cannot
    /// be scored: an update or an increment that has not written yet goes
    /// on to its write without an old score; anything else settles.
    pub open spec fn falter(self) -> StepView {
        if self.stage == Stage::Before && (self.goal == Goal::Update || self.goal
            == Goal::Increment) {
            (TaskView { old: None, ..self }).write()
        } else {
            self.settle()
        }
    }

    /// The write to the relational store.
    pub open spec fn write(self) -> StepView {
        match self.goal {
            Goal::Update => if self.columns.len() == 0 {
                (TaskView { stage: Stage::After, ..self }).resync()
            } else {
                StepView::Next(
                    TaskView { point: Point::Write, ..self },
                    CommandView::Update { kind: self.kind, id: self.id, columns: self.columns },
                )
            },
            Goal::Increment => StepView::Next(
                TaskView { point: Point::Write, names: Seq::empty(), ..self },
                CommandView::Increment { kind: self.kind, id: self.id, fields: self.names },
            ),
            _ => self.settle(),
        }
    }

    /// Bringing the view up to date after a write, where the view was there.
    pub open spec fn resync(self) -> StepView {
        if self.cached {
            StepView::Next(
                TaskView { point: Point::ProbeHash, ..self },
                CommandView::Exists { key: Key::Hash(self.kind, self.id) },
            )
        } else {
            StepView::Done(Ok(self.result()))
        }
    }

    /// What follows when the row is in neither store.
    pub open spec fn absent(self) -> StepView {
        match self.goal {
            Goal::Get | Goal::GetFields => StepView::Done(Err(ErrorType::NoneError)),
            Goal::Exists => StepView::Done(Ok(AnswerView::Flag(false))),
            _ => if self.stage == Stage::Before {
                (TaskView { old: None, ..self }).write()
            } else {
                StepView::Done(Ok(self.result()))
            },
        }
    }

    /// Reading the hash object.
    pub open spec fn fetch(self) -> StepView {
        match self.goal {
            Goal::Get => StepView::Next(
                TaskView { point: Point::Fetch, ..self },
                CommandView::HashGet { kind: self.kind, id: self.id, columns: ColumnsView::All },
            ),
            Goal::GetFields => StepView::Next(
                TaskView { point: Point::Fetch, names: Seq::empty(), ..self },
                CommandView::HashGet {
                    kind: self.kind,
                    id: self.id,
                    columns: ColumnsView::Named(self.names),
                },
            ),
            _ => StepView::Next(
                TaskView { point: Point::Fetch, ..self },
                CommandView::HashGet {
                    kind: self.kind,
                    id: self.id,
                    columns: ColumnsView::ViewFields,
                },
            ),
        }
    }

    /// What follows once the row's view fields and their score are known:
    /// before the write the score is kept and the write begins, after it
    /// the member is put in the place of what stood under the old score.
    pub open spec fn scored(self, fields: Fields, score: i64) -> StepView {
        if self.stage == Stage::Before {
            (TaskView { old: Some(score), ..self }).write()
        } else {
            StepView::Next(
                TaskView { point: Point::Place, ..self },
                CommandView::Replace {
                    kind: self.kind,
                    scope: self.scope,
                    remove: match self.old {
                        Some(o) => o,
                        None => score,
                    },
                    score,
                    member: fields,
                },
            )
        }
    }

    /// Scoring the view fields that were read.
    pub open spec fn grade(self, fields: Fields) -> StepView {
        if self.kind == Kind::User {
            match user_terms(fields) {
                Some(pair) => StepView::Next(
                    TaskView { point: Point::Rate, held: fields, ..self },
                    CommandView::Accuracy { pairs: seq![pair] },
                ),
                None => self.falter(),
            }
        } else {
            match base_score(self.kind, fields) {
                Some(score) => self.scored(fields, score),
                None => self.falter(),
            }
        }
    }

    /// Reading the view.
    pub open spec fn read_view(self) -> StepView {
        StepView::Next(
            TaskView { point: Point::ReadView, ..self },
            match self.goal {
                Goal::Range => CommandView::Range {
                    kind: self.kind,
                    scope: self.scope,
                    low: self.low,
                    high: self.high,
                    reverse: self.reverse,
                },
                Goal::RangeByScore => CommandView::RangeByScore {
                    kind: self.kind,
                    scope: self.scope,
                    low: self.low,
                    high: self.high,
                },
                _ => CommandView::Card { kind: self.kind, scope: self.scope },
            },
        )
    }

    /// Filling the view with the rows that were scanned.
    pub open spec fn fill(self, items: Seq<(i64, Fields)>) -> StepView {
        StepView::Next(
            TaskView { point: Point::FillView, rows: Seq::empty(), ..self },
            CommandView::Fill {
                kind: self.kind,
                scope: self.scope,
                items,
                ttl: view_ttl(self.kind),
            },
        )
    }

    /// The step that a reply leads to.
    pub open spec fn step(self, reply: ReplyView) -> StepView {
        match self.point {
            Point::ProbeView => match reply {
                ReplyView::Flag(present) => match self.goal {
                    Goal::Update | Goal::Increment => if present {
                        StepView::Next(
                            TaskView { cached: true, point: Point::ProbeHash, ..self },
                            CommandView::Exists { key: Key::Hash(self.kind, self.id) },
                        )
                    } else {
                        (TaskView { cached: false, ..self }).write()
                    },
                    Goal::Insert => (TaskView { cached: present, ..self }).resync(),
                    _ => if present {
                        self.read_view()
                    } else {
                        StepView::Next(
                            TaskView { point: Point::ScanRows, ..self },
                            CommandView::Scan { kind: self.kind, scope: self.scope },
                        )
                    },
                },
                _ => self.falter(),
            },
            Point::ProbeHash => match reply {
                ReplyView::Flag(present) => if present {
                    if self.goal == Goal::Exists {
                        StepView::Done(Ok(AnswerView::Flag(true)))
                    } else {
                        self.fetch()
                    }
                } else {
                    StepView::Next(
                        TaskView { point: Point::Load, ..self },
                        CommandView::SelectRow { kind: self.kind, id: self.id },
                    )
                },
                _ => self.falter(),
            },
            Point::Load => match reply {
                ReplyView::Row(row) => StepView::Next(
                    TaskView { point: Point::Store, held: row, ..self },
                    CommandView::HashSet {
                        kind: self.kind,
                        id: self.id,
                        fields: row,
                        ttl: hash_ttl(self.kind),
                    },
                ),
                ReplyView::Missing => self.absent(),
                _ => self.settle(),
            },
            Point::Store => match reply {
                ReplyView::Done => match self.goal {
                    Goal::Get => StepView::Done(Ok(AnswerView::Row(self.held))),
                    Goal::Exists => StepView::Done(Ok(AnswerView::Flag(true))),
                    _ => self.fetch(),
                },
                _ => match self.goal {
                    Goal::Get => StepView::Done(Ok(AnswerView::Row(self.held))),
                    Goal::GetFields => StepView::Done(
                        Ok(AnswerView::Row(pick(self.held, self.names))),
                    ),
                    Goal::Exists => StepView::Done(Ok(AnswerView::Flag(true))),
                    _ => if self.stage == Stage::Before {
                        self.grade(pick(self.held, view_fields(self.kind)))
                    } else {
                        self.settle()
                    },
                },
            },
            Point::Fetch => match reply {
                ReplyView::Row(fields) => match self.goal {
                    Goal::Get | Goal::GetFields => StepView::Done(Ok(AnswerView::Row(fields))),
                    _ => self.grade(fields),
                },
                _ => self.falter(),
            },
            Point::Rate => match reply {
                ReplyView::Numbers(ratios) => if ratios.len() == 1 {
                    match user_score(self.held, ratios[0]) {
                        Some(score) => self.scored(self.held, score),
                        None => self.falter(),
                    }
                } else {
                    self.falter()
                },
                _ => self.falter(),
            },
            Point::Write => match self.goal {
                Goal::InsertRow => match reply {
                    ReplyView::Id(id) => StepView::Done(Ok(AnswerView::Id(id))),
                    _ => StepView::Done(Err(ErrorType::SystemError)),
                },
                Goal::Insert => match reply {
                    ReplyView::Id(id) => StepView::Next(
                        TaskView { id, stage: Stage::After, point: Point::ProbeView, ..self },
                        CommandView::Exists { key: Key::View(self.kind, self.scope) },
                    ),
                    _ => StepView::Done(Err(ErrorType::SystemError)),
                },
                Goal::Update => match reply {
                    ReplyView::Done => StepView::Next(
                        TaskView { stage: Stage::After, point: Point::CheckHash, ..self },
                        CommandView::Exists { key: Key::Hash(self.kind, self.id) },
                    ),
                    _ => StepView::Done(Err(ErrorType::SystemError)),
                },
                Goal::Increment => match reply {
                    ReplyView::Count(n) => if n == 0 {
                        StepView::Done(Ok(AnswerView::Unit))
                    } else {
                        StepView::Next(
                            TaskView { stage: Stage::After, point: Point::Forget, ..self },
                            CommandView::DropHash { kind: self.kind, id: self.id },
                        )
                    },
                    _ => StepView::Done(Err(ErrorType::SystemError)),
                },
                Goal::Delete => match reply {
                    ReplyView::Done => StepView::Next(
                        TaskView { stage: Stage::After, point: Point::Forget, ..self },
                        CommandView::DropKeys { kind: self.kind, id: self.id, scope: self.scope },
                    ),
                    _ => StepView::Done(Err(ErrorType::SystemError)),
                },
                _ => StepView::Done(Err(ErrorType::SystemError)),
            },
            Point::CheckHash => match reply {
                ReplyView::Flag(present) => if present {
                    StepView::Next(
                        TaskView { point: Point::Patch, columns: Seq::empty(), ..self },
                        CommandView::HashSet {
                            kind: self.kind,
                            id: self.id,
                            fields: map_of(self.columns),
                            ttl: hash_ttl(self.kind),
                        },
                    )
                } else {
                    self.resync()
                },
                _ => self.settle(),
            },
            Point::Patch => match reply {
                ReplyView::Done => self.resync(),
                _ => self.settle(),
            },
            Point::Forget => match reply {
                ReplyView::Done => if self.goal == Goal::Increment {
                    self.resync()
                } else {
                    StepView::Done(Ok(self.result()))
                },
                _ => self.settle(),
            },
            Point::Place => self.settle(),
            Point::ScanRows => match reply {
                ReplyView::Rows(rows) => if rows.len() == 0 {
                    self.read_view()
                } else if self.kind == Kind::User {
                    if all_termed(rows) {
                        StepView::Next(
                            TaskView { point: Point::RateRows, rows, ..self },
                            CommandView::Accuracy { pairs: term_pairs(rows) },
                        )
                    } else {
                        self.settle()
                    }
                } else if all_scored(self.kind, rows) {
                    self.fill(scored_items(self.kind, rows))
                } else {
                    self.settle()
                },
                _ => self.settle(),
            },
            Point::RateRows => match reply {
                ReplyView::Numbers(ratios) => if ratios.len() == self.rows.len() && all_rated(
                    self.rows,
                    ratios,
                ) {
                    self.fill(rated_items(self.rows, ratios))
                } else {
                    self.settle()
                },
                _ => self.settle(),
            },
            Point::FillView => match reply {
                ReplyView::Done => self.read_view(),
                _ => self.settle(),
            },
            Point::ReadView => match reply {
                ReplyView::Rows(members) => if self.goal == Goal::Count {
                    self.settle()
                } else {
                    StepView::Done(Ok(AnswerView::Rows(members)))
                },
                ReplyView::Number(n) => if self.goal == Goal::Count {
                    StepView::Done(Ok(AnswerView::Number(n)))
                } else {
                    self.settle()
                },
                _ => self.settle(),
            },
        }
    }
}

/// Each row under its score, unless one has none.
fn score_rows(kind: Kind, rows: &Vec<Record>) -> (r: Option<Vec<Scored>>)
    ensures
        r is Some == all_scored(kind, rows_view(rows@)),
        r is Some ==> items_view(r.unwrap()@) == scored_items(kind, rows_view(rows@)),
{
    let ghost views = rows_view(rows@);
    let mut items: Vec<Scored> = Vec::new();
    let mut i: usize = 0;
    while i < rows.len()
        invariant
            i <= rows.len(),
            views == rows_view(rows@),
            items@.len() == i,
            forall|k: int| 0 <= k < i ==> base_score(kind, #[trigger] views[k]) is Some,
            forall|k: int|
                0 <= k < i ==> (#[trigger] items@[k]).score == base_score(kind, views[k]).unwrap()
                    && items@[k].member@ == views[k],
        decreases rows.len() - i,
    {
        match score_from_map(kind, &rows[i]) {
            Some(score) => {
                items.push(Scored { score, member: rows[i].duplicate() });
            },
            None => {
                assert(base_score(kind, views[i as int]) is None);
                return None;
            },
        }
        i += 1;
    }
    assert(items_view(items@) =~= scored_items(kind, views));
    Some(items)
}

/// The accepted and total submissions of each row, unless one lacks them.
fn pairs_of(rows: &Vec<Record>) -> (r: Option<Vec<(i64, i64)>>)
    ensures
        r is Some == all_termed(rows_view(rows@)),
        r is Some ==> r.unwrap()@ == term_pairs(rows_view(rows@)),
{
    let ghost views = rows_view(rows@);
    let mut pairs: Vec<(i64, i64)> = Vec::new();
    let mut i: usize = 0;
    while i < rows.len()
        invariant
            i <= rows.len(),
            views == rows_view(rows@),
            pairs@.len() == i,
            forall|k: int| 0 <= k < i ==> user_terms(#[trigger] views[k]) is Some,
            forall|k: int| 0 <= k < i ==> #[trigger] pairs@[k] == user_terms(views[k]).unwrap(),
        decreases rows.len() - i,
    {
        match user_terms_of(&rows[i]) {
            Some(pair) => {
                pairs.push(pair);
            },
            None => {
                assert(user_terms(views[i as int]) is None);
                return None;
            },
        }
        i += 1;
    }
    assert(pairs@ =~= term_pairs(views));
    Some(pairs)
}

/// Each user row under its score, unless one does not fit.
fn rate_rows(rows: &Vec<Record>, ratios: &Vec<i64>) -> (r: Option<Vec<Scored>>)
    requires
        rows.len() == ratios.len(),
    ensures
        r is Some == all_rated(rows_view(rows@), ratios@),
        r is Some ==> items_view(r.unwrap()@) == rated_items(rows_view(rows@), ratios@),
{
    let ghost views = rows_view(rows@);
    let mut items: Vec<Scored> = Vec::new();
    let mut i: usize = 0;
    while i < rows.len()
        invariant
            i <= rows.len(),
            rows.len() == ratios.len(),
            views == rows_view(rows@),
            items@.len() == i,
            forall|k: int| 0 <= k < i ==> user_score(#[trigger] views[k], ratios@[k]) is Some,
            forall|k: int|
                0 <= k < i ==> (#[trigger] items@[k]).score == user_score(
                    views[k],
                    ratios@[k],
                ).unwrap() && items@[k].member@ == views[k],
        decreases rows.len() - i,
    {
        match user_score_of(&rows[i], ratios[i]) {
            Some(score) => {
                items.push(Scored { score, member: rows[i].duplicate() });
            },
            None => {
                assert(user_score(views[i as int], ratios@[i as int]) is None);
                return None;
            },
        }
        i += 1;
    }
    assert(items_view(items@) =~= rated_items(views, ratios@));
    Some(items)
}

impl Task {
    fn blank(goal: Goal, kind: Kind, id: i64, scope: Scope, point: Point) -> (t: Task)
        ensures
            t@ =~~= TaskView::blank(goal, kind, id, scope, point),
    {
        Task {
            goal,
            kind,
            id,
            scope,
            stage: Stage::Before,
            point,
            cached: false,
            old: None,
            names: Vec::new(),
            columns: Record::new(),
            held: Record::new(),
            rows: Vec::new(),
            low: 0,
            high: 0,
            reverse: false,
        }
    }

    /// Reads the row `id`: from its hash object where that is there, else
    /// from the relational store, which then fills the hash object.
    pub fn get(kind: Kind, id: i64) -> (r: (Task, Command))
        ensures
            r.0@ == TaskView::blank(Goal::Get, kind, id, Scope::Whole, Point::ProbeHash),
            r.1@ == (CommandView::Exists { key: Key::Hash(kind, id) }),
    {
        (
            Task::blank(Goal::Get, kind, id, Scope::Whole, Point::ProbeHash),
            Command::Exists { key: Key::Hash(kind, id) },
        )
    }

    /// Reads some fields of the row `id` from its hash object, which is
    /// first filled with the whole row where it is not there.
    pub fn get_fields(kind: Kind, id: i64, names: Vec<String>) -> (r: (Task, Command))
        ensures
            r.0@ == (TaskView {
                names: texts(names@),
                ..TaskView::blank(Goal::GetFields, kind, id, Scope::Whole, Point::ProbeHash)
            }),
            r.1@ == (CommandView::Exists { key: Key::Hash(kind, id) }),
    {
        let t = Task::blank(Goal::GetFields, kind, id, Scope::Whole, Point::ProbeHash);
        let t = Task { names, ..t };
        assert(t@ =~~= (TaskView {
            names: texts(names@),
            ..TaskView::blank(Goal::GetFields, kind, id, Scope::Whole, Point::ProbeHash)
        }));
        (t, Command::Exists { key: Key::Hash(kind, id) })
    }

    /// Asks whether the row `id` is in either store.
    pub fn contains(kind: Kind, id: i64) -> (r: (Task, Command))
        ensures
            r.0@ == TaskView::blank(Goal::Exists, kind, id, Scope::Whole, Point::ProbeHash),
            r.1@ == (CommandView::Exists { key: Key::Hash(kind, id) }),
    {
        (
            Task::blank(Goal::Exists, kind, id, Scope::Whole, Point::ProbeHash),
            Command::Exists { key: Key::Hash(kind, id) },
        )
    }

    /// Inserts a row and leaves the key-value store alone. The row needs a
    /// field to write: one that is neither the identity nor null.
    pub fn insert_by_fields(kind: Kind, fields: Record) -> (r: (Task, Command))
        requires
            insertable_count(fields.entries()) > 0,
        ensures
            r.0@ == TaskView::blank(Goal::InsertRow, kind, 0, Scope::Whole, Point::Write),
            r.1@ == (CommandView::Insert { kind, fields: fields.entries() }),
    {
        (
            Task::blank(Goal::InsertRow, kind, 0, Scope::Whole, Point::Write),
            Command::Insert { kind, fields },
        )
    }

    /// Inserts a row, and adds it to the view of `scope` where that view is
    /// there.
    pub fn insert(kind: Kind, fields: Record, scope: Scope) -> (r: (Task, Command))
        requires
            insertable_count(fields.entries()) > 0,
        ensures
            r.0@ == TaskView::blank(Goal::Insert, kind, 0, scope, Point::Write),
            r.1@ == (CommandView::Insert { kind, fields: fields.entries() }),
    {
        (Task::blank(Goal::Insert, kind, 0, scope, Point::Write), Command::Insert { kind, fields })
    }

    /// Writes `columns` into the row `id`, patches its hash object where
    /// that is there, and moves the row within the view of `scope` where
    /// that is there.
    pub fn update_fields(kind: Kind, id: i64, columns: Record, scope: Scope) -> (r: (Task, Command))
        ensures
            r.0@ == (TaskView {
                columns: columns.entries(),
                ..TaskView::blank(Goal::Update, kind, id, scope, Point::ProbeView)
            }),
            r.1@ == (CommandView::Exists { key: Key::View(kind, scope) }),
    {
        let t = Task::blank(Goal::Update, kind, id, scope, Point::ProbeView);
        let t = Task { columns, ..t };
        assert(t@ =~~= (TaskView {
            columns: columns.entries(),
            ..TaskView::blank(Goal::Update, kind, id, scope, Point::ProbeView)
        }));
        (t, Command::Exists { key: Key::View(kind, scope) })
    }

    /// Adds one to each of `names` in the row `id`, drops its hash object,
    /// and moves the row within the view of `scope` where that is there.
    pub fn increment(kind: Kind, id: i64, names: Vec<String>, scope: Scope) -> (r: (Task, Command))
        ensures
            r.0@ == (TaskView {
                names: texts(names@),
                ..TaskView::blank(Goal::Increment, kind, id, scope, Point::ProbeView)
            }),
            r.1@ == (CommandView::Exists { key: Key::View(kind, scope) }),
    {
        let t = Task::blank(Goal::Increment, kind, id, scope, Point::ProbeView);
        let t = Task { names, ..t };
        assert(t@ =~~= (TaskView {
            names: texts(names@),
            ..TaskView::blank(Goal::Increment, kind, id, scope, Point::ProbeView)
        }));
        (t, Command::Exists { key: Key::View(kind, scope) })
    }

    /// Deletes the row `id`, its hash object and the view of `scope`.
    pub fn delete(kind: Kind, id: i64, scope: Scope) -> (r: (Task, Command))
        ensures
            r.0@ == TaskView::blank(Goal::Delete, kind, id, scope, Point::Write),
            r.1@ == (CommandView::Delete { kind, id }),
    {
        (Task::blank(Goal::Delete, kind, id, scope, Point::Write), Command::Delete { kind, id })
    }

    /// Reads the members of the view of `scope` from rank `low` to rank
    /// `high`, by rising score or, with `reverse`, by falling score. The
    /// view is built from the relational store where it is not there.
    pub fn range(kind: Kind, scope: Scope, low: i64, high: i64, reverse: bool) -> (r: (
        Task,
        Command,
    ))
        ensures
            r.0@ == (TaskView {
                low,
                high,
                reverse,
                ..TaskView::blank(Goal::Range, kind, 0, scope, Point::ProbeView)
            }),
            r.1@ == (CommandView::Exists { key: Key::View(kind, scope) }),
    {
        let t = Task::blank(Goal::Range, kind, 0, scope, Point::ProbeView);
        let t = Task { low, high, reverse, ..t };
        assert(t@ =~~= (TaskView {
            low,
            high,
            reverse,
            ..TaskView::blank(Goal::Range, kind, 0, scope, Point::ProbeView)
        }));
        (t, Command::Exists { key: Key::View(kind, scope) })
    }

    /// Reads the members of the view of `scope` with a score from `low` to
    /// `high`.
    pub fn range_by_score(kind: Kind, scope: Scope, low: i64, high: i64) -> (r: (Task, Command))
        ensures
            r.0@ == (TaskView {
                low,
                high,
                ..TaskView::blank(Goal::RangeByScore, kind, 0, scope, Point::ProbeView)
            }),
            r.1@ == (CommandView::Exists { key: Key::View(kind, scope) }),
    {
        let t = Task::blank(Goal::RangeByScore, kind, 0, scope, Point::ProbeView);
        let t = Task { low, high, ..t };
        assert(t@ =~~= (TaskView {
            low,
            high,
            ..TaskView::blank(Goal::RangeByScore, kind, 0, scope, Point::ProbeView)
        }));
        (t, Command::Exists { key: Key::View(kind, scope) })
    }

    /// Counts the members of the view of `scope`.
    pub fn count(kind: Kind, scope: Scope) -> (r: (Task, Command))
        ensures
            r.0@ == TaskView::blank(Goal::Count, kind, 0, scope, Point::ProbeView),
            r.1@ == (CommandView::Exists { key: Key::View(kind, scope) }),
    {
        (
            Task::blank(Goal::Count, kind, 0, scope, Point::ProbeView),
            Command::Exists { key: Key::View(kind, scope) },
        )
    }

    fn result(&self) -> (a: Answer)
        ensures
            a@ == self@.result(),
    {
        match self.goal {
            Goal::Insert => Answer::Id(self.id),
            _ => Answer::Unit,
        }
    }

    fn settle(self) -> (s: Step)
        ensures
            s@ == self@.settle(),
    {
        match self.stage {
            Stage::After => Step::Done(Ok(self.result())),
            Stage::Before => Step::Done(Err(ErrorType::SystemError)),
        }
    }

    fn falter(self) -> (s: Step)
        ensures
            s@ =~~= self@.falter(),
    {
        match (self.stage, self.goal) {
            (Stage::Before, Goal::Update) => (Task { old: None, ..self }).write(),
            (Stage::Before, Goal::Increment) => (Task { old: None, ..self }).write(),
            _ => self.settle(),
        }
    }

    fn resync(self) -> (s: Step)
        ensures
            s@ =~~= self@.resync(),
    {
        if self.cached {
            let key = Key::Hash(self.kind, self.id);
            Step::Next(Task { point: Point::ProbeHash, ..self }, Command::Exists { key })
        } else {
            Step::Done(Ok(self.result()))
        }
    }

    fn write(self) -> (s: Step)
        ensures
            s@ =~~= self@.write(),
    {
        let kind = self.kind;
        let id = self.id;
        match self.goal {
            Goal::Update => {
                if self.columns.len() == 0 {
                    (Task { stage: Stage::After, ..self }).resync()
                } else {
                    let columns = self.columns.duplicate();
                    Step::Next(
                        Task { point: Point::Write, ..self },
                        Command::Update { kind, id, columns },
                    )
                }
            },
            Goal::Increment => {
                let mut names: Vec<String> = Vec::new();
                let mut t = self;
                core::mem::swap(&mut names, &mut t.names);
                Step::Next(
                    Task { point: Point::Write, ..t },
                    Command::Increment { kind, id, fields: names },
                )
            },
            _ => self.settle(),
        }
    }

    fn absent(self) -> (s: Step)
        ensures
            s@ =~~= self@.absent(),
    {
        match self.goal {
            Goal::Get | Goal::GetFields => Step::Done(Err(ErrorType::NoneError)),
            Goal::Exists => Step::Done(Ok(Answer::Flag(false))),
            _ => {
                match self.stage {
                    Stage::Before => (Task { old: None, ..self }).write(),
                    Stage::After => Step::Done(Ok(self.result())),
                }
            },
        }
    }

    fn fetch(self) -> (s: Step)
        ensures
            s@ =~~= self@.fetch(),
    {
        let kind = self.kind;
        let id = self.id;
        match self.goal {
            Goal::Get => Step::Next(
                Task { point: Point::Fetch, ..self },
                Command::HashGet { kind, id, columns: Columns::All },
            ),
            Goal::GetFields => {
                let mut names: Vec<String> = Vec::new();
                let mut t = self;
                core::mem::swap(&mut names, &mut t.names);
                Step::Next(
                    Task { point: Point::Fetch, ..t },
                    Command::HashGet { kind, id, columns: Columns::Named(names) },
                )
            },
            _ => Step::Next(
                Task { point: Point::Fetch, ..self },
                Command::HashGet { kind, id, columns: Columns::ViewFields },
            ),
        }
    }

    fn scored(self, fields: Record, score: i64) -> (s: Step)
        ensures
            s@ =~~= self@.scored(fields@, score),
    {
        match self.stage {
            Stage::Before => (Task { old: Some(score), ..self }).write(),
            Stage::After => {
                let kind = self.kind;
                let scope = self.scope;
                let remove = match self.old {
                    Some(o) => o,
                    None => score,
                };
                Step::Next(
                    Task { point: Point::Place, ..self },
                    Command::Replace { kind, scope, remove, score, member: fields },
                )
            },
        }
    }

    fn grade(self, fields: Record) -> (s: Step)
        ensures
            s@ =~~= self@.grade(fields@),
    {
        match self.kind {
            Kind::User => {
                match user_terms_of(&fields) {
                    Some(pair) => {
                        let mut pairs: Vec<(i64, i64)> = Vec::new();
                        pairs.push(pair);
                        assert(pairs@ =~= seq![pair]);
                        Step::Next(
                            Task { point: Point::Rate, held: fields, ..self },
                            Command::Accuracy { pairs },
                        )
                    },
                    None => self.falter(),
                }
            },
            _ => {
                match score_from_map(self.kind, &fields) {
                    Some(score) => self.scored(fields, score),
                    None => self.falter(),
                }
            },
        }
    }

    fn read_view(self) -> (s: Step)
        ensures
            s@ =~~= self@.read_view(),
    {
        let kind = self.kind;
        let scope = self.scope;
        let command = match self.goal {
            Goal::Range => Command::Range {
                kind,
                scope,
                low: self.low,
                high: self.high,
                reverse: self.reverse,
            },
            Goal::RangeByScore => Command::RangeByScore {
                kind,
                scope,
                low: self.low,
                high: self.high,
            },
            _ => Command::Card { kind, scope },
        };
        Step::Next(Task { point: Point::ReadView, ..self }, command)
    }

    fn fill(self, items: Vec<Scored>) -> (s: Step)
        ensures
            s@ =~~= self@.fill(items_view(items@)),
    {
        let kind = self.kind;
        let scope = self.scope;
        Step::Next(
            Task { point: Point::FillView, rows: Vec::new(), ..self },
            Command::Fill { kind, scope, items, ttl: zset_expire_of(kind) },
        )
    }

    /// Takes the reply to the command that the task waits for, and gives
    /// the next command or the outcome.
    pub fn step(self, reply: Reply) -> (s: Step)
        ensures
            s@ == self@.step(reply@),
    {
        let kind = self.kind;
        let id = self.id;
        let scope = self.scope;
        let s = match self.point {
            Point::ProbeView => match reply {
                Reply::Flag(present) => match self.goal {
                    Goal::Update | Goal::Increment => {
                        if present {
                            Step::Next(
                                Task { cached: true, point: Point::ProbeHash, ..self },
                                Command::Exists { key: Key::Hash(kind, id) },
                            )
                        } else {
                            (Task { cached: false, ..self }).write()
                        }
                    },
                    Goal::Insert => (Task { cached: present, ..self }).resync(),
                    _ => {
                        if present {
                            self.read_view()
                        } else {
                            Step::Next(
                                Task { point: Point::ScanRows, ..self },
                                Command::Scan { kind, scope },
                            )
                        }
                    },
                },
                _ => self.falter(),
            },
            Point::ProbeHash => match reply {
                Reply::Flag(present) => {
                    if present {
                        match self.goal {
                            Goal::Exists => Step::Done(Ok(Answer::Flag(true))),
                            _ => self.fetch(),
                        }
                    } else {
                        Step::Next(
                            Task { point: Point::Load, ..self },
                            Command::SelectRow { kind, id },
                        )
                    }
                },
                _ => self.falter(),
            },
            Point::Load => match reply {
                Reply::Row(row) => {
                    let fields = row.duplicate();
                    Step::Next(
                        Task { point: Point::Store, held: row, ..self },
                        Command::HashSet { kind, id, fields, ttl: expire_of(kind) },
                    )
                },
                Reply::Missing => self.absent(),
                _ => self.settle(),
            },
            Point::Store => match reply {
                Reply::Done => match self.goal {
                    Goal::Get => Step::Done(Ok(Answer::Row(self.held))),
                    Goal::Exists => Step::Done(Ok(Answer::Flag(true))),
                    _ => self.fetch(),
                },
                _ => match self.goal {
                    Goal::Get => Step::Done(Ok(Answer::Row(self.held))),
                    Goal::GetFields => Step::Done(Ok(Answer::Row(self.held.project(&self.names)))),
                    Goal::Exists => Step::Done(Ok(Answer::Flag(true))),
                    _ => match self.stage {
                        Stage::Before => {
                            let fields = self.held.project_slices(&zset_fields_of(kind));
                            self.grade(fields)
                        },
                        Stage::After => self.settle(),
                    },
                },
            },
            Point::Fetch => match reply {
                Reply::Row(fields) => match self.goal {
                    Goal::Get | Goal::GetFields => Step::Done(Ok(Answer::Row(fields))),
                    _ => self.grade(fields),
                },
                _ => self.falter(),
            },
            Point::Rate => match reply {
                Reply::Numbers(ratios) => {
                    if ratios.len() == 1 {
                        match user_score_of(&self.held, ratios[0]) {
                            Some(score) => {
                                let fields = self.held.duplicate();
                                self.scored(fields, score)
                            },
                            None => self.falter(),
                        }
                    } else {
                        self.falter()
                    }
                },
                _ => self.falter(),
            },
            Point::Write => match self.goal {
                Goal::InsertRow => match reply {
                    Reply::Id(new_id) => Step::Done(Ok(Answer::Id(new_id))),
                    _ => Step::Done(Err(ErrorType::SystemError)),
                },
                Goal::Insert => match reply {
                    Reply::Id(new_id) => Step::Next(
                        Task {
                            id: new_id,
                            stage: Stage::After,
                            point: Point::ProbeView,
                            ..self
                        },
                        Command::Exists { key: Key::View(kind, scope) },
                    ),
                    _ => Step::Done(Err(ErrorType::SystemError)),
                },
                Goal::Update => match reply {
                    Reply::Done => Step::Next(
                        Task { stage: Stage::After, point: Point::CheckHash, ..self },
                        Command::Exists { key: Key::Hash(kind, id) },
                    ),
                    _ => Step::Done(Err(ErrorType::SystemError)),
                },
                Goal::Increment => match reply {
                    Reply::Count(n) => {
                        if n == 0 {
                            Step::Done(Ok(Answer::Unit))
                        } else {
                            Step::Next(
                                Task { stage: Stage::After, point: Point::Forget, ..self },
                                Command::DropHash { kind, id },
                            )
                        }
                    },
                    _ => Step::Done(Err(ErrorType::SystemError)),
                },
                Goal::Delete => match reply {
                    Reply::Done => Step::Next(
                        Task { stage: Stage::After, point: Point::Forget, ..self },
                        Command::DropKeys { kind, id, scope },
                    ),
                    _ => Step::Done(Err(ErrorType::SystemError)),
                },
                _ => Step::Done(Err(ErrorType::SystemError)),
            },
            Point::CheckHash => match reply {
                Reply::Flag(present) => {
                    if present {
                        let mut columns = Record::new();
                        let mut t = self;
                        core::mem::swap(&mut columns, &mut t.columns);
                        Step::Next(
                            Task { point: Point::Patch, ..t },
                            Command::HashSet { kind, id, fields: columns, ttl: expire_of(kind) },
                        )
                    } else {
                        self.resync()
                    }
                },
                _ => self.settle(),
            },
            Point::Patch => match reply {
                Reply::Done => self.resync(),
                _ => self.settle(),
            },
            Point::Forget => match reply {
                Reply::Done => match self.goal {
                    Goal::Increment => self.resync(),
                    _ => Step::Done(Ok(self.result())),
                },
                _ => self.settle(),
            },
            Point::Place => self.settle(),
            Point::ScanRows => match reply {
                Reply::Rows(rows) => {
                    if rows.len() == 0 {
                        self.read_view()
                    } else {
                        match kind {
                            Kind::User => match pairs_of(&rows) {
                                Some(pairs) => Step::Next(
                                    Task { point: Point::RateRows, rows, ..self },
                                    Command::Accuracy { pairs },
                                ),
                                None => self.settle(),
                            },
                            _ => match score_rows(kind, &rows) {
                                Some(items) => self.fill(items),
                                None => self.settle(),
                            },
                        }
                    }
                },
                _ => self.settle(),
            },
            Point::RateRows => match reply {
                Reply::Numbers(ratios) => {
                    if ratios.len() == self.rows.len() {
                        match rate_rows(&self.rows, &ratios) {
                            Some(items) => self.fill(items),
                            None => self.settle(),
                        }
                    } else {
                        self.settle()
                    }
                },
                _ => self.settle(),
            },
            Point::FillView => match reply {
                Reply::Done => self.read_view(),
                _ => self.settle(),
            },
            Point::ReadView => match reply {
                Reply::Rows(members) => match self.goal {
                    Goal::Count => self.settle(),
                    _ => Step::Done(Ok(Answer::Rows(members))),
                },
                Reply::Number(n) => match self.goal {
                    Goal::Count => Step::Done(Ok(Answer::Number(n))),
                    _ => self.settle(),
                },
                _ => self.settle(),
            },
        };
        assert(s@ =~~= self@.step(reply@));
        s
    }
}

} // verus!
