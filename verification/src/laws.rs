//! What holds of the entity layer over the model of the stores.

use crate::cache::{AnswerView, CommandView, Entries, Goal, Key, Point, ReplyView, Stage, StepView,
    TaskView};
use crate::error::ErrorType;
use crate::schema::{all_fields, view_fields, Kind, Scope};
use crate::score::Fields;
use crate::score::user_terms;
use crate::store::{bumped, enough, in_scope, inserted, lists_scope, member_of, members, ranking_of, ranks,
    replaced, run, Stores};
use crate::value::{map_of, pick};
use crate::value::ValueView;
use vstd::prelude::*;

verus! {

/// Reading the row `id` over the model.
pub open spec fn get_run(s: Stores, kind: Kind, id: i64) -> (
    Stores,
    Option<Result<AnswerView, ErrorType>>,
) {
    run(
        TaskView::blank(Goal::Get, kind, id, Scope::Whole, Point::ProbeHash),
        CommandView::Exists { key: Key::Hash(kind, id) },
        s,
        enough(),
    )
}

/// Inserting a row over the model.
pub open spec fn insert_run(s: Stores, kind: Kind, fields: Entries, scope: Scope) -> (
    Stores,
    Option<Result<AnswerView, ErrorType>>,
) {
    run(
        TaskView::blank(Goal::Insert, kind, 0, scope, Point::Write),
        CommandView::Insert { kind, fields },
        s,
        enough(),
    )
}

/// The row that an insert writes.
pub open spec fn inserted_row(s: Stores, kind: Kind, fields: Entries) -> Fields {
    (s.defaults)(kind).union_prefer_right(inserted(fields)).insert(
        "id"@,
        ValueView::Int((s.fresh)(kind)),
    )
}

/// A read gives the hash object where that is there; else it gives the row
/// and fills the hash object with it; else it fails with `NoneError`. It
/// changes nothing else.
pub proof fn lemma_get(s: Stores, kind: Kind, id: i64)
    ensures
        ({
            let (after, outcome) = get_run(s, kind, id);
            if s.hashes.contains_key((kind, id)) {
                after == s && outcome == Some(
                    Ok::<AnswerView, ErrorType>(
                        AnswerView::Row(pick(s.hashes[(kind, id)], all_fields(kind))),
                    ),
                )
            } else if s.rows.contains_key((kind, id)) {
                after == (Stores { hashes: s.hashes.insert((kind, id), s.rows[(kind, id)]), ..s })
                    && outcome == Some(
                    Ok::<AnswerView, ErrorType>(AnswerView::Row(s.rows[(kind, id)])),
                )
            } else {
                after == s && outcome == Some(Err::<AnswerView, ErrorType>(ErrorType::NoneError))
            }
        }),
{
    reveal_with_fuel(run, 4);
    let (after, outcome) = get_run(s, kind, id);
    if !s.hashes.contains_key((kind, id)) && s.rows.contains_key((kind, id)) {
        assert(s.hash(kind, id).union_prefer_right(s.rows[(kind, id)]) =~= s.rows[(kind, id)]);
        assert(after =~~= (Stores {
            hashes: s.hashes.insert((kind, id), s.rows[(kind, id)]),
            ..s
        }));
    }
}

/// An insert writes its row under the generated identity and gives that
/// identity. What it does to the key-value store leaves the row's hash
/// object, where there is one, a mirror of the row.
pub proof fn lemma_insert(s: Stores, kind: Kind, fields: Entries, scope: Scope)
    requires
        !s.rows.contains_key((kind, (s.fresh)(kind))),
        !s.hashes.contains_key((kind, (s.fresh)(kind))),
    ensures
        ({
            let id = (s.fresh)(kind);
            let (after, outcome) = insert_run(s, kind, fields, scope);
            &&& outcome == Some(Ok::<AnswerView, ErrorType>(AnswerView::Id(id)))
            &&& after.rows == s.rows.insert((kind, id), inserted_row(s, kind, fields))
            &&& after.hash_mirrors(kind, id)
        }),
{
    reveal_with_fuel(run, 9);
    let id = (s.fresh)(kind);
    let row = inserted_row(s, kind, fields);
    assert(Map::<Seq<char>, ValueView>::empty().union_prefer_right(row) =~= row);
}

/// A row that was inserted is read back with every field it was given,
/// whether the read finds the hash object or has to fill it.
pub proof fn law_get_after_insert(s: Stores, kind: Kind, fields: Entries, scope: Scope)
    requires
        !s.rows.contains_key((kind, (s.fresh)(kind))),
        !s.hashes.contains_key((kind, (s.fresh)(kind))),
    ensures
        ({
            let id = (s.fresh)(kind);
            let (s1, outcome) = insert_run(s, kind, fields, scope);
            let (s2, first) = get_run(s1, kind, id);
            let (s3, second) = get_run(s2, kind, id);
            &&& outcome == Some(Ok::<AnswerView, ErrorType>(AnswerView::Id(id)))
            &&& s2.hashes.contains_key((kind, id))
            &&& first matches Some(Ok(AnswerView::Row(r1)))
            &&& second matches Some(Ok(AnswerView::Row(r2)))
            &&& forall|f: Seq<char>|
                inserted(fields).contains_key(f) && all_fields(kind).contains(f)
                    ==> r1.contains_key(f) && r1[f] == inserted(fields)[f] && r2.contains_key(f)
                    && r2[f] == inserted(fields)[f]
        }),
{
    let id = (s.fresh)(kind);
    lemma_insert(s, kind, fields, scope);
    let (s1, outcome) = insert_run(s, kind, fields, scope);
    lemma_get(s1, kind, id);
    let (s2, first) = get_run(s1, kind, id);
    lemma_get(s2, kind, id);
}

/// Writing columns of the row `id` over the model.
pub open spec fn update_run(s: Stores, kind: Kind, id: i64, columns: Entries, scope: Scope) -> (
    Stores,
    Option<Result<AnswerView, ErrorType>>,
) {
    run(
        TaskView { columns, ..TaskView::blank(Goal::Update, kind, id, scope, Point::ProbeView) },
        CommandView::Exists { key: Key::View(kind, scope) },
        s,
        enough(),
    )
}

/// Whether no other row of the scope stands under the score of the row
/// `id`.
pub open spec fn score_is_own(s: Stores, kind: Kind, scope: Scope, id: i64) -> bool {
    forall|other: i64|
        other != id && #[trigger] s.rows.contains_key((kind, other)) && in_scope(
            kind,
            scope,
            s.rows[(kind, other)],
        ) ==> s.score(kind, s.rows[(kind, other)]) != s.score(kind, s.rows[(kind, id)])
}

/// The run that a step leads to.
pub open spec fn continue_run(step: StepView, s: Stores, fuel: nat) -> (
    Stores,
    Option<Result<AnswerView, ErrorType>>,
) {
    match step {
        StepView::Next(task, command) => run(task, command, s, fuel),
        StepView::Done(outcome) => (s, Some(outcome)),
    }
}

/// The stores once the hash object of a row has been filled.
pub open spec fn filled(s: Stores, kind: Kind, id: i64) -> Stores {
    if s.hashes.contains_key((kind, id)) {
        s
    } else {
        Stores { hashes: s.hashes.insert((kind, id), s.rows[(kind, id)]), ..s }
    }
}

/// Whether the caller's accuracy ratio is asked for to score a row.
pub open spec fn rated(s: Stores, kind: Kind, id: i64) -> bool {
    kind == Kind::User && user_terms(member_of(kind, s.rows[(kind, id)])) is Some
}

/// How many commands it takes to read a row's view fields and score.
pub open spec fn reading_steps(s: Stores, kind: Kind, id: i64) -> nat {
    (if s.hashes.contains_key((kind, id)) {
        2nat
    } else {
        4nat
    }) + (if rated(s, kind, id) {
        1nat
    } else {
        0nat
    })
}

/// The task as it stands when the view fields that were fetched have been
/// scored.
pub open spec fn graded_task(t: TaskView, s: Stores) -> TaskView {
    if rated(s, t.kind, t.id) {
        TaskView { point: Point::Rate, held: member_of(t.kind, s.rows[(t.kind, t.id)]), ..t }
    } else {
        TaskView { point: Point::Fetch, ..t }
    }
}

/// The task as it stands when a row's view fields have been scored.
pub open spec fn reading_task(t: TaskView, s: Stores) -> TaskView {
    if s.hashes.contains_key((t.kind, t.id)) {
        graded_task(t, s)
    } else {
        graded_task(TaskView { held: s.rows[(t.kind, t.id)], ..t }, s)
    }
}

/// The step that reading a row's view fields and score leads to: on with
/// the member and its score, or, where the row has no score, on without.
pub open spec fn read_step(t: TaskView, s: Stores) -> StepView {
    match s.score(t.kind, s.rows[(t.kind, t.id)]) {
        Some(score) => reading_task(t, s).scored(
            member_of(t.kind, s.rows[(t.kind, t.id)]),
            score,
        ),
        None => reading_task(t, s).falter(),
    }
}

/// Fetching the view fields of a row from a hash object that mirrors it
/// gives the member of the row, which is then scored.
pub proof fn lemma_grading(t: TaskView, s: Stores, n: nat)
    requires
        t.goal == Goal::Insert || t.goal == Goal::Update || t.goal == Goal::Increment,
        s.rows.contains_key((t.kind, t.id)),
        s.hashes.contains_key((t.kind, t.id)),
        s.hash_mirrors(t.kind, t.id),
        n >= 2,
    ensures
        run(
            TaskView { point: Point::Fetch, ..t },
            CommandView::HashGet {
                kind: t.kind,
                id: t.id,
                columns: crate::cache::ColumnsView::ViewFields,
            },
            s,
            n,
        ) == continue_run(
            match s.score(t.kind, s.rows[(t.kind, t.id)]) {
                Some(score) => graded_task(t, s).scored(
                    member_of(t.kind, s.rows[(t.kind, t.id)]),
                    score,
                ),
                None => graded_task(t, s).falter(),
            },
            s,
            (n - 1 - if rated(s, t.kind, t.id) {
                1nat
            } else {
                0nat
            }) as nat,
        ),
{
    reveal_with_fuel(run, 3);
}

/// Reading a row's view fields and score fills the hash object where it
/// was not there, and goes on with the member and its score.
pub proof fn lemma_reading(t: TaskView, s: Stores, n: nat)
    requires
        t.goal == Goal::Insert || t.goal == Goal::Update || t.goal == Goal::Increment,
        s.rows.contains_key((t.kind, t.id)),
        s.hash_mirrors(t.kind, t.id),
        n >= 5,
    ensures
        run(
            TaskView { point: Point::ProbeHash, ..t },
            CommandView::Exists { key: Key::Hash(t.kind, t.id) },
            s,
            n,
        ) == continue_run(
            read_step(t, s),
            filled(s, t.kind, t.id),
            (n - reading_steps(s, t.kind, t.id)) as nat,
        ),
{
    let row = s.rows[(t.kind, t.id)];
    let probe = TaskView { point: Point::ProbeHash, ..t };
    let fetch = CommandView::HashGet {
        kind: t.kind,
        id: t.id,
        columns: crate::cache::ColumnsView::ViewFields,
    };
    if s.hashes.contains_key((t.kind, t.id)) {
        assert(run(probe, CommandView::Exists { key: Key::Hash(t.kind, t.id) }, s, n) == run(
            TaskView { point: Point::Fetch, ..t },
            fetch,
            s,
            (n - 1) as nat,
        )) by {
            reveal_with_fuel(run, 2);
        }
        lemma_grading(t, s, (n - 1) as nat);
    } else {
        let loaded = TaskView { held: row, ..t };
        let s1 = Stores { hashes: s.hashes.insert((t.kind, t.id), row), ..s };
        assert(Map::<Seq<char>, ValueView>::empty().union_prefer_right(row) =~= row);
        let stored = s.answer(
            CommandView::HashSet {
                kind: t.kind,
                id: t.id,
                fields: row,
                ttl: crate::schema::hash_ttl(t.kind),
            },
        ).0;
        assert(stored =~~= s1);
        assert(run(probe, CommandView::Exists { key: Key::Hash(t.kind, t.id) }, s, n) == run(
            TaskView { point: Point::Fetch, ..loaded },
            fetch,
            s1,
            (n - 3) as nat,
        )) by {
            reveal_with_fuel(run, 4);
        }
        lemma_grading(loaded, s1, (n - 3) as nat);
    }
}

/// The write of an update changes the row, patches the hash object where
/// it is there, and goes on to bring the view up to date.
pub proof fn lemma_update_write(t: TaskView, s: Stores, n: nat)
    requires
        t.goal == Goal::Update,
        t.stage == Stage::Before,
        s.rows.contains_key((t.kind, t.id)),
        n >= 4,
    ensures
        ({
            let row = s.rows[(t.kind, t.id)].union_prefer_right(map_of(t.columns));
            let written = Stores { rows: s.rows.insert((t.kind, t.id), row), ..s };
            run(
                TaskView { point: Point::Write, ..t },
                CommandView::Update { kind: t.kind, id: t.id, columns: t.columns },
                s,
                n,
            ) == if s.hashes.contains_key((t.kind, t.id)) {
                continue_run(
                    (TaskView {
                        stage: Stage::After,
                        point: Point::Patch,
                        columns: Seq::empty(),
                        ..t
                    }).resync(),
                    Stores {
                        hashes: s.hashes.insert(
                            (t.kind, t.id),
                            s.hashes[(t.kind, t.id)].union_prefer_right(map_of(t.columns)),
                        ),
                        ..written
                    },
                    (n - 3) as nat,
                )
            } else {
                continue_run(
                    (TaskView { stage: Stage::After, point: Point::CheckHash, ..t }).resync(),
                    written,
                    (n - 2) as nat,
                )
            }
        }),
{
    reveal_with_fuel(run, 4);
}

/// Putting a member in its place ends the operation with the write's
/// result.
pub proof fn lemma_place(t: TaskView, s: Stores, remove: i64, score: i64, member: Fields, n: nat)
    requires
        t.stage == Stage::After,
        n >= 1,
    ensures
        run(
            TaskView { point: Point::Place, ..t },
            CommandView::Replace { kind: t.kind, scope: t.scope, remove, score, member },
            s,
            n,
        ) == (
            s.placed(t.kind, t.scope, remove, score, member),
            Some(Ok::<AnswerView, ErrorType>(t.result())),
        ),
{
    reveal_with_fuel(run, 2);
}

/// A view that mirrored the rows mirrors them again once the member of a
/// changed row has been put in the place of what stood under its old,
/// unshared score.
pub proof fn lemma_replaced_view_mirrors(
    before: Stores,
    after: Stores,
    kind: Kind,
    scope: Scope,
    id: i64,
)
    requires
        before.rows.contains_key((kind, id)),
        before.rows_identified(),
        before.view_mirrors(kind, scope),
        before.views.contains_key((kind, scope)),
        after.rows == before.rows.insert((kind, id), after.rows[(kind, id)]),
        after.accuracy == before.accuracy,
        after.rows[(kind, id)].contains_key("id"@),
        after.rows[(kind, id)]["id"@] == ValueView::Int(id),
        in_scope(kind, scope, before.rows[(kind, id)]),
        in_scope(kind, scope, after.rows[(kind, id)]),
        before.score(kind, before.rows[(kind, id)]) is Some,
        after.score(kind, after.rows[(kind, id)]) is Some,
        score_is_own(before, kind, scope, id),
        after.views.contains_key((kind, scope)),
        forall|p: (i64, Fields)|
            after.views[(kind, scope)].contains(p) <==> p == (
                after.score(kind, after.rows[(kind, id)]).unwrap(),
                member_of(kind, after.rows[(kind, id)]),
            ) || (before.views[(kind, scope)].contains(p) && p.0 != before.score(
                kind,
                before.rows[(kind, id)],
            ).unwrap() && p.1 != member_of(kind, after.rows[(kind, id)])),
    ensures
        after.view_mirrors(kind, scope),
{
    let old_row = before.rows[(kind, id)];
    let row = after.rows[(kind, id)];
    let old_score = before.score(kind, old_row).unwrap();
    let new_score = after.score(kind, row).unwrap();
    let member = member_of(kind, row);
    let placed = after.views[(kind, scope)];
    assert(view_fields(kind).contains("id"@)) by {
        assert(view_fields(kind)[0] == "id"@);
    }
    assert forall|p: (i64, Fields)| placed.contains(p) implies after.expected_view(
        kind,
        scope,
    ).contains(p) by {
        if p == (new_score, member) {
            assert(after.rows.contains_key((kind, id)) && p.1 == member_of(
                kind,
                after.rows[(kind, id)],
            ));
        } else {
            assert(before.expected_view(kind, scope).contains(p));
            let other = choose|other: i64|
                before.rows.contains_key((kind, other)) && in_scope(
                    kind,
                    scope,
                    before.rows[(kind, other)],
                ) && before.score(kind, before.rows[(kind, other)]) == Some(p.0) && p.1
                    == member_of(kind, #[trigger] before.rows[(kind, other)]);
            assert(other != id);
            assert(after.rows.contains_key((kind, other)) && p.1 == member_of(
                kind,
                after.rows[(kind, other)],
            ));
        }
    }
    assert forall|p: (i64, Fields)| after.expected_view(kind, scope).contains(
        p,
    ) implies placed.contains(p) by {
        let other = choose|other: i64|
            after.rows.contains_key((kind, other)) && in_scope(
                kind,
                scope,
                after.rows[(kind, other)],
            ) && after.score(kind, after.rows[(kind, other)]) == Some(p.0) && p.1 == member_of(
                kind,
                #[trigger] after.rows[(kind, other)],
            );
        if other != id {
            assert(before.rows.contains_key((kind, other)));
            assert(before.rows[(kind, other)] == after.rows[(kind, other)]);
            assert(before.expected_view(kind, scope).contains(p));
            assert(p.1["id"@] == ValueView::Int(other));
            assert(member["id"@] == ValueView::Int(id));
        }
    }
    assert(placed =~= after.expected_view(kind, scope));
}

/// The score that is removed when a row is put in its place: the old score
/// where it is known, else the new one.
pub open spec fn removed(old: Option<i64>, new: i64) -> i64 {
    match old {
        Some(score) => score,
        None => new,
    }
}

/// The stores once a changed row has been written and the caches have
/// been brought up to date: the row holds `row`; its hash object, where
/// there is one, holds the same; a view that was there for the scope holds
/// the member of the row under its new score.
pub open spec fn brought_up(
    s: Stores,
    kind: Kind,
    id: i64,
    scope: Scope,
    row: Fields,
    hashes: Map<(Kind, i64), Fields>,
) -> Stores {
    let written = Stores { rows: s.rows.insert((kind, id), row), hashes, ..s };
    if s.views.contains_key((kind, scope)) && s.score(kind, row) is Some {
        written.placed(
            kind,
            scope,
            removed(s.score(kind, s.rows[(kind, id)]), s.score(kind, row).unwrap()),
            s.score(kind, row).unwrap(),
            member_of(kind, row),
        )
    } else {
        written
    }
}

/// The stores after an update of a row that is there.
pub open spec fn updated(s: Stores, kind: Kind, id: i64, columns: Entries, scope: Scope) -> Stores {
    let row = s.rows[(kind, id)].union_prefer_right(map_of(columns));
    brought_up(
        s,
        kind,
        id,
        scope,
        row,
        if s.views.contains_key((kind, scope)) || s.hashes.contains_key((kind, id)) {
            s.hashes.insert((kind, id), row)
        } else {
            s.hashes
        },
    )
}

/// An update of a row that is there succeeds and comes to `updated`,
/// whatever the view of the scope holds.
pub proof fn lemma_update(s: Stores, kind: Kind, id: i64, columns: Entries, scope: Scope)
    requires
        s.rows.contains_key((kind, id)),
        s.hash_mirrors(kind, id),
    ensures
        update_run(s, kind, id, columns, scope) == (
            updated(s, kind, id, columns, scope),
            Some(Ok::<AnswerView, ErrorType>(AnswerView::Unit)),
        ),
{
    let old_row = s.rows[(kind, id)];
    let row = old_row.union_prefer_right(map_of(columns));
    let t0 = TaskView { columns, ..TaskView::blank(Goal::Update, kind, id, scope, Point::ProbeView) };
    let cached = s.views.contains_key((kind, scope));
    let t1 = TaskView { cached, ..t0 };
    assert(update_run(s, kind, id, columns, scope) == continue_run(
        if cached {
            StepView::Next(
                TaskView { point: Point::ProbeHash, ..t1 },
                CommandView::Exists { key: Key::Hash(kind, id) },
            )
        } else {
            t1.write()
        },
        s,
        19,
    )) by {
        reveal_with_fuel(run, 2);
    }
    let s_read = if cached {
        filled(s, kind, id)
    } else {
        s
    };
    let t_read = if cached {
        TaskView { old: s.score(kind, old_row), ..reading_task(t1, s) }
    } else {
        t1
    };
    let n_read: nat = if cached {
        (19 - reading_steps(s, kind, id)) as nat
    } else {
        19
    };
    if cached {
        lemma_reading(t1, s, 19);
        assert(read_step(t1, s) == t_read.write());
    }
    assert(update_run(s, kind, id, columns, scope) == continue_run(t_read.write(), s_read, n_read));
    assert(s_read.rows == s.rows && s_read.hash_mirrors(kind, id) && s_read.views == s.views);
    let written = Stores { rows: s.rows.insert((kind, id), row), ..s_read };
    let patched = columns.len() > 0 && s_read.hashes.contains_key((kind, id));
    let s_sync = if patched {
        Stores {
            hashes: s_read.hashes.insert(
                (kind, id),
                s_read.hashes[(kind, id)].union_prefer_right(map_of(columns)),
            ),
            ..written
        }
    } else if columns.len() > 0 {
        written
    } else {
        s_read
    };
    let t_sync = if patched {
        TaskView { stage: Stage::After, point: Point::Patch, columns: Seq::empty(), ..t_read }
    } else if columns.len() > 0 {
        TaskView { stage: Stage::After, point: Point::CheckHash, ..t_read }
    } else {
        TaskView { stage: Stage::After, ..t_read }
    };
    let n_sync: nat = if patched {
        (n_read - 3) as nat
    } else if columns.len() > 0 {
        (n_read - 2) as nat
    } else {
        n_read
    };
    if columns.len() > 0 {
        lemma_update_write(t_read, s_read, n_read);
    } else {
        assert(map_of(columns) =~= Map::<Seq<char>, ValueView>::empty());
        assert(row =~= old_row);
        assert(s.rows.insert((kind, id), row) =~= s.rows);
    }
    assert(update_run(s, kind, id, columns, scope) == continue_run(t_sync.resync(), s_sync, n_sync));
    assert(s_sync.rows =~= s.rows.insert((kind, id), row));
    assert(s_sync.hash_mirrors(kind, id));
    assert(s_sync.views == s.views);
    let hashes = if cached || s.hashes.contains_key((kind, id)) {
        s.hashes.insert((kind, id), row)
    } else {
        s.hashes
    };
    assert(s_sync.hashes =~= hashes);
    if cached {
        lemma_reading(t_sync, s_sync, n_sync);
        assert(filled(s_sync, kind, id) == s_sync);
        if s.score(kind, row) is Some {
            let score = s.score(kind, row).unwrap();
            lemma_place(
                reading_task(t_sync, s_sync),
                s_sync,
                removed(s.score(kind, old_row), score),
                score,
                member_of(kind, row),
                (n_sync - reading_steps(s_sync, kind, id)) as nat,
            );
        }
    }
    assert(update_run(s, kind, id, columns, scope).0 =~~= updated(s, kind, id, columns, scope));
}

/// After an update a read gives every column that was written with the
/// value that was written, and every other field as it was, whatever the
/// view of the scope holds and whether or not the hash object was there.
pub proof fn law_get_after_update(s: Stores, kind: Kind, id: i64, columns: Entries, scope: Scope)
    requires
        s.rows.contains_key((kind, id)),
        s.hash_mirrors(kind, id),
    ensures
        ({
            let (s1, outcome) = update_run(s, kind, id, columns, scope);
            let (s2, read) = get_run(s1, kind, id);
            let old_row = s.rows[(kind, id)];
            &&& outcome == Some(Ok::<AnswerView, ErrorType>(AnswerView::Unit))
            &&& s1.rows == s.rows.insert((kind, id), old_row.union_prefer_right(map_of(columns)))
            &&& s1.hash_mirrors(kind, id)
            &&& read matches Some(Ok(AnswerView::Row(r)))
            &&& forall|f: Seq<char>|
                map_of(columns).contains_key(f) && all_fields(kind).contains(f) ==> r.contains_key(
                    f,
                ) && r[f] == map_of(columns)[f]
            &&& forall|f: Seq<char>|
                !map_of(columns).contains_key(f) && all_fields(kind).contains(f)
                    && old_row.contains_key(f) ==> r.contains_key(f) && r[f] == old_row[f]
        }),
{
    lemma_update(s, kind, id, columns, scope);
    let (s1, outcome) = update_run(s, kind, id, columns, scope);
    lemma_get(s1, kind, id);
}

/// An update of a row whose view is there moves the row's member: what
/// stood under the row's old score is gone from the view, the member of
/// the changed row stands under its new score, and every other member
/// stays where it was. Nothing is asked of the other rows.
pub proof fn law_update_moves_the_member(
    s: Stores,
    kind: Kind,
    id: i64,
    columns: Entries,
    scope: Scope,
)
    requires
        s.rows.contains_key((kind, id)),
        s.hash_mirrors(kind, id),
        s.views.contains_key((kind, scope)),
        s.score(kind, s.rows[(kind, id)]) is Some,
        s.score(kind, s.rows[(kind, id)].union_prefer_right(map_of(columns))) is Some,
    ensures
        ({
            let (s1, outcome) = update_run(s, kind, id, columns, scope);
            let row = s.rows[(kind, id)].union_prefer_right(map_of(columns));
            let old_score = s.score(kind, s.rows[(kind, id)]).unwrap();
            let new_score = s.score(kind, row).unwrap();
            let member = member_of(kind, row);
            &&& s1.views.contains_key((kind, scope))
            &&& s1.views[(kind, scope)] == replaced(
                s.views[(kind, scope)],
                old_score,
                new_score,
                member,
            )
            &&& s1.views[(kind, scope)].contains((new_score, member))
            &&& forall|p: (i64, Fields)| #[trigger]
                s1.views[(kind, scope)].contains(p) && (p.0 == old_score || p.1 == member) ==> p
                    == (new_score, member)
            &&& forall|p: (i64, Fields)|
                p.0 != old_score && p.1 != member ==> (#[trigger] s1.views[(kind, scope)].contains(
                    p,
                ) <==> s.views[(kind, scope)].contains(p))
        }),
{
    lemma_update(s, kind, id, columns, scope);
}

/// An update leaves a view that mirrored the rows a mirror of the rows:
/// the changed row has one member, under its new score, and the members
/// of the other rows stand as they stood. This asks that the row stays in
/// the scope, that the update does not write the identity, and that no
/// other row of the scope stands under the row's old score.
pub proof fn law_update_keeps_the_view(
    s: Stores,
    kind: Kind,
    id: i64,
    columns: Entries,
    scope: Scope,
)
    requires
        s.rows.contains_key((kind, id)),
        s.rows_identified(),
        s.hash_mirrors(kind, id),
        s.view_mirrors(kind, scope),
        s.views.contains_key((kind, scope)),
        !map_of(columns).contains_key("id"@),
        in_scope(kind, scope, s.rows[(kind, id)]),
        in_scope(kind, scope, s.rows[(kind, id)].union_prefer_right(map_of(columns))),
        s.score(kind, s.rows[(kind, id)]) is Some,
        s.score(kind, s.rows[(kind, id)].union_prefer_right(map_of(columns))) is Some,
        score_is_own(s, kind, scope, id),
    ensures
        ({
            let (s1, outcome) = update_run(s, kind, id, columns, scope);
            let row = s1.rows[(kind, id)];
            &&& s1.views.contains_key((kind, scope))
            &&& s1.view_mirrors(kind, scope)
            &&& s1.views[(kind, scope)].contains(
                (s1.score(kind, row).unwrap(), member_of(kind, row)),
            )
            &&& forall|p: (i64, Fields)|
                s1.views[(kind, scope)].contains(p) && p.1.contains_key("id"@) && p.1["id"@]
                    == ValueView::Int(id) ==> p == (
                    s1.score(kind, row).unwrap(),
                    member_of(kind, row),
                )
        }),
{
    lemma_update(s, kind, id, columns, scope);
    let (s1, outcome) = update_run(s, kind, id, columns, scope);
    let row = s1.rows[(kind, id)];
    assert(row["id"@] == ValueView::Int(id));
    lemma_replaced_view_mirrors(s, s1, kind, scope, id);
    lemma_one_member(s1, kind, scope, id);
}

/// In a view that mirrors the rows, a row of the scope has its member
/// under its score, and no other member carries the row's identity.
pub proof fn lemma_one_member(s: Stores, kind: Kind, scope: Scope, id: i64)
    requires
        s.rows.contains_key((kind, id)),
        s.rows_identified(),
        s.views.contains_key((kind, scope)),
        s.view_mirrors(kind, scope),
        in_scope(kind, scope, s.rows[(kind, id)]),
        s.score(kind, s.rows[(kind, id)]) is Some,
    ensures
        s.views[(kind, scope)].contains(
            (s.score(kind, s.rows[(kind, id)]).unwrap(), member_of(kind, s.rows[(kind, id)])),
        ),
        forall|p: (i64, Fields)|
            s.views[(kind, scope)].contains(p) && p.1.contains_key("id"@) && p.1["id"@]
                == ValueView::Int(id) ==> p == (
                s.score(kind, s.rows[(kind, id)]).unwrap(),
                member_of(kind, s.rows[(kind, id)]),
            ),
{
    let row = s.rows[(kind, id)];
    assert(view_fields(kind).contains("id"@)) by {
        assert(view_fields(kind)[0] == "id"@);
    }
    assert(s.expected_view(kind, scope).contains((s.score(kind, row).unwrap(), member_of(kind, row))))
        by {
        assert(s.rows.contains_key((kind, id)));
    }
    assert forall|p: (i64, Fields)|
        s.views[(kind, scope)].contains(p) && p.1.contains_key("id"@) && p.1["id"@]
            == ValueView::Int(id) implies p == (s.score(kind, row).unwrap(), member_of(kind, row)) by {
        let other = choose|other: i64|
            s.rows.contains_key((kind, other)) && in_scope(kind, scope, s.rows[(kind, other)])
                && s.score(kind, s.rows[(kind, other)]) == Some(p.0) && p.1 == member_of(
                kind,
                #[trigger] s.rows[(kind, other)],
            );
        assert(member_of(kind, s.rows[(kind, other)])["id"@] == ValueView::Int(other));
    }
}

/// Adding one to fields of the row `id` over the model.
pub open spec fn increment_run(s: Stores, kind: Kind, id: i64, names: Seq<Seq<char>>, scope: Scope)
    -> (Stores, Option<Result<AnswerView, ErrorType>>) {
    run(
        TaskView { names, ..TaskView::blank(Goal::Increment, kind, id, scope, Point::ProbeView) },
        CommandView::Exists { key: Key::View(kind, scope) },
        s,
        enough(),
    )
}

/// Whether a command leaves the rows of the relational store as they are.
pub open spec fn reads_rows(command: CommandView) -> bool {
    !(command is Insert || command is Update || command is Increment || command is Delete)
}

/// Whether a task has written to the relational store and is now at work
/// on the key-value store.
pub open spec fn mending(t: TaskView, command: CommandView) -> bool {
    &&& t.stage == Stage::After
    &&& reads_rows(command)
    &&& t.goal == Goal::Insert || t.goal == Goal::Update || t.goal == Goal::Increment || t.goal
        == Goal::Delete
    &&& match t.point {
        Point::ProbeView => t.goal == Goal::Insert,
        Point::ProbeHash | Point::Load | Point::Store | Point::Fetch | Point::Rate
        | Point::CheckHash | Point::Patch | Point::Forget | Point::Place => true,
        _ => false,
    }
}

/// Once the write to the relational store has succeeded, nothing that
/// follows changes a row, and no failure changes the result.
pub proof fn lemma_mending_keeps_rows(t: TaskView, command: CommandView, s: Stores, n: nat)
    requires
        mending(t, command),
    ensures
        run(t, command, s, n).0.rows == s.rows,
        run(t, command, s, n).1 is Some ==> run(t, command, s, n).1 == Some(
            Ok::<AnswerView, ErrorType>(t.result()),
        ),
    decreases n,
{
    reveal_with_fuel(run, 2);
    if n > 0 {
        let (after, reply) = s.answer(command);
        assert(after.rows == s.rows);
        match t.step(reply) {
            StepView::Next(next, then) => {
                assert(mending(next, then));
                assert(next.result() == t.result());
                lemma_mending_keeps_rows(next, then, after, (n - 1) as nat);
            },
            StepView::Done(outcome) => {},
        }
    }
}

/// Whether an increment is still reading what it needs before its write.
pub open spec fn preparing(t: TaskView, command: CommandView, names: Seq<Seq<char>>) -> bool {
    &&& t.goal == Goal::Increment
    &&& t.stage == Stage::Before
    &&& t.names == names
    &&& reads_rows(command)
    &&& match t.point {
        Point::ProbeView | Point::ProbeHash | Point::Load | Point::Store | Point::Fetch
        | Point::Rate => true,
        _ => false,
    }
}

/// The rows after one increment of the row `id`.
pub open spec fn rows_bumped(s: Stores, kind: Kind, id: i64, names: Seq<Seq<char>>) -> Map<
    (Kind, i64),
    Fields,
> {
    if s.rows.contains_key((kind, id)) {
        s.rows.insert((kind, id), bumped(s.rows[(kind, id)], names))
    } else {
        s.rows
    }
}

/// The write of an increment adds one to each field, once; what follows
/// changes no row.
pub proof fn lemma_increment_write(t: TaskView, s: Stores, names: Seq<Seq<char>>, n: nat)
    requires
        t.goal == Goal::Increment,
        t.stage == Stage::Before,
        t.point == Point::Write,
    ensures
        ({
            let (after, outcome) = run(
                t,
                CommandView::Increment { kind: t.kind, id: t.id, fields: names },
                s,
                n,
            );
            outcome is Some ==> outcome == Some(Ok::<AnswerView, ErrorType>(AnswerView::Unit))
                && after.rows == rows_bumped(s, t.kind, t.id, names)
        }),
{
    reveal_with_fuel(run, 2);
    if n > 0 {
        let (written, reply) = s.answer(
            CommandView::Increment { kind: t.kind, id: t.id, fields: names },
        );
        match t.step(reply) {
            StepView::Next(next, then) => {
                lemma_mending_keeps_rows(next, then, written, (n - 1) as nat);
            },
            StepView::Done(outcome) => {},
        }
    }
}

/// Whatever the key-value store holds, an increment that succeeds has
/// added one to each field exactly once, and one that fails has changed
/// no row.
pub proof fn lemma_increment_counts(t: TaskView, command: CommandView, s: Stores, n: nat)
    requires
        preparing(t, command, t.names),
    ensures
        ({
            let (after, outcome) = run(t, command, s, n);
            &&& outcome matches Some(Ok(a)) ==> after.rows == rows_bumped(s, t.kind, t.id, t.names)
            &&& outcome matches Some(Err(e)) ==> after.rows == s.rows
        }),
    decreases n,
{
    reveal_with_fuel(run, 2);
    if n > 0 {
        let (then_stores, reply) = s.answer(command);
        assert(then_stores.rows == s.rows);
        match t.step(reply) {
            StepView::Next(next, then) => {
                if next.point == Point::Write {
                    lemma_increment_write(next, then_stores, t.names, (n - 1) as nat);
                } else {
                    assert(preparing(next, then, t.names));
                    lemma_increment_counts(next, then, then_stores, (n - 1) as nat);
                }
            },
            StepView::Done(outcome) => {},
        }
    }
}

/// The stores with the key-value store in another state.
pub open spec fn disturbed(
    s: Stores,
    noise: (Map<(Kind, i64), Fields>, Map<(Kind, Scope), Set<(i64, Fields)>>),
) -> Stores {
    Stores { hashes: noise.0, views: noise.1, ..s }
}

/// One increment after another, the key-value store in an arbitrary state
/// before each; the flag says whether every one of them succeeded.
pub open spec fn increments_run(
    s: Stores,
    kind: Kind,
    id: i64,
    names: Seq<Seq<char>>,
    scope: Scope,
    noise: Seq<(Map<(Kind, i64), Fields>, Map<(Kind, Scope), Set<(i64, Fields)>>)>,
) -> (Stores, bool)
    decreases noise.len(),
{
    if noise.len() == 0 {
        (s, true)
    } else {
        let (before, fine) = increments_run(s, kind, id, names, scope, noise.drop_last());
        let (after, outcome) = increment_run(disturbed(before, noise.last()), kind, id, names, scope);
        (after, fine && outcome matches Some(Ok(a)))
    }
}

/// No increment is lost: after any number of increments that succeeded,
/// one after another at the relational store, a field that held an integer
/// holds that integer plus their number, whatever the key-value store held
/// in between.
pub proof fn law_increments_add_up(
    s: Stores,
    kind: Kind,
    id: i64,
    names: Seq<Seq<char>>,
    scope: Scope,
    noise: Seq<(Map<(Kind, i64), Fields>, Map<(Kind, Scope), Set<(i64, Fields)>>)>,
    field: Seq<char>,
    value: i64,
)
    requires
        s.rows.contains_key((kind, id)),
        s.rows[(kind, id)].contains_key(field),
        s.rows[(kind, id)][field] == ValueView::Int(value),
        names.contains(field),
        value + noise.len() <= i64::MAX,
    ensures
        ({
            let (after, fine) = increments_run(s, kind, id, names, scope, noise);
            fine ==> after.rows.contains_key((kind, id)) && after.rows[(kind, id)].contains_key(
                field,
            ) && after.rows[(kind, id)][field] == ValueView::Int((value + noise.len()) as i64)
        }),
    decreases noise.len(),
{
    if noise.len() > 0 {
        law_increments_add_up(s, kind, id, names, scope, noise.drop_last(), field, value);
        let (before, fine) = increments_run(s, kind, id, names, scope, noise.drop_last());
        let t = TaskView {
            names,
            ..TaskView::blank(Goal::Increment, kind, id, scope, Point::ProbeView)
        };
        lemma_increment_counts(
            t,
            CommandView::Exists { key: Key::View(kind, scope) },
            disturbed(before, noise.last()),
            enough(),
        );
    }
}

/// The write of an increment, where the row is there, bumps the row, drops
/// the hash object, and goes on to bring the view up to date.
pub proof fn lemma_increment_segment(t: TaskView, s: Stores, n: nat)
    requires
        t.goal == Goal::Increment,
        t.stage == Stage::Before,
        s.rows.contains_key((t.kind, t.id)),
        n >= 3,
    ensures
        run(
            TaskView { point: Point::Write, names: Seq::empty(), ..t },
            CommandView::Increment { kind: t.kind, id: t.id, fields: t.names },
            s,
            n,
        ) == continue_run(
            (TaskView {
                stage: Stage::After,
                point: Point::Forget,
                names: Seq::empty(),
                ..t
            }).resync(),
            Stores {
                rows: s.rows.insert((t.kind, t.id), bumped(s.rows[(t.kind, t.id)], t.names)),
                hashes: s.hashes.remove((t.kind, t.id)),
                ..s
            },
            (n - 2) as nat,
        ),
{
    reveal_with_fuel(run, 3);
}

/// The stores after an increment of a row that is there: the row is
/// bumped, its hash object is dropped, and, where the view of the scope is
/// there, the hash object is filled again from the bumped row and the
/// row's member is put in its place.
pub open spec fn incremented(s: Stores, kind: Kind, id: i64, names: Seq<Seq<char>>, scope: Scope)
    -> Stores {
    let row = bumped(s.rows[(kind, id)], names);
    brought_up(
        s,
        kind,
        id,
        scope,
        row,
        if s.views.contains_key((kind, scope)) {
            s.hashes.insert((kind, id), row)
        } else {
            s.hashes.remove((kind, id))
        },
    )
}

/// An increment of a row that is there succeeds and comes to
/// `incremented`, whatever the view of the scope holds.
pub proof fn lemma_increment(s: Stores, kind: Kind, id: i64, names: Seq<Seq<char>>, scope: Scope)
    requires
        s.rows.contains_key((kind, id)),
        s.hash_mirrors(kind, id),
    ensures
        increment_run(s, kind, id, names, scope) == (
            incremented(s, kind, id, names, scope),
            Some(Ok::<AnswerView, ErrorType>(AnswerView::Unit)),
        ),
{
    let old_row = s.rows[(kind, id)];
    let row = bumped(old_row, names);
    let t0 = TaskView { names, ..TaskView::blank(Goal::Increment, kind, id, scope, Point::ProbeView) };
    let cached = s.views.contains_key((kind, scope));
    let t1 = TaskView { cached, ..t0 };
    assert(increment_run(s, kind, id, names, scope) == continue_run(
        if cached {
            StepView::Next(
                TaskView { point: Point::ProbeHash, ..t1 },
                CommandView::Exists { key: Key::Hash(kind, id) },
            )
        } else {
            t1.write()
        },
        s,
        19,
    )) by {
        reveal_with_fuel(run, 2);
    }
    let s_read = if cached {
        filled(s, kind, id)
    } else {
        s
    };
    let t_read = if cached {
        TaskView { old: s.score(kind, old_row), ..reading_task(t1, s) }
    } else {
        t1
    };
    let n_read: nat = if cached {
        (19 - reading_steps(s, kind, id)) as nat
    } else {
        19
    };
    if cached {
        lemma_reading(t1, s, 19);
        assert(read_step(t1, s) == t_read.write());
    }
    assert(increment_run(s, kind, id, names, scope) == continue_run(t_read.write(), s_read, n_read));
    lemma_increment_segment(t_read, s_read, n_read);
    let s_sync = Stores {
        rows: s.rows.insert((kind, id), row),
        hashes: s_read.hashes.remove((kind, id)),
        ..s_read
    };
    let t_sync = TaskView {
        stage: Stage::After,
        point: Point::Forget,
        names: Seq::empty(),
        ..t_read
    };
    let n_sync = (n_read - 2) as nat;
    assert(increment_run(s, kind, id, names, scope) == continue_run(t_sync.resync(), s_sync, n_sync));
    assert(s_sync.hashes =~= s.hashes.remove((kind, id)));
    if cached {
        lemma_reading(t_sync, s_sync, n_sync);
        let s_place = filled(s_sync, kind, id);
        assert(s_place.hashes =~= s.hashes.insert((kind, id), row));
        if s.score(kind, row) is Some {
            let score = s.score(kind, row).unwrap();
            lemma_place(
                reading_task(t_sync, s_sync),
                s_place,
                removed(s.score(kind, old_row), score),
                score,
                member_of(kind, row),
                (n_sync - reading_steps(s_sync, kind, id)) as nat,
            );
        }
    }
    assert(increment_run(s, kind, id, names, scope).0 =~~= incremented(s, kind, id, names, scope));
}

/// After an increment a read gives each incremented field one higher. The
/// hash object is dropped, never patched: where the view of the scope is
/// not there it is gone after the increment, and where it is filled again
/// it is filled from the row.
pub proof fn law_get_after_increment(
    s: Stores,
    kind: Kind,
    id: i64,
    names: Seq<Seq<char>>,
    scope: Scope,
    field: Seq<char>,
    value: i64,
)
    requires
        s.rows.contains_key((kind, id)),
        s.hash_mirrors(kind, id),
        names.contains(field),
        all_fields(kind).contains(field),
        s.rows[(kind, id)].contains_key(field),
        s.rows[(kind, id)][field] == ValueView::Int(value),
        value < i64::MAX,
    ensures
        ({
            let (s1, outcome) = increment_run(s, kind, id, names, scope);
            let (s2, read) = get_run(s1, kind, id);
            &&& outcome == Some(Ok::<AnswerView, ErrorType>(AnswerView::Unit))
            &&& s1.rows == s.rows.insert((kind, id), bumped(s.rows[(kind, id)], names))
            &&& s1.rows[(kind, id)][field] == ValueView::Int((value + 1) as i64)
            &&& !s.views.contains_key((kind, scope)) ==> !s1.hashes.contains_key((kind, id))
            &&& s1.hash_mirrors(kind, id)
            &&& read matches Some(Ok(AnswerView::Row(r)))
            &&& r.contains_key(field)
            &&& r[field] == ValueView::Int((value + 1) as i64)
        }),
{
    lemma_increment(s, kind, id, names, scope);
    let (s1, outcome) = increment_run(s, kind, id, names, scope);
    lemma_get(s1, kind, id);
}

/// An increment leaves a view that mirrored the rows a mirror of the
/// rows. This asks that the row stays in the scope, that the identity is
/// not incremented, and that no other row of the scope stands under the
/// row's old score.
pub proof fn law_increment_keeps_the_view(
    s: Stores,
    kind: Kind,
    id: i64,
    names: Seq<Seq<char>>,
    scope: Scope,
)
    requires
        s.rows.contains_key((kind, id)),
        s.rows_identified(),
        s.hash_mirrors(kind, id),
        s.view_mirrors(kind, scope),
        s.views.contains_key((kind, scope)),
        !names.contains("id"@),
        in_scope(kind, scope, s.rows[(kind, id)]),
        in_scope(kind, scope, bumped(s.rows[(kind, id)], names)),
        s.score(kind, s.rows[(kind, id)]) is Some,
        s.score(kind, bumped(s.rows[(kind, id)], names)) is Some,
        score_is_own(s, kind, scope, id),
    ensures
        ({
            let (s1, outcome) = increment_run(s, kind, id, names, scope);
            &&& s1.views.contains_key((kind, scope))
            &&& s1.view_mirrors(kind, scope)
        }),
{
    lemma_increment(s, kind, id, names, scope);
    let (s1, outcome) = increment_run(s, kind, id, names, scope);
    let row = s1.rows[(kind, id)];
    assert(row["id"@] == ValueView::Int(id));
    lemma_replaced_view_mirrors(s, s1, kind, scope, id);
}

/// Deleting the row `id` over the model.
pub open spec fn delete_run(s: Stores, kind: Kind, id: i64, scope: Scope) -> (
    Stores,
    Option<Result<AnswerView, ErrorType>>,
) {
    run(
        TaskView::blank(Goal::Delete, kind, id, scope, Point::Write),
        CommandView::Delete { kind, id },
        s,
        enough(),
    )
}

/// A delete removes the row, its hash object and the view of the scope;
/// a read that follows fails with `NoneError`.
pub proof fn law_get_after_delete(s: Stores, kind: Kind, id: i64, scope: Scope)
    ensures
        ({
            let (s1, outcome) = delete_run(s, kind, id, scope);
            let (s2, read) = get_run(s1, kind, id);
            &&& outcome == Some(Ok::<AnswerView, ErrorType>(AnswerView::Unit))
            &&& s1.rows == s.rows.remove((kind, id))
            &&& s1.hashes == s.hashes.remove((kind, id))
            &&& s1.views == s.views.remove((kind, scope))
            &&& read == Some(Err::<AnswerView, ErrorType>(ErrorType::NoneError))
        }),
{
    reveal_with_fuel(run, 3);
    let (s1, outcome) = delete_run(s, kind, id, scope);
    lemma_get(s1, kind, id);
}

/// A cached copy that runs out takes nothing with it: the rows stay, and
/// whatever mirrored them before mirrors them still.
pub proof fn law_expiry_is_harmless(s: Stores, key: Key, kind: Kind, id: i64, scope: Scope)
    ensures
        s.expire(key).rows == s.rows,
        s.hash_mirrors(kind, id) ==> s.expire(key).hash_mirrors(kind, id),
        s.view_mirrors(kind, scope) ==> s.expire(key).view_mirrors(kind, scope),
{
    assert(s.expire(key).expected_view(kind, scope) =~= s.expected_view(kind, scope));
}

/// Counting the members of a view over the model.
pub open spec fn count_run(s: Stores, kind: Kind, scope: Scope) -> (
    Stores,
    Option<Result<AnswerView, ErrorType>>,
) {
    run(
        TaskView::blank(Goal::Count, kind, 0, scope, Point::ProbeView),
        CommandView::Exists { key: Key::View(kind, scope) },
        s,
        enough(),
    )
}

/// The rows of a scope as the relational store lists them.
pub open spec fn scanned(s: Stores, kind: Kind, scope: Scope) -> Seq<Fields> {
    choose|listing: Seq<Fields>| lists_scope(s, kind, scope, listing)
}

/// Whether every row of a scope has a score.
pub open spec fn scope_is_scored(s: Stores, kind: Kind, scope: Scope) -> bool {
    forall|id: i64| #[trigger]
        s.rows.contains_key((kind, id)) && in_scope(kind, scope, s.rows[(kind, id)]) ==> s.score(
            kind,
            s.rows[(kind, id)],
        ) is Some
}

/// Reading a view that is not there builds it: afterwards the view holds
/// the member of every row of the scope under the row's score, and nothing
/// else. A scope without rows gets no view. The rows stay as they are.
pub proof fn law_view_is_built(s: Stores, kind: Kind, scope: Scope)
    requires
        !s.views.contains_key((kind, scope)),
        lists_scope(s, kind, scope, scanned(s, kind, scope)),
        scope_is_scored(s, kind, scope),
    ensures
        ({
            let (after, outcome) = count_run(s, kind, scope);
            &&& outcome is Some
            &&& outcome.unwrap() is Ok
            &&& after.rows == s.rows
            &&& after.hashes == s.hashes
            &&& after.view_mirrors(kind, scope)
            &&& after.views.contains_key((kind, scope)) == (scanned(s, kind, scope).len() > 0)
        }),
{
    reveal_with_fuel(run, 6);
    let rows = scanned(s, kind, scope);
    let (after, outcome) = count_run(s, kind, scope);
    assert forall|i: int| 0 <= i < rows.len() implies crate::score::score_of(
        kind,
        #[trigger] rows[i],
        s.accuracy,
    ) is Some by {
        assert(rows.contains(rows[i]));
        let id = choose|id: i64|
            s.rows.contains_key((kind, id)) && in_scope(kind, scope, s.rows[(kind, id)]) && rows[i]
                == member_of(kind, #[trigger] s.rows[(kind, id)]);
        assert(s.score(kind, s.rows[(kind, id)]) is Some);
    }
    if rows.len() > 0 {
        let ratios = Seq::new(
            rows.len(),
            |i: int|
                (s.accuracy)(
                    crate::cache::term_pairs(rows)[i].0,
                    crate::cache::term_pairs(rows)[i].1,
                ),
        );
        let items = if kind == Kind::User {
            crate::cache::rated_items(rows, ratios)
        } else {
            crate::cache::scored_items(kind, rows)
        };
        if kind == Kind::User {
            assert(crate::cache::all_termed(rows));
            assert(crate::cache::all_rated(rows, ratios));
        } else {
            assert(crate::cache::all_scored(kind, rows));
        }
        assert(items.len() == rows.len());
        assert forall|i: int| 0 <= i < rows.len() implies #[trigger] items[i] == (
            crate::score::score_of(kind, rows[i], s.accuracy).unwrap(),
            rows[i],
        ) by {}
        assert(after.views.contains_key((kind, scope)));
        let built = after.views[(kind, scope)];
        assert(after.expected_view(kind, scope) =~= s.expected_view(kind, scope));
        assert forall|p: (i64, Fields)| built.contains(p) implies s.expected_view(
            kind,
            scope,
        ).contains(p) by {
            let i = choose|i: int|
                0 <= i < items.len() && #[trigger] items[i] == p && forall|j: int|
                    i < j < items.len() ==> (#[trigger] items[j]).1 != p.1;
            assert(rows.contains(rows[i]));
            let id = choose|id: i64|
                s.rows.contains_key((kind, id)) && in_scope(kind, scope, s.rows[(kind, id)])
                    && rows[i] == member_of(kind, #[trigger] s.rows[(kind, id)]);
            assert(p.1 == member_of(kind, s.rows[(kind, id)]));
        }
        assert forall|p: (i64, Fields)| s.expected_view(kind, scope).contains(
            p,
        ) implies built.contains(p) by {
            let id = choose|id: i64|
                s.rows.contains_key((kind, id)) && in_scope(kind, scope, s.rows[(kind, id)])
                    && s.score(kind, s.rows[(kind, id)]) == Some(p.0) && p.1 == member_of(
                    kind,
                    #[trigger] s.rows[(kind, id)],
                );
            assert(rows.contains(p.1));
            let i = choose|i: int| 0 <= i < rows.len() && rows[i] == p.1;
            assert(items[i] == p);
            assert forall|j: int| i < j < items.len() implies (#[trigger] items[j]).1 != p.1 by {
                assert(rows[i] != rows[j]);
            }
        }
        assert(built =~= s.expected_view(kind, scope));
    }
}

/// A write that the relational store fails ends the operation with
/// `SystemError` there and then: nothing is asked of the key-value store
/// afterwards.
pub proof fn law_failed_write_ends(t: TaskView)
    requires
        t.point == Point::Write,
    ensures
        t.step(ReplyView::Failed) == StepView::Done(
            Err::<AnswerView, ErrorType>(ErrorType::SystemError),
        ),
{
}

/// Once the write has succeeded, a failure of the key-value store fails
/// nothing: the operation ends with the result of the write.
pub proof fn law_cache_failure_is_swallowed(t: TaskView, command: CommandView)
    requires
        mending(t, command),
    ensures
        t.step(ReplyView::Failed) == StepView::Done(Ok::<AnswerView, ErrorType>(t.result())),
{
}

/// A read that has its row from the relational store gives the row though
/// the hash object cannot be filled: whatever the reply to the filling,
/// the read succeeds with what the row holds.
pub proof fn law_read_survives_a_failed_fill(t: TaskView, reply: ReplyView)
    requires
        t.point == Point::Store,
    ensures
        t.goal == Goal::Get ==> t.step(reply) == StepView::Done(
            Ok::<AnswerView, ErrorType>(AnswerView::Row(t.held)),
        ),
        t.goal == Goal::GetFields && !(reply is Done) ==> t.step(reply) == StepView::Done(
            Ok::<AnswerView, ErrorType>(AnswerView::Row(pick(t.held, t.names))),
        ),
        t.goal == Goal::Exists ==> t.step(reply) == StepView::Done(
            Ok::<AnswerView, ErrorType>(AnswerView::Flag(true)),
        ),
{
}

/// An update or an increment fails only if the relational store fails:
/// before its write, a failure of the key-value store leaves the old score
/// unknown and the write goes on; a reply that the relational store did
/// not give never ends the operation with an error.
pub proof fn law_write_goes_on(t: TaskView, reply: ReplyView)
    requires
        t.goal == Goal::Update || t.goal == Goal::Increment,
        t.stage == Stage::Before,
        t.point == Point::ProbeView || t.point == Point::ProbeHash || t.point == Point::Store
            || t.point == Point::Fetch || t.point == Point::Rate,
    ensures
        t.point != Point::Store ==> t.step(ReplyView::Failed) == (TaskView {
            old: None,
            ..t
        }).write(),
        !(t.step(reply) matches StepView::Done(Err(e))),
        match (TaskView { old: None, ..t }).write() {
            StepView::Next(next, command) => command is Update || command is Increment
                || command is Exists,
            StepView::Done(outcome) => outcome is Ok,
        },
{
}

/// Whether a task is at a point that its goal and its stage lead to.
pub open spec fn on_its_way(t: TaskView) -> bool {
    match t.goal {
        Goal::Get | Goal::GetFields => t.stage == Stage::Before && (t.point == Point::ProbeHash
            || t.point == Point::Load || t.point == Point::Store || t.point == Point::Fetch),
        Goal::Exists => t.stage == Stage::Before && (t.point == Point::ProbeHash || t.point
            == Point::Load || t.point == Point::Store),
        Goal::Range | Goal::RangeByScore | Goal::Count => t.stage == Stage::Before && (t.point
            == Point::ProbeView || t.point == Point::ScanRows || t.point == Point::RateRows
            || t.point == Point::FillView || t.point == Point::ReadView),
        Goal::InsertRow => t.stage == Stage::Before && t.point == Point::Write,
        Goal::Delete => if t.stage == Stage::Before {
            t.point == Point::Write
        } else {
            t.point == Point::Forget
        },
        Goal::Insert => if t.stage == Stage::Before {
            t.point == Point::Write
        } else {
            t.point == Point::ProbeView || t.point == Point::ProbeHash || t.point == Point::Load
                || t.point == Point::Store || t.point == Point::Fetch || t.point == Point::Rate
                || t.point == Point::Place
        },
        Goal::Update | Goal::Increment => if t.stage == Stage::Before {
            t.point == Point::ProbeView || t.point == Point::ProbeHash || t.point == Point::Load
                || t.point == Point::Store || t.point == Point::Fetch || t.point == Point::Rate
                || t.point == Point::Write
        } else {
            t.point == Point::CheckHash || t.point == Point::Patch || t.point == Point::Forget
                || t.point == Point::ProbeHash || t.point == Point::Load || t.point == Point::Store
                || t.point == Point::Fetch || t.point == Point::Rate || t.point == Point::Place
        },
    }
}

/// How far a task has come.
pub open spec fn progress(t: TaskView) -> nat {
    if t.stage == Stage::Before {
        match t.point {
            Point::ProbeView => 0,
            Point::ScanRows => 1,
            Point::RateRows => 2,
            Point::FillView => 3,
            Point::ReadView => 4,
            Point::ProbeHash => 5,
            Point::Load => 6,
            Point::Store => 7,
            Point::Fetch => 8,
            Point::Rate => 9,
            _ => 10,
        }
    } else {
        match t.point {
            Point::CheckHash => 11,
            Point::Patch => 12,
            Point::Forget => 12,
            Point::ProbeView => 13,
            Point::ProbeHash => 14,
            Point::Load => 15,
            Point::Store => 16,
            Point::Fetch => 17,
            Point::Rate => 18,
            _ => 19,
        }
    }
}

/// Every step takes a task on: it ends the task, or it leaves the task at
/// a later point of its way.
pub proof fn lemma_step_goes_on(t: TaskView, reply: ReplyView)
    requires
        on_its_way(t),
    ensures
        match t.step(reply) {
            StepView::Next(next, command) => on_its_way(next) && progress(next) > progress(t)
                && next.goal == t.goal,
            StepView::Done(outcome) => true,
        },
{
}

/// What comes of a task when the stores reply with `replies`, one after
/// another; `None` where the replies run out before the task has ended.
pub open spec fn outcome_of(t: TaskView, replies: Seq<ReplyView>) -> Option<
    Result<AnswerView, ErrorType>,
>
    decreases replies.len(),
{
    if replies.len() == 0 {
        None
    } else {
        match t.step(replies[0]) {
            StepView::Next(next, command) => outcome_of(next, replies.skip(1)),
            StepView::Done(outcome) => Some(outcome),
        }
    }
}

/// Every operation ends: whatever the stores reply, a task has its outcome
/// after twenty commands at the most.
pub proof fn law_every_task_ends(t: TaskView, replies: Seq<ReplyView>)
    requires
        on_its_way(t),
        replies.len() + progress(t) >= 20,
    ensures
        outcome_of(t, replies) is Some,
    decreases replies.len(),
{
    lemma_step_goes_on(t, replies[0]);
    match t.step(replies[0]) {
        StepView::Next(next, command) => {
            law_every_task_ends(next, replies.skip(1));
        },
        StepView::Done(outcome) => {},
    }
}

/// Every operation begins on its way.
pub proof fn law_tasks_begin_on_their_way(goal: Goal, kind: Kind, id: i64, scope: Scope)
    ensures
        (goal == Goal::Get || goal == Goal::GetFields || goal == Goal::Exists) ==> on_its_way(
            TaskView::blank(goal, kind, id, scope, Point::ProbeHash),
        ),
        (goal == Goal::InsertRow || goal == Goal::Insert || goal == Goal::Delete) ==> on_its_way(
            TaskView::blank(goal, kind, id, scope, Point::Write),
        ),
        (goal == Goal::Update || goal == Goal::Increment || goal == Goal::Range || goal
            == Goal::RangeByScore || goal == Goal::Count) ==> on_its_way(
            TaskView::blank(goal, kind, id, scope, Point::ProbeView),
        ),
{
}

/// Reading some fields of the row `id` over the model.
pub open spec fn get_fields_run(s: Stores, kind: Kind, id: i64, names: Seq<Seq<char>>) -> (
    Stores,
    Option<Result<AnswerView, ErrorType>>,
) {
    run(
        TaskView {
            names,
            ..TaskView::blank(Goal::GetFields, kind, id, Scope::Whole, Point::ProbeHash)
        },
        CommandView::Exists { key: Key::Hash(kind, id) },
        s,
        enough(),
    )
}

/// A read of some fields gives those fields and no others; where the hash
/// object was not there it is filled with the whole row, not with the
/// fields that were asked for.
pub proof fn law_partial_read_fills_the_whole_row(
    s: Stores,
    kind: Kind,
    id: i64,
    names: Seq<Seq<char>>,
)
    requires
        s.rows.contains_key((kind, id)),
        s.hash_mirrors(kind, id),
    ensures
        ({
            let (after, outcome) = get_fields_run(s, kind, id, names);
            &&& outcome == Some(
                Ok::<AnswerView, ErrorType>(AnswerView::Row(pick(s.rows[(kind, id)], names))),
            )
            &&& after.hashes.contains_key((kind, id))
            &&& after.hashes[(kind, id)] == s.rows[(kind, id)]
            &&& after.rows == s.rows
        }),
{
    reveal_with_fuel(run, 5);
    let row = s.rows[(kind, id)];
    assert(Map::<Seq<char>, ValueView>::empty().union_prefer_right(row) =~= row);
}

/// Asking for the row `id` over the model.
pub open spec fn contains_run(s: Stores, kind: Kind, id: i64) -> (
    Stores,
    Option<Result<AnswerView, ErrorType>>,
) {
    run(
        TaskView::blank(Goal::Exists, kind, id, Scope::Whole, Point::ProbeHash),
        CommandView::Exists { key: Key::Hash(kind, id) },
        s,
        enough(),
    )
}

/// A row is there exactly if its hash object or the row itself is there.
pub proof fn law_contains(s: Stores, kind: Kind, id: i64)
    ensures
        contains_run(s, kind, id).1 == Some(
            Ok::<AnswerView, ErrorType>(
                AnswerView::Flag(
                    s.hashes.contains_key((kind, id)) || s.rows.contains_key((kind, id)),
                ),
            ),
        ),
        contains_run(s, kind, id).0.rows == s.rows,
{
    reveal_with_fuel(run, 4);
}

/// A view that mirrored the rows mirrors them again once the member of a
/// new row has been added under a score that no row of the scope had.
pub proof fn lemma_added_view_mirrors(
    before: Stores,
    after: Stores,
    kind: Kind,
    scope: Scope,
    id: i64,
)
    requires
        !before.rows.contains_key((kind, id)),
        before.rows_identified(),
        before.view_mirrors(kind, scope),
        before.views.contains_key((kind, scope)),
        after.rows == before.rows.insert((kind, id), after.rows[(kind, id)]),
        after.accuracy == before.accuracy,
        after.rows[(kind, id)].contains_key("id"@),
        after.rows[(kind, id)]["id"@] == ValueView::Int(id),
        in_scope(kind, scope, after.rows[(kind, id)]),
        after.score(kind, after.rows[(kind, id)]) is Some,
        forall|other: i64| #[trigger]
            before.rows.contains_key((kind, other)) && in_scope(
                kind,
                scope,
                before.rows[(kind, other)],
            ) ==> before.score(kind, before.rows[(kind, other)]) != after.score(
                kind,
                after.rows[(kind, id)],
            ),
        after.views.contains_key((kind, scope)),
        after.views[(kind, scope)] == replaced(
            before.views[(kind, scope)],
            after.score(kind, after.rows[(kind, id)]).unwrap(),
            after.score(kind, after.rows[(kind, id)]).unwrap(),
            member_of(kind, after.rows[(kind, id)]),
        ),
    ensures
        after.view_mirrors(kind, scope),
{
    let row = after.rows[(kind, id)];
    let score = after.score(kind, row).unwrap();
    let member = member_of(kind, row);
    let placed = after.views[(kind, scope)];
    assert(view_fields(kind).contains("id"@)) by {
        assert(view_fields(kind)[0] == "id"@);
    }
    assert forall|p: (i64, Fields)| placed.contains(p) implies after.expected_view(
        kind,
        scope,
    ).contains(p) by {
        if p == (score, member) {
            assert(after.rows.contains_key((kind, id)) && p.1 == member_of(
                kind,
                after.rows[(kind, id)],
            ));
        } else {
            assert(before.expected_view(kind, scope).contains(p));
            let other = choose|other: i64|
                before.rows.contains_key((kind, other)) && in_scope(
                    kind,
                    scope,
                    before.rows[(kind, other)],
                ) && before.score(kind, before.rows[(kind, other)]) == Some(p.0) && p.1
                    == member_of(kind, #[trigger] before.rows[(kind, other)]);
            assert(after.rows.contains_key((kind, other)) && p.1 == member_of(
                kind,
                after.rows[(kind, other)],
            ));
        }
    }
    assert forall|p: (i64, Fields)| after.expected_view(kind, scope).contains(
        p,
    ) implies placed.contains(p) by {
        let other = choose|other: i64|
            after.rows.contains_key((kind, other)) && in_scope(
                kind,
                scope,
                after.rows[(kind, other)],
            ) && after.score(kind, after.rows[(kind, other)]) == Some(p.0) && p.1 == member_of(
                kind,
                #[trigger] after.rows[(kind, other)],
            );
        if other != id {
            assert(before.rows.contains_key((kind, other)));
            assert(before.expected_view(kind, scope).contains(p));
            assert(p.1["id"@] == ValueView::Int(other));
            assert(member["id"@] == ValueView::Int(id));
        }
    }
    assert(placed =~= after.expected_view(kind, scope));
}

/// An insert into a scope whose view is there adds the member of the new
/// row to the view under the row's score, so that the view mirrors the
/// rows as it did before. No other row of the scope may stand under that
/// score.
pub proof fn law_insert_joins_the_view(s: Stores, kind: Kind, fields: Entries, scope: Scope)
    requires
        !s.rows.contains_key((kind, (s.fresh)(kind))),
        !s.hashes.contains_key((kind, (s.fresh)(kind))),
        s.rows_identified(),
        s.view_mirrors(kind, scope),
        s.views.contains_key((kind, scope)),
        in_scope(kind, scope, inserted_row(s, kind, fields)),
        s.score(kind, inserted_row(s, kind, fields)) is Some,
        forall|other: i64| #[trigger]
            s.rows.contains_key((kind, other)) && in_scope(kind, scope, s.rows[(kind, other)])
                ==> s.score(kind, s.rows[(kind, other)]) != s.score(
                kind,
                inserted_row(s, kind, fields),
            ),
    ensures
        ({
            let (after, outcome) = insert_run(s, kind, fields, scope);
            let row = inserted_row(s, kind, fields);
            &&& outcome == Some(Ok::<AnswerView, ErrorType>(AnswerView::Id((s.fresh)(kind))))
            &&& after.views.contains_key((kind, scope))
            &&& after.views[(kind, scope)].contains(
                (s.score(kind, row).unwrap(), member_of(kind, row)),
            )
            &&& after.view_mirrors(kind, scope)
        }),
{
    let id = (s.fresh)(kind);
    let row = inserted_row(s, kind, fields);
    let written = Stores { rows: s.rows.insert((kind, id), row), ..s };
    let t0 = TaskView::blank(Goal::Insert, kind, 0, scope, Point::Write);
    let t1 = TaskView { id, stage: Stage::After, cached: true, ..t0 };
    assert(insert_run(s, kind, fields, scope) == run(
        TaskView { point: Point::ProbeHash, ..t1 },
        CommandView::Exists { key: Key::Hash(kind, id) },
        written,
        18,
    )) by {
        reveal_with_fuel(run, 3);
    }
    lemma_reading(t1, written, 18);
    let member = member_of(kind, row);
    let score = written.score(kind, row).unwrap();
    lemma_place(
        reading_task(t1, written),
        filled(written, kind, id),
        score,
        score,
        member,
        (18 - reading_steps(written, kind, id)) as nat,
    );
    let (after, outcome) = insert_run(s, kind, fields, scope);
    assert(after.rows == written.rows);
    assert(after.views[(kind, scope)] == replaced(s.views[(kind, scope)], score, score, member));
    lemma_added_view_mirrors(s, after, kind, scope, id);
}

/// Reading a whole view by rising score over the model.
pub open spec fn range_run(s: Stores, kind: Kind, scope: Scope) -> (
    Stores,
    Option<Result<AnswerView, ErrorType>>,
) {
    run(
        TaskView {
            low: 0i64,
            high: -1i64,
            reverse: false,
            ..TaskView::blank(Goal::Range, kind, 0, scope, Point::ProbeView)
        },
        CommandView::Exists { key: Key::View(kind, scope) },
        s,
        enough(),
    )
}

/// A view that is there is listed by rising score: the listing holds each
/// member of the view once, a member with a lower score before one with a
/// higher, so that a member stands where its score puts it. The stores
/// stay as they are. This asks that the view can be ranked at all, which
/// is so of every finite view.
pub proof fn law_range_lists_by_score(s: Stores, kind: Kind, scope: Scope)
    requires
        s.views.contains_key((kind, scope)),
        ranks(s.views[(kind, scope)], ranking_of(s.views[(kind, scope)])),
    ensures
        ({
            let ranking = ranking_of(s.views[(kind, scope)]);
            &&& range_run(s, kind, scope) == (
                s,
                Some(Ok::<AnswerView, ErrorType>(AnswerView::Rows(members(ranking)))),
            )
            &&& forall|p: (i64, Fields)|
                s.views[(kind, scope)].contains(p) <==> #[trigger] ranking.contains(p)
            &&& forall|i: int, j: int|
                0 <= i < j < ranking.len() ==> ranking[i].0 <= ranking[j].0 && ranking[i]
                    != ranking[j]
        }),
{
    reveal_with_fuel(run, 3);
    let ranking = ranking_of(s.views[(kind, scope)]);
    assert(crate::store::rank_slice(ranking, 0i64, -1i64) =~= ranking);
}

} // verus!
