//! Listings of submissions: where a listing is read from, and the names
//! that are written beside each of its rows.

use crate::cache::rows_view;
use crate::score::{int_at, int_field, Fields};
use crate::value::{Record, Value, ValueView};
use std::collections::HashMap;
use vstd::prelude::*;

verus! {

/// Where a listing of practice submissions is read from.
#[derive(Debug, Clone, Copy, PartialEq, Eq, Structural)]
pub enum Route {
    /// From the sorted-set view of the problem.
    ByProblem,
    /// From the cached list of the user's submissions to the problem.
    ByUserAndProblem,
    /// From the relational store, by the filter.
    Filtered,
}

/// Where a listing of practice submissions is read from: from the view of
/// the problem where the filter names the problem and nothing else, from
/// the list of the user where it names the problem and the user and
/// nothing else, from the relational store otherwise.
pub fn route(pid_exist: bool, uid_exist: bool, entries: usize) -> (route: Route)
    ensures
        route == if pid_exist && !uid_exist && entries == 1 {
            Route::ByProblem
        } else if pid_exist && uid_exist && entries == 2 {
            Route::ByUserAndProblem
        } else {
            Route::Filtered
        },
{
    if pid_exist && !uid_exist && entries == 1 {
        Route::ByProblem
    } else if pid_exist && uid_exist && entries == 2 {
        Route::ByUserAndProblem
    } else {
        Route::Filtered
    }
}

/// Whether a count, or a listing of test submissions, is read from the
/// sorted-set view of one problem: whether the filter names the problem
/// and nothing else.
pub fn reads_problem_view(names_problem: bool, entries: usize) -> (from_view: bool)
    ensures
        from_view == (names_problem && entries == 1),
{
    names_problem && entries == 1
}

/// The status of a submission as a reader is told it: the live status
/// where its key is there; else, for a test submission, 0, and for any
/// other the status that the relational store holds, for which `None`
/// stands.
pub fn live_status(test: bool, live: Option<i64>) -> (status: Option<i32>)
    ensures
        status == match live {
            Some(code) => Some(code as i32),
            None => if test {
                Some(0i32)
            } else {
                None
            },
        },
{
    match live {
        Some(code) => Some(#[verifier::truncate] (code as i32)),
        None => if test {
            Some(0)
        } else {
            None
        },
    }
}

/// The names of the authors, where they are asked for, and the titles and
/// indexes of the problems.
pub struct NamesView {
    pub users: Option<Map<i64, String>>,
    pub titles: Map<i64, String>,
    pub indexes: Map<i64, String>,
}

/// Whether the names of a row are known.
pub open spec fn known(row: Fields, names: NamesView) -> bool {
    names.titles.contains_key(int_at(row, "pid"@).unwrap()) && (names.users is Some
        ==> names.users.unwrap().contains_key(int_at(row, "uid"@).unwrap()))
}

/// A row with its names written beside it.
pub open spec fn named(row: Fields, names: NamesView) -> Fields {
    let pid = int_at(row, "pid"@).unwrap();
    let with_user = match names.users {
        Some(users) => row.insert(
            "username"@,
            ValueView::Text(users[int_at(row, "uid"@).unwrap()]@),
        ),
        None => row,
    };
    with_user.insert("title"@, ValueView::Text(names.titles[pid]@)).insert(
        "index"@,
        ValueView::Text(names.indexes[pid]@),
    )
}

/// The rows whose names are known, each with its names beside it.
pub open spec fn named_rows(rows: Seq<Fields>, names: NamesView) -> Seq<Fields>
    decreases rows.len(),
{
    if rows.len() == 0 {
        Seq::empty()
    } else if known(rows.last(), names) {
        named_rows(rows.drop_last(), names).push(named(rows.last(), names))
    } else {
        named_rows(rows.drop_last(), names)
    }
}

/// Whether every row names its problem and, where authors are asked for,
/// its author, and every problem that has a title has an index.
pub open spec fn nameable(rows: Seq<Fields>, names: NamesView) -> bool {
    &&& forall|i: int| 0 <= i < rows.len() ==> int_at(#[trigger] rows[i], "pid"@) is Some
    &&& names.users is Some ==> forall|i: int|
        0 <= i < rows.len() ==> int_at(#[trigger] rows[i], "uid"@) is Some
    &&& forall|pid: i64| #[trigger] names.titles.contains_key(pid) ==> names.indexes.contains_key(pid)
}

/// Writes beside each row the title and the index of its problem and,
/// where `users` is given, the name of its author. A row whose problem or
/// author is not among the names is left out.
pub fn with_names(
    rows: &Vec<Record>,
    users: Option<&HashMap<i64, String>>,
    titles: &HashMap<i64, String>,
    indexes: &HashMap<i64, String>,
) -> (out: Vec<Record>)
    requires
        nameable(
            rows_view(rows@),
            NamesView {
                users: match users {
                    Some(u) => Some(u@),
                    None => None,
                },
                titles: titles@,
                indexes: indexes@,
            },
        ),
    ensures
        rows_view(out@) == named_rows(
            rows_view(rows@),
            NamesView {
                users: match users {
                    Some(u) => Some(u@),
                    None => None,
                },
                titles: titles@,
                indexes: indexes@,
            },
        ),
{
    broadcast use vstd::std_specs::hash::group_hash_axioms;

    let ghost names = NamesView {
        users: match users {
            Some(u) => Some(u@),
            None => None,
        },
        titles: titles@,
        indexes: indexes@,
    };
    let ghost views = rows_view(rows@);
    let mut out: Vec<Record> = Vec::new();
    let mut i: usize = 0;
    while i < rows.len()
        invariant
            i <= rows.len(),
            views == rows_view(rows@),
            nameable(views, names),
            names.titles == titles@,
            names.indexes == indexes@,
            names.users == match users {
                Some(u) => Some(u@),
                None => None,
            },
            rows_view(out@) == named_rows(views.take(i as int), names),
        decreases rows.len() - i,
    {
        let ghost done = rows_view(out@);
        proof {
            assert(views.take(i + 1).drop_last() =~= views.take(i as int));
            assert(views.take(i + 1).last() == views[i as int]);
        }
        let row = &rows[i];
        let pid = int_field(row, "pid").unwrap();
        let author: Option<Option<&String>> = match users {
            Some(u) => {
                let uid = int_field(row, "uid").unwrap();
                Some(u.get(&uid))
            },
            None => None,
        };
        let author_known = match author {
            Some(found) => found.is_some(),
            None => true,
        };
        match titles.get(&pid) {
            Some(title) => {
                if author_known {
                    let mut named_row = row.duplicate();
                    match author {
                        Some(found) => {
                            named_row.insert("username", Value::text(found.unwrap().as_str()));
                        },
                        None => {},
                    }
                    named_row.insert("title", Value::text(title.as_str()));
                    named_row.insert("index", Value::text(indexes.get(&pid).unwrap().as_str()));
                    assert(named_row@ == named(views[i as int], names));
                    out.push(named_row);
                    assert(rows_view(out@) =~= done.push(named(views[i as int], names)));
                }
            },
            None => {},
        }
        i += 1;
    }
    assert(views.take(rows.len() as int) =~= views);
    out
}

} // verus!
