//! What a judged practice submission changes in the statistics of its
//! author.

use crate::sql::{id_list, push_id_list};
use crate::value::{Record, Value, ValueView};
use vstd::prelude::*;

verus! {

/// `s` without the first occurrence of `x`.
pub open spec fn without_first(s: Seq<i64>, x: i64) -> Seq<i64>
    decreases s.len(),
{
    if s.len() == 0 {
        s
    } else if s[0] == x {
        s.skip(1)
    } else {
        seq![s[0]] + without_first(s.skip(1), x)
    }
}

proof fn lemma_without_first(s: Seq<i64>, x: i64, i: int)
    requires
        0 <= i < s.len(),
        s[i] == x,
        forall|j: int| 0 <= j < i ==> s[j] != x,
    ensures
        without_first(s, x) == s.remove(i),
    decreases s.len(),
{
    if i == 0 {
        assert(s.remove(0) =~= s.skip(1));
    } else {
        let rest = s.skip(1);
        assert forall|j: int| 0 <= j < i - 1 implies rest[j] != x by {
            assert(rest[j] == s[j + 1]);
        }
        lemma_without_first(rest, x, i - 1);
        assert(seq![s[0]] + rest.remove(i - 1) =~= s.remove(i));
    }
}

/// The position of the first occurrence of `x`.
pub fn position_of(v: &Vec<i64>, x: i64) -> (r: Option<usize>)
    ensures
        match r {
            Some(i) => i < v.len() && v@[i as int] == x && forall|j: int|
                0 <= j < i ==> v@[j] != x,
            None => !v@.contains(x),
        },
{
    let mut i: usize = 0;
    while i < v.len()
        invariant
            i <= v.len(),
            forall|j: int| 0 <= j < i ==> v@[j] != x,
        decreases v.len() - i,
    {
        if v[i] == x {
            return Some(i);
        }
        i += 1;
    }
    None
}

/// A list of integers as JSON text: the integers in decimal between
/// brackets, with commas between them and no white space.
pub open spec fn list_text(s: Seq<i64>) -> Seq<char> {
    seq!['['] + id_list(s) + seq![']']
}

/// A list of integers as JSON text.
pub fn int_list_json(v: &Vec<i64>) -> (text: String)
    ensures
        text@ == list_text(v@),
{
    let mut text = String::new();
    text.push('[');
    push_id_list(&mut text, v);
    text.push(']');
    text
}

/// What changes in the statistics of a user. A part that is `None` stays
/// as it is.
#[derive(Debug, PartialEq, Eq)]
pub struct StatsChange {
    pub all_count: i64,
    pub accepted_count: Option<i64>,
    pub solved_problems: Option<Vec<i64>>,
    pub solved: Option<usize>,
    pub failed_problems: Option<Vec<i64>>,
}

/// A `StatsChange` as contracts see it.
pub struct StatsChangeView {
    pub all_count: i64,
    pub accepted_count: Option<i64>,
    pub solved_problems: Option<Seq<i64>>,
    pub solved: Option<usize>,
    pub failed_problems: Option<Seq<i64>>,
}

/// The view of an optional list.
pub open spec fn list_view(v: Option<Vec<i64>>) -> Option<Seq<i64>> {
    match v {
        Some(list) => Some(list@),
        None => None,
    }
}

impl View for StatsChange {
    type V = StatsChangeView;

    open spec fn view(&self) -> StatsChangeView {
        StatsChangeView {
            all_count: self.all_count,
            accepted_count: self.accepted_count,
            solved_problems: list_view(self.solved_problems),
            solved: self.solved,
            failed_problems: list_view(self.failed_problems),
        }
    }
}

/// What a judged submission to the problem `pid` changes. Every submission
/// counts. An accepted one counts as accepted; where the problem was not
/// solved before it joins the solved problems and leaves the failed ones.
/// Any other one puts a problem that is neither solved nor failed among
/// the failed ones.
pub open spec fn stats_change(
    all_count: i64,
    accepted_count: i64,
    solved: Seq<i64>,
    failed: Seq<i64>,
    pid: i64,
    accepted: bool,
) -> StatsChangeView {
    if accepted {
        StatsChangeView {
            all_count: (all_count + 1) as i64,
            accepted_count: Some((accepted_count + 1) as i64),
            solved_problems: if solved.contains(pid) {
                None
            } else {
                Some(solved.push(pid))
            },
            solved: if solved.contains(pid) {
                None
            } else {
                Some((solved.len() + 1) as usize)
            },
            failed_problems: if !solved.contains(pid) && failed.contains(pid) {
                Some(without_first(failed, pid))
            } else {
                None
            },
        }
    } else {
        StatsChangeView {
            all_count: (all_count + 1) as i64,
            accepted_count: None,
            solved_problems: None,
            solved: None,
            failed_problems: if !solved.contains(pid) && !failed.contains(pid) {
                Some(failed.push(pid))
            } else {
                None
            },
        }
    }
}

/// What a judged submission of a user to the problem `pid` changes in the
/// user's statistics.
pub fn deal_submission_result(
    all_count: i64,
    accepted_count: i64,
    solved: Vec<i64>,
    failed: Vec<i64>,
    pid: i64,
    accepted: bool,
) -> (change: StatsChange)
    requires
        all_count < i64::MAX,
        accepted_count < i64::MAX,
        solved.len() < usize::MAX,
    ensures
        change@ == stats_change(all_count, accepted_count, solved@, failed@, pid, accepted),
{
    let mut solved = solved;
    let mut failed = failed;
    let was_solved = position_of(&solved, pid).is_some();
    if accepted {
        if was_solved {
            StatsChange {
                all_count: all_count + 1,
                accepted_count: Some(accepted_count + 1),
                solved_problems: None,
                solved: None,
                failed_problems: None,
            }
        } else {
            solved.push(pid);
            let count = solved.len();
            let failed_change = match position_of(&failed, pid) {
                Some(i) => {
                    proof {
                        lemma_without_first(failed@, pid, i as int);
                    }
                    failed.remove(i);
                    Some(failed)
                },
                None => None,
            };
            StatsChange {
                all_count: all_count + 1,
                accepted_count: Some(accepted_count + 1),
                solved_problems: Some(solved),
                solved: Some(count),
                failed_problems: failed_change,
            }
        }
    } else {
        let failed_change = if !was_solved && position_of(&failed, pid).is_none() {
            failed.push(pid);
            Some(failed)
        } else {
            None
        };
        StatsChange {
            all_count: all_count + 1,
            accepted_count: None,
            solved_problems: None,
            solved: None,
            failed_problems: failed_change,
        }
    }
}

/// The columns that a change writes.
pub open spec fn change_fields(change: StatsChangeView) -> Map<Seq<char>, ValueView> {
    let m0 = Map::<Seq<char>, ValueView>::empty();
    let m1 = match change.accepted_count {
        Some(n) => m0.insert("accepted_count"@, ValueView::Int(n)),
        None => m0,
    };
    let m2 = m1.insert("all_count"@, ValueView::Int(change.all_count));
    let m3 = match change.failed_problems {
        Some(list) => m2.insert("failed_problems"@, ValueView::Json(list_text(list))),
        None => m2,
    };
    let m4 = match change.solved {
        Some(n) => m3.insert("solved"@, ValueView::Int(n as i64)),
        None => m3,
    };
    match change.solved_problems {
        Some(list) => m4.insert("solved_problems"@, ValueView::Json(list_text(list))),
        None => m4,
    }
}

/// The columns that a change writes, for an update of the user's row.
pub fn change_record(change: &StatsChange) -> (columns: Record)
    requires
        change.solved is Some ==> change.solved.unwrap() <= i64::MAX,
    ensures
        columns@ == change_fields(change@),
        columns.distinct(),
{
    let mut columns = Record::new();
    match change.accepted_count {
        Some(n) => columns.insert("accepted_count", Value::Int(n)),
        None => {},
    }
    columns.insert("all_count", Value::Int(change.all_count));
    match &change.failed_problems {
        Some(list) => {
            let text = int_list_json(list);
            columns.insert("failed_problems", Value::Json(text));
        },
        None => {},
    }
    match change.solved {
        Some(n) => columns.insert("solved", Value::Int(n as i64)),
        None => {},
    }
    match &change.solved_problems {
        Some(list) => {
            let text = int_list_json(list);
            columns.insert("solved_problems", Value::Json(text));
        },
        None => {},
    }
    columns
}

/// How a problem stands with a user: 1 where it is solved, 2 where it is
/// failed and not solved, 0 otherwise.
pub fn problem_mark(solved: &Vec<i64>, failed: &Vec<i64>, pid: i64) -> (mark: u8)
    ensures
        mark == if solved@.contains(pid) {
            1u8
        } else if failed@.contains(pid) {
            2u8
        } else {
            0u8
        },
{
    if position_of(solved, pid).is_some() {
        1
    } else if position_of(failed, pid).is_some() {
        2
    } else {
        0
    }
}

} // verus!
