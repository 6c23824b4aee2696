//! Who may do what: the rules that the entry points hold their callers to.

use crate::constants::ROOT_USER;
use crate::contest::ENDED;
use crate::problem_index::{index_score, indexable};
use crate::text::chars_of;
use crate::value::Record;
use vstd::prelude::*;

verus! {

/// Why a team is not registered.
#[derive(Debug, Clone, Copy, PartialEq, Eq, Structural)]
pub enum RegisterError {
    /// The user has a team in the contest already.
    AlreadyRegistered,
    /// The contest is over.
    ContestEnded,
    /// The contest is closed and the password is wrong.
    WrongPassword,
}

/// Whether a user may register a team: not twice; and, unless the user is
/// the one who judges as administrator, not in a contest that is over, nor
/// in a closed contest without its password.
pub fn check_registration(
    registered: bool,
    uid: i64,
    status: i64,
    is_open: bool,
    password_matches: bool,
) -> (r: Result<(), RegisterError>)
    ensures
        r == if registered {
            Err::<(), RegisterError>(RegisterError::AlreadyRegistered)
        } else if uid != ROOT_USER && status == ENDED as i64 {
            Err::<(), RegisterError>(RegisterError::ContestEnded)
        } else if uid != ROOT_USER && !is_open && !password_matches {
            Err::<(), RegisterError>(RegisterError::WrongPassword)
        } else {
            Ok::<(), RegisterError>(())
        },
{
    if registered {
        return Err(RegisterError::AlreadyRegistered);
    }
    if uid != ROOT_USER {
        if status == 2 {
            return Err(RegisterError::ContestEnded);
        }
        if !is_open && !password_matches {
            return Err(RegisterError::WrongPassword);
        }
    }
    Ok(())
}

/// Whether a user may enter a contest: the administrator may, anyone may
/// enter an open contest, and a registered user may enter a closed one.
pub fn allowed_enter_of_user(uid: i64, is_open: bool, registered: bool) -> (b: bool)
    ensures
        b == (uid == ROOT_USER || is_open || registered),
{
    uid == ROOT_USER || is_open || registered
}

/// Whether a contest found at start-up is given a timer: one whose status
/// is known and is not ended.
pub fn needs_timer(status: Option<i64>) -> (b: bool)
    ensures
        b == (status is Some && status.unwrap() != ENDED as i64),
{
    match status {
        Some(s) => s != 2,
        None => false,
    }
}

/// Whether an update of a contest changes its schedule: whether it writes
/// `begin` or `length`.
pub fn reschedules(columns: &Record) -> (b: bool)
    ensures
        b == (columns@.contains_key("length"@) || columns@.contains_key("begin"@)),
{
    columns.contains_key("length") || columns.contains_key("begin")
}

/// Why a new contest is turned down.
#[derive(Debug, Clone, Copy, PartialEq, Eq, Structural)]
pub enum ContestError {
    /// The length is not positive.
    NoLength,
    /// The contest is closed and has no password.
    NoPassword,
}

/// Whether a new contest is well made: it lasts, and a closed one has a
/// password.
pub fn check_new_contest(length: i32, is_open: bool, password: &str) -> (r: Result<(), ContestError>)
    ensures
        r == if length <= 0 {
            Err::<(), ContestError>(ContestError::NoLength)
        } else if !is_open && password@.len() == 0 {
            Err::<(), ContestError>(ContestError::NoPassword)
        } else {
            Ok::<(), ContestError>(())
        },
{
    if length <= 0 {
        return Err(ContestError::NoLength);
    }
    if !is_open && chars_of(password).len() == 0 {
        return Err(ContestError::NoPassword);
    }
    Ok(())
}

/// Why a problem is not changed or not made.
#[derive(Debug, Clone, Copy, PartialEq, Eq, Structural)]
pub enum ProblemError {
    /// The index and the identity of a problem stay what they are.
    IndexFixed,
    /// Whether a problem is open stays what it is.
    OpennessFixed,
    /// The index has no number.
    BadIndex,
    /// The letter of the index does not say what the problem is.
    WrongLetter,
    /// The index is taken.
    IndexTaken,
}

/// Whether an update of a problem is taken: it may write neither the
/// index, nor the identity, nor whether the problem is open.
pub fn check_problem_update(columns: &Record) -> (r: Result<(), ProblemError>)
    ensures
        r == if columns@.contains_key("index"@) || columns@.contains_key("id"@) {
            Err::<(), ProblemError>(ProblemError::IndexFixed)
        } else if columns@.contains_key("is_open"@) {
            Err::<(), ProblemError>(ProblemError::OpennessFixed)
        } else {
            Ok::<(), ProblemError>(())
        },
{
    if columns.contains_key("index") || columns.contains_key("id") {
        return Err(ProblemError::IndexFixed);
    }
    if columns.contains_key("is_open") {
        return Err(ProblemError::OpennessFixed);
    }
    Ok(())
}

/// Whether a new problem is taken: its index has a number, begins with
/// `P` exactly if the problem is open, and is not taken.
pub fn check_new_problem(index: &str, is_open: bool, taken: bool) -> (r: Result<(), ProblemError>)
    requires
        indexable(index@),
    ensures
        r == if index_score(index@) == -1 {
            Err::<(), ProblemError>(ProblemError::BadIndex)
        } else if is_open != (index@[0] == 'P') {
            Err::<(), ProblemError>(ProblemError::WrongLetter)
        } else if taken {
            Err::<(), ProblemError>(ProblemError::IndexTaken)
        } else {
            Ok::<(), ProblemError>(())
        },
{
    if !crate::problem_index::is_valid_index(index) {
        return Err(ProblemError::BadIndex);
    }
    if is_open != crate::problem_index::is_open(index) {
        return Err(ProblemError::WrongLetter);
    }
    if taken {
        return Err(ProblemError::IndexTaken);
    }
    Ok(())
}

/// Whether a listing is read from a sorted-set view: it is where it has no
/// filter; with a filter it is read from the relational store.
pub fn reads_view(filter: &Record) -> (from_view: bool)
    ensures
        from_view == (filter.entries().len() == 0),
{
    filter.is_empty()
}

/// Whether the members of a view are read by falling score. Views scoped
/// by two keys are read by falling score unless a falling order is asked
/// for; all others by falling score exactly if it is asked for.
pub fn reads_reversed(desc: Option<bool>, two_deps: bool) -> (reverse: bool)
    ensures
        reverse == if two_deps {
            !(desc == Some(true))
        } else {
            desc == Some(true)
        },
{
    let wanted = match desc {
        Some(d) => d,
        None => false,
    };
    if two_deps {
        !wanted
    } else {
        wanted
    }
}

/// What a caller may see of a contest submission.
#[derive(Debug, Clone, Copy, PartialEq, Eq, Structural)]
pub enum Sight {
    /// Nothing.
    Hidden,
    /// Everything but the results of the cases.
    Summary,
    /// Everything.
    Full,
}

/// What a caller may see of a contest submission: the own team's, an open
/// one, and, as administrator, any; the results of the cases only once
/// the contest is over, or as administrator.
pub fn sight_of_submission(own: bool, uid: i64, is_open: bool, contest_status: i16) -> (sight: Sight)
    ensures
        sight == if !(own || uid == ROOT_USER || is_open) {
            Sight::Hidden
        } else if uid != ROOT_USER && contest_status != ENDED {
            Sight::Summary
        } else {
            Sight::Full
        },
{
    if !(own || uid == ROOT_USER || is_open) {
        Sight::Hidden
    } else if uid != ROOT_USER && contest_status != ENDED {
        Sight::Summary
    } else {
        Sight::Full
    }
}

/// Whether a caller may read a practice submission: an open one anyone
/// may, a closed one its author and the super administrator.
pub fn may_read_submission(is_open: bool, caller: Option<(i64, bool)>, author: i64) -> (b: bool)
    ensures
        b == (is_open || (caller is Some && (caller.unwrap().1 || caller.unwrap().0 == author))),
{
    if is_open {
        return true;
    }
    match caller {
        Some((id, super_admin)) => super_admin || id == author,
        None => false,
    }
}

/// Whether a caller may change or delete a post: its author and the
/// administrator may.
pub fn may_change_post(caller: i64, author: i64) -> (b: bool)
    ensures
        b == (caller == ROOT_USER || caller == author),
{
    caller == ROOT_USER || caller == author
}

/// Whether the problems of a contest are shown to a caller: not before the
/// contest has begun, unless the caller is super administrator.
pub fn may_see_problems(super_admin: bool, contest_status: Option<i64>) -> (b: bool)
    ensures
        b == (super_admin || !(contest_status == Some(0i64))),
{
    if super_admin {
        return true;
    }
    match contest_status {
        Some(s) => s != 0,
        None => true,
    }
}

} // verus!
