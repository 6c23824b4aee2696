//! The human-readable index of a problem: a letter, `P` for an open
//! problem, and a number.

use crate::text::{chars_of, int_digits, parse_i64, push_i64, read_i64};
use vstd::prelude::*;

verus! {

/// The number that the first problem of either sort comes after.
pub const FIRST_INDEX_BASE: i64 = 999;

/// Whether an index has a first character of one byte, behind which its
/// number can be looked for.
pub open spec fn indexable(index: Seq<char>) -> bool {
    index.len() > 0 && (index[0] as u32) < 128
}

/// Whether an index has a first character of one byte.
pub fn is_indexable(index: &str) -> (b: bool)
    ensures
        b == indexable(index@),
{
    let chars = chars_of(index);
    chars.len() > 0 && (chars[0] as u32) < 128
}

/// The number of an index: what stands behind its first character, read
/// as a decimal; -1 where that is no number.
pub open spec fn index_score(index: Seq<char>) -> i64 {
    match parse_i64(index.skip(1)) {
        Some(x) => x,
        None => -1i64,
    }
}

/// The number of an index; -1 where it has none.
pub fn score_of_index(index: &str) -> (score: i64)
    requires
        indexable(index@),
    ensures
        score == index_score(index@),
{
    let chars = chars_of(index);
    match read_i64(&chars, 1) {
        Some(x) => x,
        None => -1,
    }
}

/// Whether an index has a number other than -1.
pub fn is_valid_index(index: &str) -> (b: bool)
    requires
        indexable(index@),
    ensures
        b == (index_score(index@) != -1),
{
    score_of_index(index) != -1
}

/// Whether an index is that of an open problem: whether it begins with `P`.
pub fn is_open(index: &str) -> (b: bool)
    requires
        indexable(index@),
    ensures
        b == (index@[0] == 'P'),
{
    let chars = chars_of(index);
    chars[0] == 'P'
}

/// The letter of the open or of the closed problems.
pub open spec fn letter(is_open: bool) -> char {
    if is_open {
        'P'
    } else {
        'U'
    }
}

/// The index that stands in for the last one where none is remembered: the
/// letter of the sort, and the number of the problem with the highest
/// score, or 999 where there is no problem yet.
pub fn last_index(is_open: bool, highest: Option<i64>) -> (index: String)
    ensures
        index@ == seq![letter(is_open)] + int_digits(
            match highest {
                Some(score) => score as int,
                None => FIRST_INDEX_BASE as int,
            },
        ),
{
    let score = match highest {
        Some(score) => score,
        None => FIRST_INDEX_BASE,
    };
    let mut index = String::new();
    if is_open {
        index.push('P');
    } else {
        index.push('U');
    }
    push_i64(&mut index, score);
    index
}

/// The index that follows `last`: its first character, and its number plus
/// one.
pub fn next_index(last: &str) -> (index: String)
    requires
        indexable(last@),
        index_score(last@) < i64::MAX,
    ensures
        index@ == seq![last@[0]] + int_digits(index_score(last@) + 1),
{
    let chars = chars_of(last);
    let score = score_of_index(last);
    let mut index = String::new();
    index.push(chars[0]);
    push_i64(&mut index, score + 1);
    index
}

} // verus!
