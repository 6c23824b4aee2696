//! The score under which a row stands in a sorted-set view.
//!
//! Most kinds are scored by their identity. A problem is scored by the
//! number behind the first character of its index. A user is scored by the
//! number of solved problems, then by accuracy, then by identity. The
//! accuracy ratio of a user with submissions is computed by the caller and
//! handed in as an integer; a user without submissions has the full ratio.

use crate::schema::Kind;
use crate::text::{chars_of, parse_i64, read_i64};
use crate::value::{Record, ValueView};
use vstd::prelude::*;

verus! {

/// A record as contracts see it: its fields by name.
pub type Fields = Map<Seq<char>, ValueView>;

/// The weight of one solved problem in a user's score.
pub const SOLVED_WEIGHT: i64 = 10000000000;

/// The integer held by the field `name`, if it holds one.
pub open spec fn int_at(fields: Fields, name: Seq<char>) -> Option<i64> {
    if fields.contains_key(name) {
        match fields[name] {
            ValueView::Int(i) => Some(i),
            _ => None,
        }
    } else {
        None
    }
}

/// The integer held by the field `name`, if it holds one.
pub fn int_field(fields: &Record, name: &str) -> (r: Option<i64>)
    ensures
        r == int_at(fields@, name@),
{
    match fields.get(name) {
        Some(v) => v.as_i64(),
        None => None,
    }
}

/// The number behind the first character of the field `index`.
pub open spec fn index_number(fields: Fields) -> Option<i64> {
    if fields.contains_key("index"@) {
        match fields["index"@] {
            ValueView::Text(s) => if s.len() > 0 {
                parse_i64(s.skip(1))
            } else {
                None
            },
            _ => None,
        }
    } else {
        None
    }
}

/// The score of a row of any kind but `User`, from the fields that a view
/// carries. `None` where the fields do not hold what the score is made of.
pub open spec fn base_score(kind: Kind, fields: Fields) -> Option<i64> {
    match kind {
        Kind::User => None,
        Kind::Problem => index_number(fields),
        _ => int_at(fields, "id"@),
    }
}

/// The score of a row of any kind but `User`.
pub fn score_from_map(kind: Kind, fields: &Record) -> (r: Option<i64>)
    ensures
        r == base_score(kind, fields@),
{
    match kind {
        Kind::User => None,
        Kind::Problem => {
            match fields.get("index") {
                Some(v) => {
                    match v.as_str() {
                        Some(s) => {
                            let chars = chars_of(s);
                            if chars.len() > 0 {
                                read_i64(&chars, 1)
                            } else {
                                None
                            }
                        },
                        None => None,
                    }
                },
                None => None,
            }
        },
        _ => int_field(fields, "id"),
    }
}

/// The accepted and the total number of a user's submissions, of which the
/// accuracy ratio is made. `None` unless the fields hold every integer that
/// a user's score needs.
pub open spec fn user_terms(fields: Fields) -> Option<(i64, i64)> {
    if int_at(fields, "id"@) is Some && int_at(fields, "solved"@) is Some && int_at(
        fields,
        "all_count"@,
    ) is Some && int_at(fields, "accepted_count"@) is Some {
        Some((int_at(fields, "accepted_count"@).unwrap(), int_at(fields, "all_count"@).unwrap()))
    } else {
        None
    }
}

/// The accepted and the total number of a user's submissions.
pub fn user_terms_of(fields: &Record) -> (r: Option<(i64, i64)>)
    ensures
        r == user_terms(fields@),
{
    let id = int_field(fields, "id");
    let solved = int_field(fields, "solved");
    let all = int_field(fields, "all_count");
    let accepted = int_field(fields, "accepted_count");
    if id.is_some() && solved.is_some() && all.is_some() && accepted.is_some() {
        Some((accepted.unwrap(), all.unwrap()))
    } else {
        None
    }
}

/// A user's score as a number without bounds: solved problems weigh most,
/// then the accuracy ratio, then the identity.
pub open spec fn composite(id: i64, solved: i64, ratio: i64) -> int {
    solved * SOLVED_WEIGHT + ratio + id
}

/// The accuracy ratio of a user without submissions.
pub const FULL_RATIO: i64 = 1000000000;

/// The accuracy ratio that counts: the full ratio for a user without
/// submissions, else the ratio that the caller computed.
pub open spec fn ratio_of(all_count: i64, ratio: i64) -> i64 {
    if all_count == 0 {
        FULL_RATIO
    } else {
        ratio
    }
}

/// A user's score, where it fits into 64 bits.
pub open spec fn user_score(fields: Fields, ratio: i64) -> Option<i64> {
    if user_terms(fields) is Some {
        let c = composite(
            int_at(fields, "id"@).unwrap(),
            int_at(fields, "solved"@).unwrap(),
            ratio_of(int_at(fields, "all_count"@).unwrap(), ratio),
        );
        if i64::MIN <= c <= i64::MAX {
            Some(c as i64)
        } else {
            None
        }
    } else {
        None
    }
}

/// A user's score from identity, solved count and accuracy ratio, where it
/// fits into 64 bits.
pub fn checked_score(id: i64, solved: i64, ratio: i64) -> (r: Option<i64>)
    ensures
        r == if i64::MIN <= composite(id, solved, ratio) <= i64::MAX {
            Some(composite(id, solved, ratio) as i64)
        } else {
            None
        },
{
    let weighted: i128 = (solved as i128) * 10000000000;
    let wide: i128 = weighted + (ratio as i128) + (id as i128);
    if wide < (i64::MIN as i128) || wide > (i64::MAX as i128) {
        None
    } else {
        Some(wide as i64)
    }
}

/// A user's score from the fields of the row and the accuracy ratio.
pub fn user_score_of(fields: &Record, ratio: i64) -> (r: Option<i64>)
    ensures
        r == user_score(fields@, ratio),
{
    let terms = user_terms_of(fields);
    if terms.is_none() {
        return None;
    }
    let id = int_field(fields, "id");
    let solved = int_field(fields, "solved");
    let counted = if terms.unwrap().1 == 0 {
        FULL_RATIO
    } else {
        ratio
    };
    checked_score(id.unwrap(), solved.unwrap(), counted)
}

/// The score of a row of any kind; `accuracy` stands for the caller's
/// accuracy ratio.
pub open spec fn score_of(kind: Kind, fields: Fields, accuracy: spec_fn(i64, i64) -> i64) -> Option<
    i64,
> {
    match kind {
        Kind::User => match user_terms(fields) {
            Some((accepted, all)) => user_score(fields, accuracy(accepted, all)),
            None => None,
        },
        _ => base_score(kind, fields),
    }
}

} // verus!
