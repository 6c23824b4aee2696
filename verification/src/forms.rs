//! The forms that callers fill in, and what is asked of a user name and of
//! a password.

use crate::text::chars_of;
use vstd::prelude::*;

verus! {

/// The form of a registration.
#[derive(Debug)]
pub struct RegisterForm {
    pub username: String,
    pub password: String,
    pub email: String,
    pub school: String,
}

/// The form of a login.
#[derive(Debug)]
pub struct LoginForm {
    pub username_or_email: String,
    pub password: String,
}

/// An address to be checked.
#[derive(Debug)]
pub struct EmailCheck {
    pub email: String,
}

/// A password to be checked.
#[derive(Debug)]
pub struct PasswordCheck {
    pub password: String,
}

/// Why a user name or a password is turned down.
#[derive(Debug, Clone, Copy, PartialEq, Eq, Structural)]
pub enum FormError {
    /// It holds white space.
    WhiteSpace,
    /// It holds a character that is not ASCII.
    NotAscii,
}

/// Whether a character has the Unicode property `White_Space`: the
/// controls from tab to carriage return, the space, the next-line control,
/// the no-break spaces, the Ogham space mark, the spaces from en quad to
/// hair space, the line and the paragraph separator, the medium
/// mathematical space and the ideographic space.
pub open spec fn white_space(c: char) -> bool {
    let code = c as u32;
    ||| 0x09 <= code <= 0x0D
    ||| code == 0x20
    ||| code == 0x85
    ||| code == 0xA0
    ||| code == 0x1680
    ||| 0x2000 <= code <= 0x200A
    ||| code == 0x2028
    ||| code == 0x2029
    ||| code == 0x202F
    ||| code == 0x205F
    ||| code == 0x3000
}

/// `char::is_whitespace`: whether a character has the Unicode property
/// `White_Space`, which `white_space` spells out.
#[verifier::external_body]
fn is_white_space(c: char) -> (b: bool)
    ensures
        b == white_space(c),
{
    c.is_whitespace()
}

/// Whether some character of `s` is white space.
pub open spec fn has_white_space(s: Seq<char>) -> bool {
    exists|i: int| 0 <= i < s.len() && white_space(#[trigger] s[i])
}

/// Whether some character of `s` is not ASCII.
pub open spec fn has_non_ascii(s: Seq<char>) -> bool {
    exists|i: int| 0 <= i < s.len() && (#[trigger] s[i] as u32) >= 128
}

/// The code of a failure.
pub fn code_of(e: FormError) -> (code: &'static str)
    ensures
        code@ == match e {
            FormError::WhiteSpace => "white_space"@,
            FormError::NotAscii => "ascii"@,
        },
{
    match e {
        FormError::WhiteSpace => "white_space",
        FormError::NotAscii => "ascii",
    }
}

fn contains_white_space(chars: &Vec<char>) -> (b: bool)
    ensures
        b == has_white_space(chars@),
{
    let mut i: usize = 0;
    while i < chars.len()
        invariant
            i <= chars.len(),
            forall|k: int| 0 <= k < i ==> !white_space(#[trigger] chars@[k]),
        decreases chars.len() - i,
    {
        if is_white_space(chars[i]) {
            return true;
        }
        i += 1;
    }
    false
}

/// A user name must hold no white space.
pub fn validate_username(s: &str) -> (r: Result<(), FormError>)
    ensures
        r == if has_white_space(s@) {
            Err::<(), FormError>(FormError::WhiteSpace)
        } else {
            Ok::<(), FormError>(())
        },
{
    let chars = chars_of(s);
    if contains_white_space(&chars) {
        Err(FormError::WhiteSpace)
    } else {
        Ok(())
    }
}

/// A password must hold no white space, and nothing but ASCII.
pub fn validate_password(s: &str) -> (r: Result<(), FormError>)
    ensures
        r == if has_white_space(s@) {
            Err::<(), FormError>(FormError::WhiteSpace)
        } else if has_non_ascii(s@) {
            Err::<(), FormError>(FormError::NotAscii)
        } else {
            Ok::<(), FormError>(())
        },
{
    let chars = chars_of(s);
    if contains_white_space(&chars) {
        return Err(FormError::WhiteSpace);
    }
    let mut i: usize = 0;
    while i < chars.len()
        invariant
            i <= chars.len(),
            chars@ == s@,
            !has_white_space(s@),
            forall|k: int| 0 <= k < i ==> (#[trigger] chars@[k] as u32) < 128,
        decreases chars.len() - i,
    {
        if (chars[i] as u32) >= 128 {
            assert((s@[i as int] as u32) >= 128);
            return Err(FormError::NotAscii);
        }
        i += 1;
    }
    Ok(())
}

} // verus!
