//! Random strings.

use crate::text::chars_of;
use vstd::prelude::*;

verus! {

/// The characters that a random string is made of.
pub const CHARSET: &'static str =
    "ABCDEFGHIJKLMNOPQRSTUVWXYZ\n                            abcdefghijklmnopqrstuvwxyz\n                            0123456789)(*&^%$#@!~";

/// `rand::thread_rng().gen_range(0..n)`: a number below `n`, which must not
/// be 0. Which number it is depends on chance.
#[verifier::external_body]
fn random_below(n: usize) -> (r: usize)
    requires
        n > 0,
    ensures
        r < n,
{
    rand::Rng::gen_range(&mut rand::thread_rng(), 0..n)
}

/// A string of `len` characters, each taken at random from `CHARSET`.
pub fn random_string(len: usize) -> (s: String)
    ensures
        s@.len() == len,
        forall|i: int| 0 <= i < len ==> CHARSET@.contains(#[trigger] s@[i]),
{
    proof {
        reveal_strlit(
            "ABCDEFGHIJKLMNOPQRSTUVWXYZ\n                            abcdefghijklmnopqrstuvwxyz\n                            0123456789)(*&^%$#@!~",
        );
    }
    let charset = chars_of(CHARSET);
    let mut s = String::new();
    let mut i: usize = 0;
    while i < len
        invariant
            i <= len,
            charset@ == CHARSET@,
            charset@.len() > 0,
            s@.len() == i,
            forall|k: int| 0 <= k < i ==> CHARSET@.contains(#[trigger] s@[k]),
        decreases len - i,
    {
        let at = random_below(charset.len());
        s.push(charset[at]);
        i += 1;
    }
    s
}

/// One of `avatars`, taken at random.
pub fn random_avatar(avatars: &Vec<String>) -> (avatar: String)
    requires
        avatars.len() > 0,
    ensures
        exists|i: int| 0 <= i < avatars.len() && avatars@[i]@ == avatar@,
{
    let at = random_below(avatars.len());
    avatars[at].clone()
}

} // verus!
