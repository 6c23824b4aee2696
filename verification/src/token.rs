//! The identity that a request carries.

use crate::constants::{ADMIN, SUPER_ADMIN};
use crate::text::same_text;
use vstd::prelude::*;

verus! {

/// The claims of a caller's token.
#[derive(Debug, Clone)]
pub struct UserToken {
    /// When the token was issued, in seconds.
    pub iat: i64,
    /// When the token runs out, in seconds.
    pub exp: i64,
    pub id: i64,
    pub user: String,
    pub role: String,
    pub privilege: u64,
}

impl UserToken {
    /// The claims of a token issued at `now` that is valid for `period`
    /// seconds.
    pub fn from(id: i64, user: String, role: String, now: i64, period: i64) -> (t: Self)
        requires
            i64::MIN <= now + period <= i64::MAX,
        ensures
            t.iat == now,
            t.exp == now + period,
            t.id == id,
            t.user == user,
            t.role == role,
            t.privilege == 0,
    {
        UserToken { iat: now, exp: now + period, id, user, role, privilege: 0 }
    }

    /// Whether the caller administers: whether the role is `admin` or
    /// `super_admin`.
    pub fn is_admin(&self) -> (b: bool)
        ensures
            b == (self.role@ == ADMIN@ || self.role@ == SUPER_ADMIN@),
    {
        same_text(self.role.as_str(), ADMIN) || same_text(self.role.as_str(), SUPER_ADMIN)
    }

    /// Whether the role is `super_admin`.
    pub fn is_super_admin(&self) -> (b: bool)
        ensures
            b == (self.role@ == SUPER_ADMIN@),
    {
        same_text(self.role.as_str(), SUPER_ADMIN)
    }
}

/// Whether an `Authorization` header begins with `bearer` or `Bearer`,
/// behind which the token stands.
pub open spec fn bearer_prefixed(header: Seq<char>) -> bool {
    header.len() >= 6 && (header.take(6) == "bearer"@ || header.take(6) == "Bearer"@)
}

/// Whether an `Authorization` header begins with `bearer` or `Bearer`.
pub fn has_bearer(header: &str) -> (b: bool)
    ensures
        b == bearer_prefixed(header@),
{
    let chars = crate::text::chars_of(header);
    proof {
        reveal_strlit("bearer");
        reveal_strlit("Bearer");
    }
    if chars.len() < 6 {
        return false;
    }
    let rest_matches = chars[1] == 'e' && chars[2] == 'a' && chars[3] == 'r' && chars[4] == 'e'
        && chars[5] == 'r';
    let first_matches = chars[0] == 'b' || chars[0] == 'B';
    proof {
        let head = header@.take(6);
        assert(head.len() == 6);
        assert(forall|i: int| 0 <= i < 6 ==> head[i] == chars@[i]);
        if rest_matches && chars[0] == 'b' {
            assert(head =~= "bearer"@);
        }
        if rest_matches && chars[0] == 'B' {
            assert(head =~= "Bearer"@);
        }
        if head == "bearer"@ {
            assert(head[0] == 'b' && head[1] == 'e' && head[2] == 'a' && head[3] == 'r' && head[4]
                == 'e' && head[5] == 'r');
        }
        if head == "Bearer"@ {
            assert(head[0] == 'B' && head[1] == 'e' && head[2] == 'a' && head[3] == 'r' && head[4]
                == 'e' && head[5] == 'r');
        }
    }
    rest_matches && first_matches
}

} // verus!
