//! Identity types and the pure parts of request authentication: the claims
//! carried in a token, the `Bearer` prefix convention, and extracting the
//! token from an authorization header value.

use vstd::prelude::*;
use vstd::string::StrSliceExecFns;
use vstd::string::StringExecFns;

verus! {

/// The authenticated requester, as handlers receive it.
#[derive(Debug, Clone)]
pub struct UserInfo {
    pub id: i32,
    pub nick: String,
}

/// A raw token string carried through the request pipeline.
#[derive(Debug, Clone)]
pub struct TokenStr {
    pub token: String,
}

/// The claims a session token carries.
#[derive(Debug)]
pub struct Claims {
    pub iss: String,
    pub sub: String,
    pub exp: usize,
    pub id: i32,
}

impl Claims {
    /// Claims for a user: the nick as subject, the issuer fixed.
    pub fn new(id: &i32, nick: &String, exp: usize) -> (r: Self)
        ensures
            r.id == *id,
            r.sub@ == nick@,
            r.exp == exp,
            r.iss@ == "wepo"@,
    {
        Self { iss: "wepo".to_owned(), sub: nick.clone(), id: *id, exp }
    }

    /// The requester identity these claims testify to.
    pub fn into_user_info(self) -> (r: UserInfo)
        ensures
            r.id == self.id,
            r.nick == self.sub,
    {
        UserInfo { id: self.id, nick: self.sub }
    }
}

/// Puts the transport prefix in front of a token.
pub fn add_token_prefix(token: String) -> (r: String)
    ensures
        r@ == "Bearer "@ + token@,
{
    let mut s = "Bearer ".to_owned();
    s.append(token.as_str());
    s
}

/// Does the authorization scheme prefix occur at position `i`?
pub open spec fn bearer_at(s: Seq<char>, i: int) -> bool {
    0 <= i && i + 7 <= s.len() && s.subrange(i, i + 7) == "Bearer "@
}

/// Whether the pattern occurs at a position of the string.
fn matches_at(s: &str, i: usize, pat: &str) -> (r: bool)
    requires
        i + pat@.len() <= s@.len(),
        i + pat@.len() <= usize::MAX,
    ensures
        r == (s@.subrange(i as int, i + pat@.len()) == pat@),
{
    let plen = pat.unicode_len();
    let mut j: usize = 0;
    while j < plen
        invariant
            j <= plen,
            plen == pat@.len(),
            i + plen <= s@.len(),
            i + plen <= usize::MAX,
            forall|x: int| 0 <= x < j ==> s@[i + x] == pat@[x],
        decreases plen - j,
    {
        if s.get_char(i + j) != pat.get_char(j) {
            proof {
                assert(s@.subrange(i as int, i + pat@.len())[j as int] != pat@[j as int]);
            }
            return false;
        }
        j += 1;
    }
    proof {
        assert(s@.subrange(i as int, i + pat@.len()) =~= pat@);
    }
    true
}

/// The token part of an authorization header value: what follows the last
/// occurrence of the scheme prefix, or the whole value when the prefix
/// never occurs. (A value without the prefix fails token validation later;
/// this function only slices.)
pub fn token_after_bearer(s: &str) -> (r: &str)
    ensures
        (forall|i: int| !bearer_at(s@, i)) ==> r@ == s@,
        (exists|i: int| bearer_at(s@, i)) ==> exists|j: int|
            bearer_at(s@, j) && r@ == s@.skip(j + 7) && (forall|i: int|
                bearer_at(s@, i) ==> i <= j),
{
    proof {
        reveal_strlit("Bearer ");
    }
    let len = s.unicode_len();
    if len < 7 {
        return s;
    }
    let mut best: Option<usize> = None;
    let mut i: usize = 0;
    while i <= len - 7
        invariant
            len == s@.len(),
            7 <= len,
            i <= len - 7 + 1,
            "Bearer "@.len() == 7,
            match best {
                Some(b) => bearer_at(s@, b as int) && (forall|x: int|
                    bearer_at(s@, x) && x < i ==> x <= b),
                None => forall|x: int| x < i ==> !bearer_at(s@, x),
            },
        decreases len - i,
    {
        if matches_at(s, i, "Bearer ") {
            best = Some(i);
        }
        i += 1;
    }
    proof {
        assert forall|x: int| bearer_at(s@, x) implies x < i by {
            assert(x + 7 <= len);
        }
    }
    match best {
        Some(b) => {
            let r = s.substring_char(b + 7, len);
            proof {
                assert(r@ =~= s@.skip(b + 7));
            }
            r
        }
        None => s,
    }
}

} // verus!
