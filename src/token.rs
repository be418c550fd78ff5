//! Credential classification and the authentication header it selects.

use vstd::prelude::*;
use vstd::string::*;

use crate::text::{alphanumeric, chars_of, has_prefix, is_alphanumeric, starts_with};

verus! {

/// How a credential is presented to the service.
#[derive(Clone, Copy, Debug, PartialEq, Eq, Structural)]
pub enum TokenKind {
    /// A JSON Web Token, sent as `Authorization: Bearer <token>`.
    Jwt,
    /// An opaque API key, sent verbatim in its own header.
    ApiKey,
}

/// One HTTP header, name and value.
#[derive(Debug, PartialEq, Eq)]
pub struct Header {
    pub name: String,
    pub value: String,
}

/// The optional bearer marker in front of a credential.
pub open spec fn bearer_marker() -> Seq<char> {
    seq!['B', 'e', 'a', 'r', 'e', 'r', ' ']
}

/// The credential with one leading bearer marker removed, if it has one.
pub open spec fn stripped(s: Seq<char>) -> Seq<char> {
    if has_prefix(s, bearer_marker()) {
        s.subrange(7, s.len() as int)
    } else {
        s
    }
}

/// A character allowed inside a segment of a token.
pub open spec fn segment_char(c: char) -> bool {
    c != '.' && (alphanumeric(c) || c == '-' || c == '_')
}

/// `s` splits on `.` into exactly three non-empty segments made of
/// alphanumeric characters, `-` and `_`.
pub open spec fn jwt_shaped(s: Seq<char>) -> bool {
    exists|i: int, j: int|
        0 < i && i + 1 < j && j + 1 < s.len() && s[i] == '.' && s[j] == '.' && forall|k: int|
            0 <= k < s.len() && k != i && k != j ==> segment_char(#[trigger] s[k])
}

/// The kind of a credential, after its bearer marker is removed.
pub open spec fn token_kind(s: Seq<char>) -> TokenKind {
    if jwt_shaped(stripped(s)) {
        TokenKind::Jwt
    } else {
        TokenKind::ApiKey
    }
}

/// The authentication header for a credential.
pub open spec fn auth_header_spec(s: Seq<char>) -> (Seq<char>, Seq<char>) {
    match token_kind(s) {
        TokenKind::Jwt => (authorization_name(), bearer_marker() + stripped(s)),
        TokenKind::ApiKey => (api_key_name(), stripped(s)),
    }
}

pub open spec fn authorization_name() -> Seq<char> {
    seq!['a', 'u', 't', 'h', 'o', 'r', 'i', 'z', 'a', 't', 'i', 'o', 'n']
}

pub open spec fn api_key_name() -> Seq<char> {
    seq![
        'x', '-', 't', 'o', 'k', 'e', 'n', '-', 'a', 'u', 't', 'h', 'o', 'r', 'i', 'z', 'a', 't',
        'i', 'o', 'n',
    ]
}

/// Removes the bearer marker (if present) from a credential.
pub fn strip_bearer_prefix(token: &str) -> (r: &str)
    ensures
        r@ == stripped(token@),
{
    let cs = chars_of(token);
    proof {
        reveal_strlit("Bearer ");
    }
    assert("Bearer "@ =~= bearer_marker());
    if starts_with(&cs, "Bearer ") {
        token.substring_char(7, cs.len())
    } else {
        token
    }
}

/// Whether a credential looks like a JSON Web Token: three non-empty
/// `.`-separated segments of alphanumeric characters, `-` and `_`.
pub fn is_jwt_token(token: &str) -> (r: bool)
    ensures
        r == jwt_shaped(token@),
{
    let s = chars_of(token);
    let ghost v = s@;
    let n = s.len();
    let mut dots: usize = 0;
    let mut d1: usize = 0;
    let mut d2: usize = 0;
    let mut seg_len: usize = 0;
    let mut i: usize = 0;
    while i < n
        invariant
            n == v.len(),
            v == s@,
            v == token@,
            i <= n,
            dots <= 2,
            dots >= 1 ==> d1 < i && v[d1 as int] == '.',
            dots >= 1 ==> d1 > 0,
            dots == 2 ==> d1 + 1 < d2 && d2 < i && v[d2 as int] == '.',
            dots == 0 ==> seg_len == i,
            dots == 1 ==> seg_len == i - d1 - 1,
            dots == 2 ==> seg_len == i - d2 - 1,
            forall|k: int|
                0 <= k < i && !(dots >= 1 && k == d1) && !(dots == 2 && k == d2) ==> segment_char(
                    #[trigger] v[k],
                ),
        decreases n - i,
    {
        let c = s[i];
        if c == '.' {
            if seg_len == 0 || dots == 2 {
                proof {
                    if jwt_shaped(v) {
                        let (a, b) = choose|a: int, b: int|
                            0 < a && a + 1 < b && b + 1 < v.len() && v[a] == '.' && v[b] == '.'
                                && forall|k: int|
                                0 <= k < v.len() && k != a && k != b ==> segment_char(
                                    #[trigger] v[k],
                                );
                        assert(!segment_char(v[i as int]));
                        assert(!segment_char(v[d1 as int]));
                        assert(!segment_char(v[d2 as int]));
                    }
                }
                return false;
            }
            if dots == 0 {
                d1 = i;
            } else {
                d2 = i;
            }
            dots = dots + 1;
            seg_len = 0;
        } else if is_alphanumeric(c) || c == '-' || c == '_' {
            seg_len = seg_len + 1;
        } else {
            proof {
                if jwt_shaped(v) {
                    let (a, b) = choose|a: int, b: int|
                        0 < a && a + 1 < b && b + 1 < v.len() && v[a] == '.' && v[b] == '.'
                            && forall|k: int|
                            0 <= k < v.len() && k != a && k != b ==> segment_char(#[trigger] v[k]);
                    assert(segment_char(v[i as int]));
                }
            }
            return false;
        }
        i = i + 1;
    }
    if dots == 2 && seg_len > 0 {
        assert(0 < d1 && d1 + 1 < d2 && d2 + 1 < v.len());
        assert(jwt_shaped(v));
        true
    } else {
        proof {
            if jwt_shaped(v) {
                let (a, b) = choose|a: int, b: int|
                    0 < a && a + 1 < b && b + 1 < v.len() && v[a] == '.' && v[b] == '.' && forall|
                        k: int,
                    |
                        0 <= k < v.len() && k != a && k != b ==> segment_char(#[trigger] v[k]);
                assert(!segment_char(v[a]));
                assert(!segment_char(v[b]));
                if dots == 2 {
                    assert(!segment_char(v[d2 as int]));
                }
            }
        }
        false
    }
}

/// Classifies a credential, ignoring a leading bearer marker.
pub fn classify_token(token: &str) -> (r: TokenKind)
    ensures
        r == token_kind(token@),
{
    if is_jwt_token(strip_bearer_prefix(token)) {
        TokenKind::Jwt
    } else {
        TokenKind::ApiKey
    }
}

/// The authentication header for a credential: `Authorization: Bearer <token>`
/// for a JSON Web Token, `x-token-authorization: <key>` otherwise, with any
/// bearer marker of the input removed first.
pub fn auth_header(token: &str) -> (r: Header)
    ensures
        (r.name@, r.value@) == auth_header_spec(token@),
{
    let clean = strip_bearer_prefix(token);
    proof {
        reveal_strlit("Bearer ");
        reveal_strlit("authorization");
        reveal_strlit("x-token-authorization");
    }
    if is_jwt_token(clean) {
        let value = String::from_str("Bearer ").concat(clean);
        Header { name: String::from_str("authorization"), value }
    } else {
        Header { name: String::from_str("x-token-authorization"), value: String::from_str(clean) }
    }
}

/// A credential behind a bearer marker is classified as the credential
/// alone, and the header re-uses it without the marker.
pub proof fn lemma_bearer_marker_ignored(s: Seq<char>)
    ensures
        stripped(bearer_marker() + s) == s,
        token_kind(bearer_marker() + s) == (if jwt_shaped(s) {
            TokenKind::Jwt
        } else {
            TokenKind::ApiKey
        }),
        auth_header_spec(bearer_marker() + s).1 == (if jwt_shaped(s) {
            bearer_marker() + s
        } else {
            s
        }),
{
    let t = bearer_marker() + s;
    assert(t.subrange(0, 7) =~= bearer_marker());
    assert(t.subrange(7, t.len() as int) =~= s);
}

/// A credential without a bearer marker is a JSON Web Token exactly when it
/// has the three-segment shape, and an API key otherwise.
pub proof fn lemma_unmarked_kind(s: Seq<char>)
    requires
        !has_prefix(s, bearer_marker()),
    ensures
        token_kind(s) == (if jwt_shaped(s) {
            TokenKind::Jwt
        } else {
            TokenKind::ApiKey
        }),
        auth_header_spec(s).1 == (if jwt_shaped(s) {
            bearer_marker() + s
        } else {
            s
        }),
{
}

} // verus!
