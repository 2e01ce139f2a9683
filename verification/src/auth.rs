//! HTTP Basic authentication: when a password is configured, every request but
//! the readiness probe must carry it as `Authorization: Basic <base64(user:pass)>`.

use vstd::prelude::*;
use vstd::string::*;
use vstd::utf8::*;

use base64::Engine as _;

use crate::text::{chars_of, str_eq, str_from_utf8, to_string};

verus! {

/// What the standard base64 engine (standard alphabet, padding required)
/// decodes `input` to, or none when it rejects the input.
pub uninterp spec fn base64_standard_decode(input: Seq<u8>) -> Option<Seq<u8>>;

/// `base64::engine::general_purpose::STANDARD.decode`: the contract claims only
/// that the result is the engine's decoding of the given bytes (a function of
/// those bytes alone), with a decode error mapped to none. What that decoding is
/// for given bytes is left unsaid.
#[verifier::external_body]
fn base64_decode(input: &[u8]) -> (r: Option<Vec<u8>>)
    ensures
        match r {
            Some(v) => base64_standard_decode(input@) == Some(v@),
            None => base64_standard_decode(input@) is None,
        },
{
    base64::engine::general_purpose::STANDARD.decode(input).ok()
}

/// The text after the first `:` (the password of `user:password`), or the
/// empty text when there is no `:`.
pub open spec fn after_first_colon(s: Seq<char>) -> Seq<char> {
    if exists|i: int| 0 <= i < s.len() && s[i] == ':' {
        let i = choose|i: int|
            0 <= i < s.len() && s[i] == ':' && forall|j: int| 0 <= j < i ==> s[j] != ':';
        s.subrange(i + 1, s.len() as int)
    } else {
        Seq::empty()
    }
}

/// The password carried by decoded credentials: they must be UTF-8; the
/// password is what follows the first `:`.
pub open spec fn password_of_credentials(decoded: Option<Seq<u8>>) -> Option<Seq<char>> {
    match decoded {
        Some(d) => if valid_utf8(d) {
            Some(after_first_colon(decode_utf8(d)))
        } else {
            None
        },
        None => None,
    }
}

/// The `Basic ` scheme prefix.
pub open spec fn basic_prefix() -> Seq<char> {
    seq!['B', 'a', 's', 'i', 'c', ' ']
}

/// The password an `Authorization` header value supplies, if any.
pub open spec fn supplied_password(h: Seq<char>) -> Option<Seq<char>> {
    if h.len() >= 6 && h.subrange(0, 6) == basic_prefix() {
        password_of_credentials(
            base64_standard_decode(encode_utf8(h.subrange(6, h.len() as int))),
        )
    } else {
        None
    }
}

/// Whether a request may pass: always without a configured password, always for
/// the readiness probe, else only with the configured password.
pub open spec fn auth_allows_spec(
    expected: Option<Seq<char>>,
    path: Seq<char>,
    authorization: Option<Seq<char>>,
) -> bool {
    match expected {
        None => true,
        Some(p) => path == "/healthz"@ || (authorization matches Some(h) && supplied_password(h)
            == Some(p)),
    }
}

fn first_colon(cs: &Vec<char>) -> (r: Option<usize>)
    ensures
        match r {
            Some(i) => i < cs@.len() && cs@[i as int] == ':' && forall|j: int|
                0 <= j < i ==> cs@[j] != ':',
            None => forall|j: int| 0 <= j < cs@.len() ==> cs@[j] != ':',
        },
{
    let mut i: usize = 0;
    while i < cs.len()
        invariant
            i <= cs@.len(),
            forall|j: int| 0 <= j < i ==> cs@[j] != ':',
        decreases cs.len() - i,
    {
        if cs[i] == ':' {
            return Some(i);
        }
        i = i + 1;
    }
    None
}

/// The password carried by decoded credentials (see `password_of_credentials`).
pub fn password_from_credentials(decoded: Option<Vec<u8>>) -> (r: Option<String>)
    ensures
        match r {
            Some(p) => password_of_credentials(
                match decoded {
                    Some(d) => Some(d@),
                    None => None,
                },
            ) == Some(p@),
            None => password_of_credentials(
                match decoded {
                    Some(d) => Some(d@),
                    None => None,
                },
            ) is None,
        },
{
    match decoded {
        None => None,
        Some(d) => match str_from_utf8(d.as_slice()) {
            None => None,
            Some(s) => {
                let cs = chars_of(s);
                let len = cs.len();
                match first_colon(&cs) {
                    Some(i) => {
                        proof {
                            let k = choose|k: int|
                                0 <= k < s@.len() && s@[k] == ':' && forall|j: int|
                                    0 <= j < k ==> s@[j] != ':';
                            if k < i {
                            } else if k > i {
                                assert(s@[i as int] == ':');
                            }
                        }
                        Some(to_string(s.substring_char(i + 1, len)))
                    },
                    None => Some(String::new()),
                }
            },
        },
    }
}

/// Decides whether a request may pass the Basic authentication gate.
/// `authorization` is the `Authorization` header value when it is visible ASCII.
pub fn basic_auth_allows(expected: Option<&str>, path: &str, authorization: Option<&str>) -> (r:
    bool)
    ensures
        r == auth_allows_spec(
            match expected {
                Some(p) => Some(p@),
                None => None,
            },
            path@,
            match authorization {
                Some(h) => Some(h@),
                None => None,
            },
        ),
        expected is None ==> r,
        path@ == "/healthz"@ ==> r,
        expected is Some && path@ != "/healthz"@ && authorization is None ==> !r,
{
    let expected = match expected {
        None => return true,
        Some(p) => p,
    };
    if str_eq(path, "/healthz") {
        return true;
    }
    let h = match authorization {
        None => return false,
        Some(h) => h,
    };
    let n = h.unicode_len();
    if n < 6 {
        return false;
    }
    let head = h.substring_char(0, 6);
    if !str_eq(head, "Basic ") {
        proof {
            reveal_strlit("Basic ");
            assert("Basic "@ =~= basic_prefix());
        }
        return false;
    }
    proof {
        reveal_strlit("Basic ");
        assert("Basic "@ =~= basic_prefix());
    }
    let rest = h.substring_char(6, n);
    let decoded = base64_decode(rest.as_bytes());
    match password_from_credentials(decoded) {
        None => false,
        Some(p) => str_eq(p.as_str(), expected),
    }
}

} // verus!
