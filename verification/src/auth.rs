//! The authentication stage of the request pipeline.
//!
//! A caller proves itself with the `Authorization` header.  The candidate
//! credential is the part of that header after the last colon, trimmed, then
//! after the last space, trimmed again; this tolerates both `Bearer:<key>`
//! and `Bearer <key>` shaped headers.  A missing header yields an empty
//! candidate.  A request is allowed when its path is the public path `/`, or
//! when the candidate equals the configured allowed credential, byte for
//! byte.  An empty configured credential therefore disables enforcement:
//! requests without a header carry the empty candidate and pass.
//!
//! Trimming removes ASCII whitespace bytes.  Header values are restricted to
//! visible ASCII by the transport, so this agrees with character-level
//! trimming on every value a server hands in.

use vstd::prelude::*;
use vstd::string::StringSliceAdditionalSpecFns;
use crate::http::Request;

verus! {

/// The byte that separates an authorization scheme from its parameter in
/// `Bearer:<key>` shaped headers.
pub const COLON: u8 = 58;

/// The byte that separates an authorization scheme from its parameter in
/// `Bearer <key>` shaped headers.
pub const SPACE: u8 = 32;

/// An ASCII whitespace byte: space, tab, line feed, vertical tab, form feed
/// or carriage return.
pub open spec fn is_ws(b: u8) -> bool {
    b == 32 || (9 <= b && b <= 13)
}

/// The byte string without its leading whitespace.
pub open spec fn trim_start(s: Seq<u8>) -> Seq<u8>
    decreases s.len(),
{
    if s.len() > 0 && is_ws(s[0]) {
        trim_start(s.drop_first())
    } else {
        s
    }
}

/// The byte string without its trailing whitespace.
pub open spec fn trim_end(s: Seq<u8>) -> Seq<u8>
    decreases s.len(),
{
    if s.len() > 0 && is_ws(s.last()) {
        trim_end(s.drop_last())
    } else {
        s
    }
}

/// The byte string without leading or trailing whitespace.
pub open spec fn trimmed(s: Seq<u8>) -> Seq<u8> {
    trim_end(trim_start(s))
}

/// The suffix after the last occurrence of `sep`, or the whole string when
/// `sep` does not occur.
pub open spec fn after_last(s: Seq<u8>, sep: u8) -> Seq<u8>
    decreases s.len(),
{
    if s.len() == 0 {
        s
    } else if s.last() == sep {
        Seq::empty()
    } else {
        after_last(s.drop_last(), sep).push(s.last())
    }
}

/// The candidate credential carried by an `Authorization` header value:
/// the part after the last colon, trimmed, then after the last space,
/// trimmed.  A missing header yields the empty credential.
pub open spec fn extracted_credential(header: Option<Seq<u8>>) -> Seq<u8> {
    match header {
        Option::None => Seq::empty(),
        Option::Some(s) => trimmed(after_last(trimmed(after_last(s, COLON)), SPACE)),
    }
}

/// Whether a request is allowed through: the public path is always allowed,
/// and elsewhere the candidate credential must equal the allowed one.
pub open spec fn auth_allows(path: Seq<u8>, candidate: Seq<u8>, allowed: Seq<u8>) -> bool {
    path == "/".spec_bytes() || candidate == allowed
}

proof fn lemma_after_last_no_sep(s: Seq<u8>, sep: u8)
    requires
        forall|j: int| 0 <= j < s.len() ==> s[j] != sep,
    ensures
        after_last(s, sep) == s,
    decreases s.len(),
{
    if s.len() > 0 {
        lemma_after_last_no_sep(s.drop_last(), sep);
        assert(after_last(s, sep) =~= s);
    }
}

proof fn lemma_after_last_at(s: Seq<u8>, sep: u8, i: int)
    requires
        0 <= i < s.len(),
        s[i] == sep,
        forall|j: int| i < j < s.len() ==> s[j] != sep,
    ensures
        after_last(s, sep) == s.subrange(i + 1, s.len() as int),
    decreases s.len(),
{
    if i == s.len() - 1 {
        assert(after_last(s, sep) =~= s.subrange(i + 1, s.len() as int));
    } else {
        lemma_after_last_at(s.drop_last(), sep, i);
        assert(after_last(s, sep) =~= s.subrange(i + 1, s.len() as int));
    }
}

/// The index of the last occurrence of `sep`, if any.
fn find_last(s: &[u8], sep: u8) -> (r: Option<usize>)
    ensures
        match r {
            Option::Some(i) => {
                &&& i < s@.len()
                &&& s@[i as int] == sep
                &&& forall|j: int| i < j < s@.len() ==> s@[j] != sep
            },
            Option::None => forall|j: int| 0 <= j < s@.len() ==> s@[j] != sep,
        },
{
    let mut k: usize = s.len();
    while k > 0
        invariant
            0 <= k <= s@.len(),
            forall|j: int| k <= j < s@.len() ==> s@[j] != sep,
        decreases k,
    {
        k = k - 1;
        if *vstd::slice::slice_index_get(s, k) == sep {
            return Some(k);
        }
    }
    None
}

/// The suffix of `s` after the last occurrence of `sep`.
fn after_last_bytes<'a>(s: &'a [u8], sep: u8) -> (r: &'a [u8])
    ensures
        r@ == after_last(s@, sep),
{
    let n = s.len();
    match find_last(s, sep) {
        Option::Some(i) => {
            proof {
                lemma_after_last_at(s@, sep, i as int);
            }
            vstd::slice::slice_subrange(s, i + 1, n)
        },
        Option::None => {
            proof {
                lemma_after_last_no_sep(s@, sep);
            }
            s
        },
    }
}

proof fn lemma_trim_start_step(s: Seq<u8>, lo: int)
    requires
        0 <= lo < s.len(),
        is_ws(s[lo]),
    ensures
        trim_start(s.subrange(lo, s.len() as int)) == trim_start(
            s.subrange(lo + 1, s.len() as int),
        ),
{
    let t = s.subrange(lo, s.len() as int);
    assert(t.drop_first() =~= s.subrange(lo + 1, s.len() as int));
}

proof fn lemma_trim_end_step(s: Seq<u8>, lo: int, hi: int)
    requires
        0 <= lo < hi <= s.len(),
        is_ws(s[hi - 1]),
    ensures
        trim_end(s.subrange(lo, hi)) == trim_end(s.subrange(lo, hi - 1)),
{
    let t = s.subrange(lo, hi);
    assert(t.drop_last() =~= s.subrange(lo, hi - 1));
}

/// Whether the byte at index `i` is ASCII whitespace.
fn ws_at(s: &[u8], i: usize) -> (r: bool)
    requires
        i < s@.len(),
    ensures
        r == is_ws(s@[i as int]),
{
    let b = *vstd::slice::slice_index_get(s, i);
    b == 32 || (9 <= b && b <= 13)
}

/// `s` without leading or trailing ASCII whitespace.
fn trim_bytes<'a>(s: &'a [u8]) -> (r: &'a [u8])
    ensures
        r@ == trimmed(s@),
{
    let n = s.len();
    let mut lo: usize = 0;
    proof {
        assert(s@.subrange(0, n as int) =~= s@);
    }
    while lo < n && ws_at(s, lo)
        invariant
            0 <= lo <= n == s@.len(),
            trim_start(s@) == trim_start(s@.subrange(lo as int, n as int)),
        decreases n - lo,
    {
        proof {
            lemma_trim_start_step(s@, lo as int);
        }
        lo = lo + 1;
    }
    proof {
        assert(s@.subrange(0, n as int) =~= s@);
        let t = s@.subrange(lo as int, n as int);
        if lo < n {
            assert(t[0] == s@[lo as int]);
        }
        assert(trim_start(t) == t);
    }
    let mut hi: usize = n;
    while hi > lo && ws_at(s, hi - 1)
        invariant
            0 <= lo <= hi <= n == s@.len(),
            trim_start(s@) == s@.subrange(lo as int, n as int),
            trim_end(s@.subrange(lo as int, n as int)) == trim_end(
                s@.subrange(lo as int, hi as int),
            ),
        decreases hi,
    {
        proof {
            lemma_trim_end_step(s@, lo as int, hi as int);
        }
        hi = hi - 1;
    }
    proof {
        let t = s@.subrange(lo as int, hi as int);
        if hi > lo {
            assert(t.last() == s@[hi - 1]);
        }
        assert(trim_end(t) == t);
    }
    vstd::slice::slice_subrange(s, lo, hi)
}

/// The candidate credential carried by an `Authorization` header value.
pub fn extract_credential(header: Option<&Vec<u8>>) -> (r: Vec<u8>)
    ensures
        r@ == extracted_credential(
            match header {
                Option::Some(h) => Option::Some(h@),
                Option::None => Option::None,
            },
        ),
{
    match header {
        Option::None => Vec::new(),
        Option::Some(h) => {
            let s1 = after_last_bytes(h.as_slice(), COLON);
            let s2 = trim_bytes(s1);
            let s3 = after_last_bytes(s2, SPACE);
            let s4 = trim_bytes(s3);
            vstd::slice::slice_to_vec(s4)
        },
    }
}

/// The verdict of the authentication stage on one request.
pub enum AuthVerdict {
    /// The request may proceed to the route handlers.
    Allow,
    /// The request is answered with a forbidden response; the handlers never
    /// see it.
    Forbidden,
}

/// The authentication stage, installed once around the route handlers.
pub struct Auth;

/// The per-request form of the authentication stage.
pub struct AuthMiddleware;

impl Auth {
    /// Wraps the inner part of the pipeline in the authentication stage.
    pub fn new_transform(&self) -> (m: AuthMiddleware) {
        AuthMiddleware
    }
}

impl AuthMiddleware {
    /// Decides one request: extract the candidate credential and allow the
    /// request exactly when the public path or a matching credential admits
    /// it.
    pub fn call(&self, req: &Request, allowed_api_key: &Vec<u8>) -> (v: AuthVerdict)
        ensures
            v is Allow <==> auth_allows(
                req.path@,
                extracted_credential(req@.authorization),
                allowed_api_key@,
            ),
    {
        let candidate = extract_credential(req.authorization.as_ref());
        let on_public_path = crate::bytestr::bytes_eq(req.path.as_slice(), "/".as_bytes());
        let key_matches = crate::bytestr::bytes_eq(
            candidate.as_slice(),
            allowed_api_key.as_slice(),
        );
        if on_public_path || key_matches {
            AuthVerdict::Allow
        } else {
            AuthVerdict::Forbidden
        }
    }
}

} // verus!
