//! The answer of a proxy that was asked for a tunnel.
//!
//! A proxy grants a tunnel with a status line such as
//! `HTTP/1.1 200 Connection established`. The reply is accepted when it is
//! text and holds the words `connection established`, in any mix of upper
//! and lower case; everything else is a refusal.

use crate::error::{HttpError, HttpErrorView};
use vstd::prelude::*;
use vstd::string::*;
use vstd::utf8::{encode_utf8, valid_utf8};

verus! {

/// How many bytes of the proxy's reply are read.
pub const REPLY_LIMIT: usize = 1024;

/// The byte `b`, in lower case if it is an upper-case ASCII letter.
pub open spec fn ascii_lower(b: u8) -> u8 {
    if 0x41 <= b <= 0x5a {
        (b + 0x20) as u8
    } else {
        b
    }
}

/// Whether `needle` stands in `hay` at position `at`, once the upper-case
/// ASCII letters of `hay` are read as lower case.
pub open spec fn matches_at(hay: Seq<u8>, needle: Seq<u8>, at: int) -> bool {
    &&& 0 <= at
    &&& at + needle.len() <= hay.len()
    &&& forall|j: int| 0 <= j < needle.len() ==> ascii_lower(#[trigger] hay[at + j]) == needle[j]
}

/// Whether `needle` stands somewhere in `hay`, once the upper-case ASCII
/// letters of `hay` are read as lower case.
pub open spec fn contains_ignoring_case(hay: Seq<u8>, needle: Seq<u8>) -> bool {
    exists|at: int| matches_at(hay, needle, at)
}

/// The words that grant a tunnel, as bytes.
pub open spec fn established_phrase() -> Seq<u8> {
    encode_utf8("connection established"@)
}

/// What a proxy's reply means: `Ok` where the tunnel stands, and otherwise
/// the error to report. A reply that is not text is malformed; a reply that
/// is text but lacks the words is a refusal.
pub open spec fn tunnel_verdict(reply: Seq<u8>) -> Result<(), HttpErrorView> {
    if !valid_utf8(reply) {
        Err(HttpErrorView::Proxy("parse proxy server response error."@))
    } else if !contains_ignoring_case(reply, established_phrase()) {
        Err(HttpErrorView::Proxy("Proxy server response error."@))
    } else {
        Ok(())
    }
}

/// `core::str::from_utf8`: tells whether `bytes` are well-formed UTF-8. The
/// function is taken on trust to accept exactly the byte sequences that
/// `valid_utf8` describes.
#[verifier::external_body]
fn is_utf8(bytes: &[u8]) -> (ok: bool)
    ensures
        ok == valid_utf8(bytes@),
{
    core::str::from_utf8(bytes).is_ok()
}

/// The byte `b`, in lower case if it is an upper-case ASCII letter.
pub fn to_ascii_lower(b: u8) -> (low: u8)
    ensures
        low == ascii_lower(b),
{
    if b >= 0x41 && b <= 0x5a {
        b + 0x20
    } else {
        b
    }
}

/// Whether `needle` stands in `hay` at `at`, ignoring the case of `hay`.
fn matches_here(hay: &[u8], needle: &[u8], at: usize) -> (hit: bool)
    requires
        at + needle@.len() <= hay@.len(),
    ensures
        hit == matches_at(hay@, needle@, at as int),
{
    let n = needle.len();
    let h = hay.len();
    let mut j: usize = 0;
    while j < n
        invariant
            n == needle@.len(),
            h == hay@.len(),
            at + n <= h,
            j <= n,
            forall|k: int| 0 <= k < j ==> ascii_lower(#[trigger] hay@[at + k]) == needle@[k],
        decreases n - j,
    {
        if to_ascii_lower(hay[at + j]) != needle[j] {
            return false;
        }
        j += 1;
    }
    true
}

/// Whether `needle` stands somewhere in `hay`, once the upper-case ASCII
/// letters of `hay` are read as lower case. The letters of `needle` are
/// taken as they are.
pub fn contains_ignore_case(hay: &[u8], needle: &[u8]) -> (found: bool)
    ensures
        found == contains_ignoring_case(hay@, needle@),
{
    let n = needle.len();
    let h = hay.len();
    if n > h {
        return false;
    }
    if n == 0 {
        assert(matches_at(hay@, needle@, 0));
        return true;
    }
    let last = h - n;
    let mut at: usize = 0;
    while at <= last
        invariant
            n == needle@.len(),
            h == hay@.len(),
            1 <= n <= h,
            last == h - n,
            at <= last + 1,
            forall|k: int| 0 <= k < at ==> !matches_at(hay@, needle@, k),
        decreases last + 1 - at,
    {
        if matches_here(hay, needle, at) {
            return true;
        }
        at += 1;
    }
    false
}

/// Judges the reply of a proxy that was asked for a tunnel.
pub fn check_tunnel_reply(reply: &[u8]) -> (r: Result<(), HttpError>)
    ensures
        match r {
            Ok(_) => tunnel_verdict(reply@) is Ok,
            Err(e) => tunnel_verdict(reply@) == Err::<(), HttpErrorView>(e@),
        },
{
    if !is_utf8(reply) {
        return Err(HttpError::Proxy("parse proxy server response error."));
    }
    if !contains_ignore_case(reply, "connection established".as_bytes()) {
        return Err(HttpError::Proxy("Proxy server response error."));
    }
    Ok(())
}

/// A reply without the words is refused with a proxy error, whatever else
/// it holds.
pub proof fn lemma_reply_without_phrase_is_refused(reply: Seq<u8>)
    requires
        !contains_ignoring_case(reply, established_phrase()),
    ensures
        tunnel_verdict(reply) matches Err(HttpErrorView::Proxy(_)),
{
}

} // verus!
