//! Text the kernel wrote into a buffer: reading bytes as UTF-8.
use vstd::prelude::*;
use vstd::string::StringSliceAdditionalSpecFns;
use vstd::utf8::{valid_utf8, decode_utf8};

verus! {

/// `core::str::from_utf8`, with the error dropped: the text that `bytes`
/// spell when they are well-formed UTF-8 (vstd's `valid_utf8`, the
/// encoding rules of RFC 3629: no overlong forms, no surrogates, nothing
/// above U+10FFFF), and `None` otherwise. The contract says nothing more of
/// the error than that there was one.
#[verifier::external_body]
fn str_from_utf8(bytes: &[u8]) -> (r: Option<&str>)
    ensures
        r is Some <==> valid_utf8(bytes@),
        r matches Some(s) ==> s@ == decode_utf8(bytes@) && s.spec_bytes() == bytes@,
{
    core::str::from_utf8(bytes).ok()
}

/// The text spelled by the first `n` bytes of a buffer, or `fallback`
/// when those bytes are not UTF-8.
pub open spec fn text_or(bytes: Seq<u8>, fallback: Seq<char>) -> Seq<char> {
    if valid_utf8(bytes) {
        decode_utf8(bytes)
    } else {
        fallback
    }
}

/// The first `n` bytes of `buf` as an owned string, or `fallback` when
/// they are not UTF-8.
pub fn string_from_prefix_or(buf: &[u8], n: usize, fallback: &str) -> (r: String)
    requires
        n <= buf@.len(),
    ensures
        r@ == text_or(buf@.take(n as int), fallback@),
{
    let head = &buf[0..n];
    proof {
        assert(head@ =~= buf@.take(n as int));
    }
    match str_from_utf8(head) {
        Some(s) => s.to_owned(),
        None => fallback.to_owned(),
    }
}

/// The first `n` bytes of `buf` as an owned string, when they are UTF-8.
pub fn string_from_prefix(buf: &[u8], n: usize) -> (r: Option<String>)
    requires
        n <= buf@.len(),
    ensures
        r is Some <==> valid_utf8(buf@.take(n as int)),
        r matches Some(s) ==> s@ == decode_utf8(buf@.take(n as int)),
{
    let head = &buf[0..n];
    proof {
        assert(head@ =~= buf@.take(n as int));
    }
    match str_from_utf8(head) {
        Some(s) => Some(s.to_owned()),
        None => None,
    }
}

} // verus!
