//! Decoding of the firmware-version buffer returned by the native query.
//!
//! The native call fills a fixed byte buffer with a zero-terminated string.
//! The verified part is the truncation at the first zero byte (or the whole
//! buffer when none is present); the UTF-8 decode itself is delegated to the
//! standard library behind a trusted wrapper whose result is named by
//! [`utf8_decoded`].

use vstd::prelude::*;

verus! {

/// The prefix of `b` before its first zero byte, or all of `b` when it
/// contains no zero byte.
pub open spec fn nul_prefix(b: Seq<u8>) -> Seq<u8>
    decreases b.len(),
{
    if b.len() == 0 {
        b
    } else if b[0] == 0 {
        Seq::empty()
    } else {
        seq![b[0]] + nul_prefix(b.drop_first())
    }
}

/// A prefix of `b` that contains no zero byte and ends at the end of `b` or
/// just before a zero byte is exactly [`nul_prefix`] of `b`.
proof fn lemma_nul_prefix_take(b: Seq<u8>, i: int)
    requires
        0 <= i <= b.len(),
        forall|k: int| 0 <= k < i ==> b[k] != 0,
        i == b.len() || b[i] == 0,
    ensures
        nul_prefix(b) == b.take(i),
    decreases i,
{
    if i == 0 {
        // b is empty or starts with a zero byte, so the prefix is empty
        assert(nul_prefix(b) =~= b.take(0));
    } else {
        let t = b.drop_first();
        assert(forall|k: int| 0 <= k < i - 1 ==> t[k] != 0);
        lemma_nul_prefix_take(t, i - 1);
        assert(seq![b[0]] + t.take(i - 1) =~= b.take(i));
    }
}

/// Copies the prefix of `buf` before its first zero byte, or all of `buf`
/// when no byte is zero.
pub fn truncate_at_nul(buf: &Vec<u8>) -> (r: Vec<u8>)
    ensures
        r@ == nul_prefix(buf@),
{
    let mut out: Vec<u8> = Vec::new();
    let mut i: usize = 0;
    while i < buf.len() && buf[i] != 0
        invariant
            i <= buf@.len(),
            out@ == buf@.take(i as int),
            forall|k: int| 0 <= k < i ==> buf@[k] != 0,
        decreases buf@.len() - i,
    {
        let b = buf[i];
        out.push(b);
        i = i + 1;
        assert(out@ =~= buf@.take(i as int));
    }
    proof {
        lemma_nul_prefix_take(buf@, i as int);
    }
    out
}

/// What the standard library's UTF-8 decoder returns for a given byte
/// sequence: the decoded characters when the bytes are valid UTF-8, and
/// nothing otherwise. The result depends on the bytes alone.
pub uninterp spec fn utf8_decoded(b: Seq<u8>) -> Option<Seq<char>>;

/// Relies on String::from_utf8: returns the decoded string exactly when the
/// bytes are valid UTF-8, and the decode depends on the bytes alone.
#[verifier::external_body]
pub(crate) fn decode_utf8(b: Vec<u8>) -> (r: Option<String>)
    ensures
        r is Some <==> utf8_decoded(b@) is Some,
        r matches Some(s) ==> (utf8_decoded(b@) matches Some(cs) && s@ == cs),
{
    match std::string::String::from_utf8(b) {
        Ok(s) => Some(s),
        Err(_) => None,
    }
}

} // verus!
