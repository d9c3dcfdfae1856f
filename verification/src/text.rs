use vstd::prelude::*;
use vstd::utf8::{decode_utf8, valid_utf8};

verus! {

/// The text that a lossy reading of `bytes` as UTF-8 gives: the text itself
/// where the bytes are valid UTF-8, else the text with U+FFFD in place of each
/// ill-formed part.
pub uninterp spec fn lossy_text(bytes: Seq<u8>) -> Seq<char>;

/// Reads bytes as UTF-8 text with `String::from_utf8_lossy`. The result is
/// the function's own, named `lossy_text`; for valid UTF-8 it is the decoded
/// text, unchanged.
#[verifier::external_body]
pub(crate) fn utf8_lossy(bytes: &[u8]) -> (text: String)
    ensures
        text@ == lossy_text(bytes@),
        valid_utf8(bytes@) ==> text@ == decode_utf8(bytes@),
{
    String::from_utf8_lossy(bytes).into_owned()
}

/// Reads bytes as UTF-8 text with `std::str::from_utf8`, which accepts
/// exactly the valid encodings and then gives the text they encode.
#[verifier::external_body]
pub(crate) fn utf8_strict(bytes: &[u8]) -> (text: Option<&str>)
    ensures
        text is Some <==> valid_utf8(bytes@),
        text matches Some(t) ==> t@ == decode_utf8(bytes@),
{
    std::str::from_utf8(bytes).ok()
}

/// The length of the C string at the start of `bytes`: the number of bytes
/// before the first NUL, or all of them where there is none.
pub open spec fn c_len(bytes: Seq<u8>) -> nat
    decreases bytes.len(),
{
    if bytes.len() == 0 || bytes[0] == 0 {
        0
    } else {
        1 + c_len(bytes.drop_first())
    }
}

/// `c_len` is the one position that has no NUL before it and a NUL, or the
/// end of the bytes, at it.
pub proof fn lemma_c_len(bytes: Seq<u8>, n: int)
    requires
        0 <= n <= bytes.len(),
        forall|k: int| 0 <= k < n ==> bytes[k] != 0,
        n == bytes.len() || bytes[n] == 0,
    ensures
        c_len(bytes) == n,
    decreases n,
{
    if n > 0 {
        let rest = bytes.drop_first();
        assert forall|k: int| 0 <= k < n - 1 implies rest[k] != 0 by {
            assert(rest[k] == bytes[k + 1]);
        }
        lemma_c_len(rest, n - 1);
    }
}

/// The text of a NUL-terminated buffer: the bytes before the first NUL (all
/// of them where there is none), read as UTF-8, lossily. Never fails.
pub fn c_string_text(bytes: &[u8]) -> (text: String)
    ensures
        text@ == lossy_text(bytes@.take(c_len(bytes@) as int)),
{
    let mut n: usize = 0;
    while n < bytes.len() && bytes[n] != 0
        invariant
            n <= bytes.len(),
            forall|k: int| 0 <= k < n ==> bytes@[k] != 0,
        decreases bytes.len() - n,
    {
        n = n + 1;
    }
    proof {
        lemma_c_len(bytes@, n as int);
    }
    let head = vstd::slice::slice_subrange(bytes, 0, n);
    assert(head@ =~= bytes@.take(n as int));
    utf8_lossy(head)
}

/// Whether two byte strings are equal, byte by byte.
pub fn bytes_eq(a: &[u8], b: &[u8]) -> (r: bool)
    ensures
        r == (a@ == b@),
{
    if a.len() != b.len() {
        return false;
    }
    let mut i: usize = 0;
    while i < a.len()
        invariant
            i <= a.len(),
            a.len() == b.len(),
            forall|k: int| 0 <= k < i ==> a@[k] == b@[k],
        decreases a.len() - i,
    {
        if a[i] != b[i] {
            return false;
        }
        i = i + 1;
    }
    assert(a@ =~= b@);
    true
}

/// Whether two strings hold the same characters.
pub fn str_eq(a: &str, b: &str) -> (r: bool)
    ensures
        r == (a@ == b@),
{
    let r = bytes_eq(a.as_bytes(), b.as_bytes());
    proof {
        vstd::utf8::encode_utf8_decode_utf8(a@);
        vstd::utf8::encode_utf8_decode_utf8(b@);
    }
    r
}

} // verus!
