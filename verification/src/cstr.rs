//! Text in fixed buffers.
//!
//! The kernel's records carry names and labels as zero-terminated bytes in
//! buffers of a fixed size.  Text that goes in is cut to fit and always
//! terminated; text that comes out ends at the first zero byte.

use vstd::prelude::*;
use vstd::slice::slice_subrange;
use vstd::string::StringSliceAdditionalSpecFns;
use vstd::utf8::{
    decode_utf8, encode_utf8, encode_utf8_decode_utf8, encode_utf8_valid_utf8, is_ascii_chars,
    is_ascii_chars_encode_utf8, valid_utf8,
};

verus! {

/// The number of bytes of a text of `len` bytes that fit a buffer of `n`
/// bytes together with the terminator.
pub open spec fn copied_len(len: nat, n: nat) -> nat {
    if len + 1 <= n {
        len
    } else {
        (n - 1) as nat
    }
}

/// What a buffer `old` holds after the text `src` was written to it: as much
/// of the text as fits before a terminator, the terminator, and behind it
/// what was there before.
pub open spec fn lcpy(old: Seq<u8>, src: Seq<u8>) -> Seq<u8> {
    let kept = copied_len(src.len(), old.len());
    Seq::new(
        old.len(),
        |i: int|
            if i < kept {
                src[i]
            } else if i == kept {
                0u8
            } else {
                old[i]
            },
    )
}

/// Writes `src` to `dst` as a zero-terminated text, cut to what fits.
pub fn rstr_lcpy<const N: usize>(dst: &mut [u8; N], src: &str)
    requires
        N >= 1,
    ensures
        final(dst)@ == lcpy(old(dst)@, src.spec_bytes()),
{
    let bytes = src.as_bytes();
    let kept: usize = if bytes.len() < N {
        bytes.len()
    } else {
        N - 1
    };
    let mut i: usize = 0;
    while i < kept
        invariant
            i <= kept < N,
            kept <= bytes@.len(),
            forall|j: int| 0 <= j < i ==> dst@[j] == bytes@[j],
            forall|j: int| i <= j < N ==> dst@[j] == old(dst)@[j],
        decreases kept - i,
    {
        dst[i] = bytes[i];
        i += 1;
    }
    dst[kept] = 0;
}

/// Whether the text at the start of `buf` ends at `n`: no zero byte comes
/// before `n`, and one stands at `n` unless the buffer ends there.
pub open spec fn ends_at(buf: Seq<u8>, n: int) -> bool {
    &&& 0 <= n <= buf.len()
    &&& forall|i: int| 0 <= i < n ==> buf[i] != 0
    &&& n < buf.len() ==> buf[n] == 0
}

/// The length of the zero-terminated text at the start of `buf`; the whole
/// buffer where it holds no zero byte.
pub open spec fn cstr_len(buf: Seq<u8>) -> int {
    choose|n: int| ends_at(buf, n)
}

/// The bytes of the zero-terminated text at the start of `buf`.
pub open spec fn cstr_bytes(buf: Seq<u8>) -> Seq<u8> {
    buf.take(cstr_len(buf))
}

/// A text ends in one place only.
pub proof fn lemma_ends_at_unique(buf: Seq<u8>, n: int)
    requires
        ends_at(buf, n),
    ensures
        cstr_len(buf) == n,
{
}

/// What is written to an empty buffer is read back from it: the text, cut
/// to what fits, provided that the text holds no zero byte itself.
pub proof fn lemma_written_text_reads_back(n: nat, src: Seq<u8>)
    requires
        n >= 1,
        forall|i: int| 0 <= i < src.len() ==> src[i] != 0,
    ensures
        cstr_bytes(lcpy(Seq::new(n, |i: int| 0u8), src)) == src.take(
            copied_len(src.len(), n) as int,
        ),
{
    lemma_ends_at_unique(lcpy(Seq::new(n, |i: int| 0u8), src), copied_len(src.len(), n) as int);
}

/// Finds where the zero-terminated text at the start of `buf` ends.
pub fn cstrbuf_len<const N: usize>(buf: &[u8; N]) -> (n: usize)
    ensures
        n == cstr_len(buf@),
        ends_at(buf@, n as int),
{
    let mut n: usize = 0;
    while n < N && buf[n] != 0
        invariant
            n <= N,
            forall|i: int| 0 <= i < n ==> buf@[i] != 0,
        decreases N - n,
    {
        n += 1;
    }
    proof {
        lemma_ends_at_unique(buf@, n as int);
    }
    n
}

/// The text that `bytes` stands for when every part of it that is not
/// UTF-8 is replaced by the replacement character.
pub uninterp spec fn utf8_lossy(bytes: Seq<u8>) -> Seq<char>;

/// `String::from_utf8_lossy` of the standard library, made into an owned
/// string.  The result is a function of the bytes alone; for bytes that are
/// UTF-8 it is the text they encode.
#[verifier::external_body]
fn string_from_utf8_lossy(bytes: &[u8]) -> (s: String)
    ensures
        s@ == utf8_lossy(bytes@),
        valid_utf8(bytes@) ==> s@ == decode_utf8(bytes@),
{
    String::from_utf8_lossy(bytes).into_owned()
}

/// Whether `text` is how `bytes` read: the text that they encode where they
/// are UTF-8, and in any case their lossy reading.
pub open spec fn reads_as(bytes: Seq<u8>, text: Seq<char>) -> bool {
    &&& text == utf8_lossy(bytes)
    &&& valid_utf8(bytes) ==> text == decode_utf8(bytes)
}

/// The letters of the ASCII bytes `bytes`, one for each byte.
pub open spec fn ascii_text(bytes: Seq<u8>) -> Seq<char> {
    Seq::new(bytes.len(), |i: int| bytes[i] as char)
}

/// Bytes that are all ASCII read as their letters, one for each byte.
pub proof fn lemma_ascii_reads_as_itself(bytes: Seq<u8>, text: Seq<char>)
    requires
        forall|i: int| 0 <= i < bytes.len() ==> bytes[i] < 128,
        reads_as(bytes, text),
    ensures
        text == ascii_text(bytes),
{
    let letters = ascii_text(bytes);
    assert(is_ascii_chars(letters));
    is_ascii_chars_encode_utf8(letters);
    assert(encode_utf8(letters) =~= bytes);
    encode_utf8_valid_utf8(letters);
    encode_utf8_decode_utf8(letters);
}

/// The text in `buf` up to its terminator.
pub fn cstrbuf_to_owned<const N: usize>(buf: &[u8; N]) -> (s: String)
    ensures
        reads_as(cstr_bytes(buf@), s@),
{
    let n = cstrbuf_len(buf);
    let text = slice_subrange(buf.as_slice(), 0, n);
    string_from_utf8_lossy(text)
}

/// The text in `buf` up to its terminator, or nothing where the buffer
/// starts with the terminator.
pub fn cstrbuf_to_string<const N: usize>(buf: &[u8; N]) -> (s: Option<String>)
    requires
        N >= 1,
    ensures
        match s {
            Some(text) => buf@[0] != 0 && reads_as(cstr_bytes(buf@), text@),
            None => buf@[0] == 0,
        },
{
    if buf[0] == 0 {
        None
    } else {
        Some(cstrbuf_to_owned(buf))
    }
}

} // verus!
