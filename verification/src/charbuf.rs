//! Text fields stored in fixed-capacity, NUL-padded byte buffers.
//!
//! A buffer of capacity `c` holds at most `c - 1` bytes of UTF-8 text; the
//! text ends at the first zero byte, and every byte after it is zero as well
//! once the buffer has been written by [`write_charbuf`]. A buffer that holds
//! no zero byte holds no text: it is refused, never read as text of full
//! capacity.
//!
//! Text also arrives without its terminator, as bytes with their length. It
//! is then read up to the first zero byte, or to the end where there is
//! none.

use vstd::prelude::*;
use vstd::slice::slice_subrange;
use vstd::string::*;
use vstd::utf8::*;

verus! {

/// Why a text could not be stored in, or read from, a fixed buffer.
#[derive(Clone, Copy, Debug, PartialEq, Eq, Structural)]
pub enum CodecError {
    /// The text needs at least as many bytes as the buffer has.
    TooLong,
    /// The text holds a zero byte, which would cut it short when read back.
    InteriorNul,
    /// The stored bytes are not UTF-8.
    InvalidUtf8,
    /// The buffer holds no zero byte, so no text ends inside it.
    Unterminated,
}

/// `n` is where the text stored in `bytes` ends: no zero byte comes before
/// `n`, and `n` is either the position of a zero byte or the end of `bytes`.
pub open spec fn ends_text_at(bytes: Seq<u8>, n: int) -> bool {
    &&& 0 <= n <= bytes.len()
    &&& forall|j: int| 0 <= j < n ==> bytes[j] != 0
    &&& n < bytes.len() ==> bytes[n] == 0
}

/// The length of the text stored in `bytes`.
pub open spec fn text_len(bytes: Seq<u8>) -> int {
    choose|n: int| ends_text_at(bytes, n)
}

/// The bytes of the text stored in `bytes`: those before the first zero byte.
pub open spec fn text_bytes(bytes: Seq<u8>) -> Seq<u8> {
    bytes.subrange(0, text_len(bytes))
}

/// The text of a fixed field: what comes before its first zero byte, which
/// has to be there, if that is UTF-8.
pub open spec fn field_text(bytes: Seq<u8>) -> Result<Seq<char>, CodecError> {
    if !has_nul(bytes) {
        Err(CodecError::Unterminated)
    } else if !valid_utf8(text_bytes(bytes)) {
        Err(CodecError::InvalidUtf8)
    } else {
        Ok(decode_utf8(text_bytes(bytes)))
    }
}

/// The text of bytes that arrived with their length: what comes before the
/// first zero byte, or all of them where there is none, if that is UTF-8.
pub open spec fn decoded(bytes: Seq<u8>) -> Option<Seq<char>> {
    if valid_utf8(text_bytes(bytes)) {
        Some(decode_utf8(text_bytes(bytes)))
    } else {
        None
    }
}

/// Some byte of `text` is zero.
pub open spec fn has_nul(text: Seq<u8>) -> bool {
    exists|i: int| 0 <= i < text.len() && text[i] == 0
}

/// A buffer of `capacity` bytes that holds `text` followed by zero bytes.
pub open spec fn encoded(text: Seq<u8>, capacity: int) -> Seq<u8> {
    Seq::new(
        capacity as nat,
        |i: int|
            if i < text.len() {
                text[i]
            } else {
                0u8
            },
    )
}

/// What writing `text` into a buffer of `capacity` bytes returns.
pub open spec fn encode_outcome(text: Seq<u8>, capacity: int) -> Result<usize, CodecError> {
    if text.len() >= capacity {
        Err(CodecError::TooLong)
    } else if has_nul(text) {
        Err(CodecError::InteriorNul)
    } else {
        Ok(text.len() as usize)
    }
}

/// Every buffer holds a text: scanning from `from`, with no zero byte before
/// it, finds where the text ends.
proof fn lemma_scan(bytes: Seq<u8>, from: int) -> (n: int)
    requires
        0 <= from <= bytes.len(),
        forall|j: int| 0 <= j < from ==> bytes[j] != 0,
    ensures
        ends_text_at(bytes, n),
    decreases bytes.len() - from,
{
    if from == bytes.len() || bytes[from] == 0 {
        from
    } else {
        lemma_scan(bytes, from + 1)
    }
}

/// The text of a buffer ends at its length: no zero byte comes before it,
/// and it is the position of a zero byte or the end of the buffer.
pub proof fn lemma_text_len_ends(bytes: Seq<u8>)
    ensures
        ends_text_at(bytes, text_len(bytes)),
{
    let n = lemma_scan(bytes, 0);
}

/// At most one position ends the text of a buffer.
pub proof fn lemma_text_len_unique(bytes: Seq<u8>, n: int)
    requires
        ends_text_at(bytes, n),
    ensures
        text_len(bytes) == n,
{
    let m = text_len(bytes);
    assert(ends_text_at(bytes, m));
    if m < n {
        assert(bytes[m] == 0);
    } else if n < m {
        assert(bytes[n] == 0);
    }
}

/// A buffer holds a zero byte exactly where its text ends before its end.
pub proof fn lemma_terminated(bytes: Seq<u8>, n: int)
    requires
        ends_text_at(bytes, n),
    ensures
        has_nul(bytes) <==> n < bytes.len(),
        text_len(bytes) == n,
{
    lemma_text_len_unique(bytes, n);
    if n < bytes.len() {
        assert(bytes[n] == 0);
    }
}

/// The text of a fixed field leaves room for its terminator: it has fewer
/// bytes than the field, none of them zero, and they are the bytes of the
/// field before its first zero byte. Read with its length instead, the same
/// field gives the same text.
pub proof fn lemma_field_text_fits(bytes: Seq<u8>)
    requires
        field_text(bytes) is Ok,
    ensures
        encode_utf8(field_text(bytes)->Ok_0) == text_bytes(bytes),
        text_bytes(bytes).len() < bytes.len(),
        !has_nul(text_bytes(bytes)),
        decoded(bytes) == Some(field_text(bytes)->Ok_0),
{
    lemma_text_len_ends(bytes);
    lemma_terminated(bytes, text_len(bytes));
    decode_utf8_encode_utf8(text_bytes(bytes));
}

/// Cutting a buffer where its text ends changes nothing of the text: a
/// buffer may be read by its stored length as well as up to its first zero
/// byte.
pub proof fn lemma_text_of_prefix(bytes: Seq<u8>, n: int)
    requires
        ends_text_at(bytes, n),
    ensures
        text_len(bytes.subrange(0, n)) == n,
        text_bytes(bytes.subrange(0, n)) == text_bytes(bytes),
        decoded(bytes.subrange(0, n)) == decoded(bytes),
{
    let prefix = bytes.subrange(0, n);
    assert(ends_text_at(prefix, n));
    lemma_text_len_unique(prefix, n);
    lemma_text_len_unique(bytes, n);
    assert(text_bytes(prefix) =~= text_bytes(bytes));
}

/// Text that fits a buffer and holds no zero byte is read back unchanged
/// from the buffer it was written to.
pub proof fn lemma_round_trip(text: Seq<char>, capacity: int)
    requires
        encode_utf8(text).len() < capacity,
        !has_nul(encode_utf8(text)),
    ensures
        encode_outcome(encode_utf8(text), capacity) == Ok::<usize, CodecError>(
            encode_utf8(text).len() as usize,
        ),
        text_bytes(encoded(encode_utf8(text), capacity)) == encode_utf8(text),
        field_text(encoded(encode_utf8(text), capacity)) == Ok::<Seq<char>, CodecError>(text),
        decoded(encoded(encode_utf8(text), capacity)) == Some(text),
{
    let bytes = encode_utf8(text);
    let buffer = encoded(bytes, capacity);
    assert forall|j: int| 0 <= j < bytes.len() implies buffer[j] != 0 by {
        assert(buffer[j] == bytes[j]);
    }
    assert(ends_text_at(buffer, bytes.len() as int));
    lemma_terminated(buffer, bytes.len() as int);
    assert(text_bytes(buffer) =~= bytes);
    encode_utf8_valid_utf8(text);
    encode_utf8_decode_utf8(text);
}

/// Text that does not fit is refused whatever it holds, and so is text with
/// a zero byte in it.
pub proof fn lemma_encode_refusals(text: Seq<u8>, capacity: int)
    ensures
        text.len() >= capacity ==> encode_outcome(text, capacity) is Err,
        has_nul(text) ==> encode_outcome(text, capacity) is Err,
        encode_outcome(text, capacity) is Ok <==> text.len() < capacity && !has_nul(text),
{
}

/// `core::str::from_utf8`: succeeds exactly on well-formed UTF-8, and the
/// string slice it then returns is made of the very bytes it was given.
#[verifier::external_body]
fn str_from_utf8(bytes: &[u8]) -> (r: Option<&str>)
    ensures
        r.is_some() <==> valid_utf8(bytes@),
        r matches Some(s) ==> s.spec_bytes() == bytes@,
{
    core::str::from_utf8(bytes).ok()
}

/// The position of the first zero byte of `buf`, or the length of `buf`
/// where it holds none: where the text of `buf` ends, or that `buf` is not
/// terminated.
pub fn charbuf_len(buf: &[u8]) -> (n: usize)
    ensures
        n == text_len(buf@),
        ends_text_at(buf@, n as int),
        has_nul(buf@) <==> n < buf@.len(),
{
    let mut i: usize = 0;
    while i < buf.len() && buf[i] != 0
        invariant
            i <= buf@.len(),
            forall|j: int| 0 <= j < i ==> buf@[j] != 0,
        decreases buf@.len() - i,
    {
        i += 1;
    }
    proof {
        lemma_terminated(buf@, i as int);
    }
    i
}

/// Decodes `buf`, all of it, which holds no zero byte.
fn read_text(text: &[u8]) -> (r: Result<String, CodecError>)
    ensures
        match r {
            Ok(s) => valid_utf8(text@) && s@ == decode_utf8(text@),
            Err(e) => !valid_utf8(text@) && e == CodecError::InvalidUtf8,
        },
{
    match str_from_utf8(text) {
        Some(s) => {
            proof {
                encode_utf8_decode_utf8(s@);
            }
            Ok(s.to_owned())
        },
        None => Err(CodecError::InvalidUtf8),
    }
}

/// Reads the text of a fixed field as an owned string. The text ends at the
/// first zero byte of `buf`. A field without a zero byte is refused, and so
/// is text that is not UTF-8: nothing is cut short and nothing replaced.
pub fn charbuf_to_str(buf: &[u8]) -> (r: Result<String, CodecError>)
    ensures
        match r {
            Ok(s) => field_text(buf@) == Ok::<Seq<char>, CodecError>(s@),
            Err(e) => field_text(buf@) == Err::<Seq<char>, CodecError>(e),
        },
{
    let n = charbuf_len(buf);
    proof {
        lemma_terminated(buf@, n as int);
    }
    if n == buf.len() {
        return Err(CodecError::Unterminated);
    }
    read_text(slice_subrange(buf, 0, n))
}

/// Reads text that arrived with its length, without a terminator, as an
/// owned string. The text ends at the first zero byte of `bytes`, or at
/// their end where there is none. Fails, rather than replace anything,
/// where the text is not UTF-8.
pub fn bytes_to_str(bytes: &[u8]) -> (r: Result<String, CodecError>)
    ensures
        match r {
            Ok(s) => decoded(bytes@) == Some(s@),
            Err(e) => decoded(bytes@).is_none() && e == CodecError::InvalidUtf8,
        },
{
    let n = charbuf_len(bytes);
    read_text(slice_subrange(bytes, 0, n))
}

/// Writes `value` into `buf` and fills the rest of `buf` with zero bytes.
/// Returns the number of text bytes written; reading `buf` then gives
/// `value` back. Text that would leave no room for a terminating zero byte,
/// or that holds a zero byte itself, is refused and `buf` stays as it was:
/// nothing is ever cut short.
pub fn write_charbuf(buf: &mut [u8], value: &str) -> (r: Result<usize, CodecError>)
    ensures
        r == encode_outcome(value.spec_bytes(), old(buf)@.len() as int),
        r is Ok ==> final(buf)@ == encoded(value.spec_bytes(), old(buf)@.len() as int),
        r is Ok ==> field_text(final(buf)@) == Ok::<Seq<char>, CodecError>(value@),
        r is Err ==> final(buf)@ == old(buf)@,
{
    let bytes = value.as_bytes();
    let len = bytes.len();
    let capacity = buf.len();
    if len >= capacity {
        return Err(CodecError::TooLong);
    }
    let mut k: usize = 0;
    while k < len
        invariant
            k <= len == bytes@.len(),
            len < capacity == old(buf)@.len(),
            bytes@ == value.spec_bytes(),
            buf@ == old(buf)@,
            forall|j: int| 0 <= j < k ==> bytes@[j] != 0,
        decreases len - k,
    {
        if bytes[k] == 0 {
            assert(bytes@[k as int] == 0);
            return Err(CodecError::InteriorNul);
        }
        k += 1;
    }
    let mut i: usize = 0;
    while i < capacity
        invariant
            i <= capacity == buf@.len(),
            capacity == old(buf)@.len(),
            len == bytes@.len(),
            len < capacity,
            forall|j: int| 0 <= j < i ==> buf@[j] == encoded(bytes@, capacity as int)[j],
        decreases capacity - i,
    {
        if i < len {
            buf[i] = bytes[i];
        } else {
            buf[i] = 0;
        }
        i += 1;
    }
    assert(buf@ =~= encoded(bytes@, capacity as int));
    proof {
        lemma_round_trip(value@, capacity as int);
    }
    Ok(len)
}

} // verus!
