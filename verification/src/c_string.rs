//! Strings as the engine takes and gives them: UTF-8 bytes closed by a zero byte.

use crate::error::Error;
use vstd::prelude::*;
use vstd::slice::slice_subrange;
use vstd::string::StrSliceExecFns;
use vstd::string::StringSliceAdditionalSpecFns;
use vstd::utf8::char_is_scalar;
use vstd::utf8::char_u32_cast;
use vstd::utf8::decode_utf8;
use vstd::utf8::encode_scalar;
use vstd::utf8::encode_utf8;
use vstd::utf8::encode_utf8_decode_utf8;
use vstd::utf8::encode_utf8_valid_utf8;
use vstd::utf8::is_scalar;
use vstd::utf8::valid_utf8;

verus! {

/// Text can cross to the engine when its UTF-8 encoding holds no zero byte.
pub open spec fn is_c_safe(text: Seq<char>) -> bool {
    !encode_utf8(text).contains(0u8)
}

/// The bytes handed to the engine for `text`: its UTF-8 encoding and the
/// terminator.
pub open spec fn c_string(text: Seq<char>) -> Seq<u8> {
    encode_utf8(text).push(0u8)
}

/// `n` is the place of the terminator in `buf`: the first zero byte.
pub open spec fn is_terminator(buf: Seq<u8>, n: int) -> bool {
    &&& 0 <= n < buf.len()
    &&& buf[n] == 0
    &&& forall|i: int| 0 <= i < n ==> buf[i] != 0
}

/// The place of the terminator in a buffer that holds one.
pub open spec fn terminator(buf: Seq<u8>) -> int {
    choose|n: int| is_terminator(buf, n)
}

/// The text that a buffer filled by the engine holds: the bytes before the
/// terminator, read as UTF-8. A buffer without a terminator holds a string
/// longer than the buffer, which is a size error; bytes that are not UTF-8 are
/// an encoding error.
pub open spec fn c_text(buf: Seq<u8>) -> Result<Seq<char>, Error> {
    if !buf.contains(0u8) {
        Err(Error::SizeConversionError)
    } else if !valid_utf8(buf.subrange(0, terminator(buf))) {
        Err(Error::EncodingError)
    } else {
        Ok(decode_utf8(buf.subrange(0, terminator(buf))))
    }
}

/// A buffer has at most one terminator.
pub proof fn lemma_terminator_unique(buf: Seq<u8>, n: int)
    requires
        is_terminator(buf, n),
    ensures
        buf.contains(0u8),
        terminator(buf) == n,
{
    assert(is_terminator(buf, terminator(buf)));
}

/// Text written out for the engine and read back is the same text, whatever
/// follows the terminator in the buffer. This holds of every string that can
/// cross, ASCII or not.
pub proof fn lemma_c_string_round_trip(text: Seq<char>, rest: Seq<u8>)
    requires
        is_c_safe(text),
    ensures
        c_text(c_string(text) + rest) == Ok::<Seq<char>, Error>(text),
{
    let bytes = encode_utf8(text);
    let buf = c_string(text) + rest;
    let n = bytes.len() as int;
    assert forall|i: int| 0 <= i < n implies buf[i] != 0 by {
        assert(buf[i] == bytes[i]);
    }
    lemma_terminator_unique(buf, n);
    assert(buf.subrange(0, n) =~= bytes);
    encode_utf8_valid_utf8(text);
    encode_utf8_decode_utf8(text);
}

/// A byte of a scalar's encoding is zero only in the encoding of the scalar
/// zero.
proof fn lemma_scalar_bytes(scalar: u32)
    requires
        is_scalar(scalar),
    ensures
        encode_scalar(scalar).len() > 0,
        forall|i: int|
            0 <= i < encode_scalar(scalar).len() ==> (#[trigger] encode_scalar(scalar)[i] == 0
                <==> scalar == 0),
{
    let low = (scalar & 0x7F) as u8;
    assert(scalar <= 0x7F ==> (low == 0 <==> scalar == 0)) by (bit_vector)
        requires
            low == (scalar & 0x7F) as u8,
    ;
    assert(forall|b: u8| 0xC0u8 | b != 0) by (bit_vector);
    assert(forall|b: u8| 0xE0u8 | b != 0) by (bit_vector);
    assert(forall|b: u8| 0xF0u8 | b != 0) by (bit_vector);
    assert(forall|b: u8| 0x80u8 | b != 0) by (bit_vector);
}

/// Text can cross exactly when none of its characters is the zero character.
pub proof fn lemma_c_safe_chars(text: Seq<char>)
    ensures
        is_c_safe(text) <==> !text.contains('\0'),
    decreases text.len(),
{
    if text.len() > 0 {
        let first = encode_scalar(text[0] as u32);
        let rest = encode_utf8(text.drop_first());
        let bytes = encode_utf8(text);
        char_is_scalar(text[0]);
        lemma_scalar_bytes(text[0] as u32);
        lemma_c_safe_chars(text.drop_first());
        assert(text[0] == '\0' <==> text[0] as u32 == 0) by {
            char_u32_cast(text[0], text[0] as u32);
            char_u32_cast('\0', 0u32);
        }
        if text.contains('\0') {
            let i = choose|i: int| 0 <= i < text.len() && text[i] == '\0';
            if i == 0 {
                assert(bytes[0] == 0);
            } else {
                assert(text.drop_first()[i - 1] == '\0');
                let j = choose|j: int| 0 <= j < rest.len() && rest[j] == 0u8;
                assert(bytes[first.len() + j] == 0);
            }
        }
        if bytes.contains(0u8) {
            let j = choose|j: int| 0 <= j < bytes.len() && bytes[j] == 0u8;
            if j < first.len() {
                assert(text[0] == '\0');
            } else {
                assert(rest[j - first.len()] == 0);
                let i = choose|i: int|
                    0 <= i < text.drop_first().len() && text.drop_first()[i] == '\0';
                assert(text[i + 1] == '\0');
            }
        }
    }
}

/// `std::str::from_utf8`: the bytes are accepted exactly when they are valid
/// UTF-8, and the string slice that comes back is made of those bytes.
#[verifier::external_body]
fn str_from_utf8(bytes: &[u8]) -> (text: Option<&str>)
    ensures
        text is Some <==> valid_utf8(bytes@),
        text matches Some(s) ==> s.spec_bytes() == bytes@,
{
    match std::str::from_utf8(bytes) {
        Ok(s) => Some(s),
        Err(_) => None,
    }
}

/// Writes `text` out for the engine. Text with a zero byte in it is refused.
pub fn to_c_string(text: &str) -> (written: Result<Vec<u8>, Error>)
    ensures
        is_c_safe(text@) ==> written is Ok,
        written matches Ok(bytes) ==> is_c_safe(text@) && bytes@ == c_string(text@),
        written matches Err(e) ==> e == Error::InvalidArgument,
{
    let mut bytes = text.as_bytes_vec();
    let mut i: usize = 0;
    while i < bytes.len()
        invariant
            i <= bytes.len(),
            bytes@ == encode_utf8(text@),
            forall|j: int| 0 <= j < i ==> bytes[j] != 0,
        decreases bytes.len() - i,
    {
        if bytes[i] == 0 {
            return Err(Error::InvalidArgument);
        }
        i += 1;
    }
    bytes.push(0u8);
    Ok(bytes)
}

/// Reads the text out of a buffer that the engine has filled.
pub fn from_c_buffer(buf: &[u8]) -> (read: Result<String, Error>)
    ensures
        read matches Ok(text) ==> c_text(buf@) == Ok::<Seq<char>, Error>(text@),
        read matches Err(e) ==> c_text(buf@) == Err::<Seq<char>, Error>(e),
{
    let mut n: usize = 0;
    while n < buf.len() && buf[n] != 0
        invariant
            n <= buf.len(),
            forall|j: int| 0 <= j < n ==> buf[j] != 0,
        decreases buf.len() - n,
    {
        n += 1;
    }
    if n == buf.len() {
        return Err(Error::SizeConversionError);
    }
    proof {
        lemma_terminator_unique(buf@, n as int);
    }
    match str_from_utf8(slice_subrange(buf, 0, n)) {
        Some(s) => {
            proof {
                encode_utf8_decode_utf8(s@);
            }
            Ok(s.to_owned())
        },
        None => Err(Error::EncodingError),
    }
}

} // verus!
