//! Numbers and text in raw bytes.

use byteorder::{BigEndian, ByteOrder, LittleEndian};
use vstd::prelude::*;
use vstd::string::*;

verus! {

/// The number that the first four bytes hold, in the given byte order.
pub open spec fn u32_value(bytes: Seq<u8>, is_little_endian: bool) -> int {
    if is_little_endian {
        bytes[0] + 0x100 * bytes[1] + 0x1_0000 * bytes[2] + 0x100_0000 * bytes[3]
    } else {
        0x100_0000 * bytes[0] + 0x1_0000 * bytes[1] + 0x100 * bytes[2] + bytes[3]
    }
}

/// The unsigned number that the first eight bytes hold, in the given byte order.
pub open spec fn u64_value(bytes: Seq<u8>, is_little_endian: bool) -> int {
    let first = u32_value(bytes, is_little_endian);
    let second = u32_value(bytes.skip(4), is_little_endian);
    if is_little_endian {
        first + 0x1_0000_0000 * second
    } else {
        0x1_0000_0000 * first + second
    }
}

/// The two's complement number that the first eight bytes hold, in the given byte order.
pub open spec fn i64_value(bytes: Seq<u8>, is_little_endian: bool) -> int {
    let unsigned = u64_value(bytes, is_little_endian);
    if unsigned < 0x8000_0000_0000_0000 {
        unsigned
    } else {
        unsigned - 0x1_0000_0000_0000_0000
    }
}

/// The two byte orders mirror each other.
pub proof fn law_byte_orders_mirror(bytes: Seq<u8>)
    ensures
        bytes.len() == 4 ==> u32_value(bytes.reverse(), true) == u32_value(bytes, false),
        bytes.len() == 8 ==> i64_value(bytes.reverse(), true) == i64_value(bytes, false),
{
}

/// Calls `byteorder::LittleEndian::read_u32`, which reads the first four bytes of the buffer, the
/// least significant first, and panics on a shorter buffer.
#[verifier::external_body]
fn little_endian_u32(buffer: &[u8]) -> (value: u32)
    requires
        buffer@.len() >= 4,
    ensures
        value as int == u32_value(buffer@, true),
{
    LittleEndian::read_u32(buffer)
}

/// Calls `byteorder::BigEndian::read_u32`, which reads the first four bytes of the buffer, the
/// most significant first, and panics on a shorter buffer.
#[verifier::external_body]
fn big_endian_u32(buffer: &[u8]) -> (value: u32)
    requires
        buffer@.len() >= 4,
    ensures
        value as int == u32_value(buffer@, false),
{
    BigEndian::read_u32(buffer)
}

/// Calls `byteorder::LittleEndian::read_i64`, which reads the first eight bytes of the buffer, the
/// least significant first, as a two's complement number, and panics on a shorter buffer.
#[verifier::external_body]
fn little_endian_i64(buffer: &[u8]) -> (value: i64)
    requires
        buffer@.len() >= 8,
    ensures
        value as int == i64_value(buffer@, true),
{
    LittleEndian::read_i64(buffer)
}

/// Calls `byteorder::BigEndian::read_i64`, which reads the first eight bytes of the buffer, the
/// most significant first, as a two's complement number, and panics on a shorter buffer.
#[verifier::external_body]
fn big_endian_i64(buffer: &[u8]) -> (value: i64)
    requires
        buffer@.len() >= 8,
    ensures
        value as int == i64_value(buffer@, false),
{
    BigEndian::read_i64(buffer)
}

/// Reads an unsigned 32-bit number in the given byte order.
pub fn read_u32(bytes: &[u8], is_little_endian: bool) -> (value: u32)
    requires
        bytes@.len() >= 4,
    ensures
        value as int == u32_value(bytes@, is_little_endian),
{
    if is_little_endian {
        little_endian_u32(bytes)
    } else {
        big_endian_u32(bytes)
    }
}

/// Reads a signed 64-bit number in the given byte order.
pub fn read_i64(bytes: &[u8], is_little_endian: bool) -> (value: i64)
    requires
        bytes@.len() >= 8,
    ensures
        value as int == i64_value(bytes@, is_little_endian),
{
    if is_little_endian {
        little_endian_i64(bytes)
    } else {
        big_endian_i64(bytes)
    }
}

/// Whether a byte ends a piece of text: a NUL does, and a space where the text is one word.
pub open spec fn ends_text(byte: u8, one_word: bool) -> bool {
    byte == 0 || (one_word && byte == 0x20)
}

/// The text that the bytes begin with: what comes before the first byte that ends it.
pub open spec fn leading_text(bytes: Seq<u8>, one_word: bool) -> Seq<u8>
    decreases bytes.len(),
{
    if bytes.len() == 0 || ends_text(bytes[0], one_word) {
        seq![]
    } else {
        seq![bytes[0]] + leading_text(bytes.skip(1), one_word)
    }
}

/// Text that stops at byte `len`, and not before, is the first `len` bytes.
pub proof fn lemma_leading_text(bytes: Seq<u8>, one_word: bool, len: int)
    requires
        0 <= len <= bytes.len(),
        forall|i: int| 0 <= i < len ==> !ends_text(#[trigger] bytes[i], one_word),
        len < bytes.len() ==> ends_text(bytes[len], one_word),
    ensures
        leading_text(bytes, one_word) == bytes.take(len),
    decreases len,
{
    if len == 0 {
        assert(bytes.take(0) =~= seq![]);
    } else {
        let rest = bytes.skip(1);
        assert forall|i: int| 0 <= i < len - 1 implies !ends_text(#[trigger] rest[i], one_word) by {
            assert(rest[i] == bytes[i + 1]);
        }
        lemma_leading_text(rest, one_word, len - 1);
        assert(bytes.take(len) =~= seq![bytes[0]] + rest.take(len - 1));
    }
}

/// No byte of a piece of text ends it.
pub proof fn lemma_leading_text_runs_on(bytes: Seq<u8>, one_word: bool)
    ensures
        forall|i: int|
            0 <= i < leading_text(bytes, one_word).len() ==> !ends_text(
                #[trigger] leading_text(bytes, one_word)[i],
                one_word,
            ),
    decreases bytes.len(),
{
    if bytes.len() > 0 && !ends_text(bytes[0], one_word) {
        let rest = leading_text(bytes.skip(1), one_word);
        lemma_leading_text_runs_on(bytes.skip(1), one_word);
        assert forall|i: int| 0 <= i < leading_text(bytes, one_word).len() implies !ends_text(
            #[trigger] leading_text(bytes, one_word)[i],
            one_word,
        ) by {
            if i > 0 {
                assert(leading_text(bytes, one_word)[i] == rest[i - 1]);
            }
        }
    }
}

/// Bytes without a NUL encode characters without a NUL, and some where there are some.
pub proof fn lemma_decoded_text(bytes: Seq<u8>)
    requires
        vstd::utf8::valid_utf8(bytes),
        forall|i: int| 0 <= i < bytes.len() ==> #[trigger] bytes[i] != 0,
    ensures
        bytes.len() > 0 ==> vstd::utf8::decode_utf8(bytes).len() > 0,
        forall|i: int|
            0 <= i < vstd::utf8::decode_utf8(bytes).len() ==> #[trigger] vstd::utf8::decode_utf8(
                bytes,
            )[i] != '\0',
    decreases bytes.len(),
{
    if bytes.len() > 0 {
        let first = vstd::utf8::decode_first_scalar(bytes) as char;
        let rest = vstd::utf8::pop_first_scalar(bytes);
        assert(first != '\0') by {
            vstd::utf8::decode_utf8_first_scalar(bytes);
            assert((0u32 & 0x7f) as u8 == 0) by (bit_vector);
            assert(vstd::utf8::take_first_scalar(bytes)[0] == bytes[0]);
            if first == '\0' {
                assert(vstd::utf8::encode_scalar(first as u32)[0] == 0);
            }
        }
        assert forall|i: int| 0 <= i < rest.len() implies #[trigger] rest[i] != 0 by {
            assert(rest[i] == bytes[i + vstd::utf8::length_of_first_scalar(bytes)]);
        }
        lemma_decoded_text(rest);
        let text = vstd::utf8::decode_utf8(bytes);
        assert forall|i: int| 0 <= i < text.len() implies #[trigger] text[i] != '\0' by {
            if i > 0 {
                assert(text[i] == vstd::utf8::decode_utf8(rest)[i - 1]);
            }
        }
    }
}

/// The length of the text that the bytes begin with.
pub fn leading_text_len(bytes: &[u8], one_word: bool) -> (len: usize)
    ensures
        len <= bytes@.len(),
        bytes@.take(len as int) == leading_text(bytes@, one_word),
        len == leading_text(bytes@, one_word).len(),
        forall|i: int| 0 <= i < len ==> !ends_text(#[trigger] bytes@[i], one_word),
        len < bytes@.len() ==> ends_text(bytes@[len as int], one_word),
{
    let mut len: usize = 0;
    while len < bytes.len() && !(bytes[len] == 0 || (one_word && bytes[len] == 0x20))
        invariant
            len <= bytes@.len(),
            forall|i: int| 0 <= i < len ==> !ends_text(#[trigger] bytes@[i], one_word),
        decreases bytes@.len() - len,
    {
        len += 1;
    }
    proof {
        lemma_leading_text(bytes@, one_word, len as int);
    }
    len
}

/// What `String::from_utf8_lossy` makes of bytes: each maximal invalid part becomes U+FFFD.
pub uninterp spec fn lossy_text(bytes: Seq<u8>) -> Seq<char>;

/// Calls `std::str::from_utf8`, which succeeds on well-formed UTF-8 alone and hands back the
/// characters that it encodes.
#[verifier::external_body]
pub(crate) fn utf8_text(bytes: &[u8]) -> (text: Option<&str>)
    ensures
        text is Some <==> vstd::utf8::valid_utf8(bytes@),
        text is Some ==> text->0@ == vstd::utf8::decode_utf8(bytes@),
{
    std::str::from_utf8(bytes).ok()
}

/// Calls `String::from_utf8_lossy`. Its result is a function of the bytes, and well-formed UTF-8
/// comes back unchanged.
#[verifier::external_body]
fn utf8_text_lossy(bytes: &[u8]) -> (text: String)
    ensures
        text@ == lossy_text(bytes@),
        vstd::utf8::valid_utf8(bytes@) ==> text@ == vstd::utf8::decode_utf8(bytes@),
{
    String::from_utf8_lossy(bytes).into_owned()
}

/// The characters that bytes stand for: those that they encode where they are well-formed UTF-8,
/// and a lossy reading of them where they are not.
pub open spec fn text_value(bytes: Seq<u8>) -> Seq<char> {
    if vstd::utf8::valid_utf8(bytes) {
        vstd::utf8::decode_utf8(bytes)
    } else {
        lossy_text(bytes)
    }
}

/// Reads bytes as text, replacing what is not UTF-8.
pub fn read_text(bytes: &[u8]) -> (text: String)
    ensures
        text@ == text_value(bytes@),
{
    match utf8_text(bytes) {
        Some(text) => text.to_owned(),
        None => utf8_text_lossy(bytes),
    }
}

} // verus!
