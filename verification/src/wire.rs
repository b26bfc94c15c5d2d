//! The byte layout of the values inside a message, as bebop writes and reads
//! them: numbers low byte first, text and byte strings behind a length of four
//! bytes.

use crate::error::AtomicWebsocketError;
use bebop::{DeserializeError, SerializeError, SliceWrapper, SubRecord};
use vstd::prelude::*;
use vstd::utf8::*;

verus! {

#[verifier::external_type_specification]
#[verifier::external_body]
pub struct ExSerializeError(SerializeError);

/// The two bytes of `n`, low byte first.
pub open spec fn le16(n: u16) -> Seq<u8> {
    seq![(n % 256) as u8, (n / 256) as u8]
}

/// The number that the first two bytes hold.
#[verifier::opaque]
pub open spec fn le16_value(bytes: Seq<u8>) -> u16 {
    (bytes[0] + 256 * bytes[1]) as u16
}

/// The four bytes of `n`, low byte first.
pub open spec fn le32(n: u32) -> Seq<u8> {
    seq![
        (n % 256) as u8,
        (n / 256 % 256) as u8,
        (n / 65536 % 256) as u8,
        (n / 16777216) as u8,
    ]
}

/// The number that the first four bytes hold.
#[verifier::opaque]
pub open spec fn le32_value(bytes: Seq<u8>) -> u32 {
    (bytes[0] + 256 * bytes[1] + 65536 * bytes[2] + 16777216 * bytes[3]) as u32
}

/// A byte string behind its length.
pub open spec fn framed(bytes: Seq<u8>) -> Seq<u8> {
    le32(bytes.len() as u32) + bytes
}

/// Whether a byte string is short enough to be framed.
pub open spec fn fits_frame(bytes: Seq<u8>) -> bool {
    bytes.len() <= u32::MAX
}

/// Whether `raw` begins with a whole frame.
pub open spec fn has_frame(raw: Seq<u8>) -> bool {
    raw.len() >= 4 && 4 + le32_value(raw) <= raw.len()
}

/// What the frame at the front of `raw` holds.
pub open spec fn frame_content(raw: Seq<u8>) -> Seq<u8> {
    raw.subrange(4, 4 + le32_value(raw) as int)
}

/// What follows the frame at the front of `raw`.
pub open spec fn after_frame(raw: Seq<u8>) -> Seq<u8> {
    raw.skip(4 + le32_value(raw) as int)
}

/// The bytes of a text behind their length.
pub open spec fn framed_text(text: Seq<char>) -> Seq<u8> {
    framed(encode_utf8(text))
}

/// Whether a text is short enough to be framed.
pub open spec fn text_fits(text: Seq<char>) -> bool {
    fits_frame(encode_utf8(text))
}

/// Whether `raw` begins with a whole frame of well-formed UTF-8.
pub open spec fn has_text(raw: Seq<u8>) -> bool {
    has_frame(raw) && valid_utf8(frame_content(raw))
}

/// The text in the frame at the front of `raw`.
pub open spec fn text_of(raw: Seq<u8>) -> Seq<char> {
    decode_utf8(frame_content(raw))
}

/// `bebop`'s `<&str>::_serialize_chained`: appends the framed text and returns
/// how many bytes that took. A text over four gigabytes is refused before
/// anything is written.
#[verifier::external_body]
pub(crate) fn write_text(text: &str, out: &mut Vec<u8>) -> (r: Result<usize, SerializeError>)
    ensures
        r is Ok <==> text_fits(text@),
        r matches Ok(n) ==> n == framed_text(text@).len(),
        r is Ok ==> final(out)@ == old(out)@ + framed_text(text@),
        r is Err ==> final(out)@ == old(out)@,
{
    text._serialize_chained(out)
}

/// `bebop`'s `SliceWrapper<u8>::_serialize_chained` on raw bytes: appends the
/// framed bytes and returns how many bytes that took. A byte string over four
/// gigabytes is refused before anything is written.
#[verifier::external_body]
pub(crate) fn write_bytes(bytes: &[u8], out: &mut Vec<u8>) -> (r: Result<usize, SerializeError>)
    ensures
        r is Ok <==> fits_frame(bytes@),
        r matches Ok(n) ==> n == framed(bytes@).len(),
        r is Ok ==> final(out)@ == old(out)@ + framed(bytes@),
        r is Err ==> final(out)@ == old(out)@,
{
    SliceWrapper::<u8>::from_raw(bytes)._serialize_chained(out)
}

/// `bebop`'s `u16::_serialize_chained`: appends the two bytes of the number.
#[verifier::external_body]
pub(crate) fn write_u16(n: u16, out: &mut Vec<u8>) -> (r: Result<usize, SerializeError>)
    ensures
        r is Ok && r->Ok_0 == 2,
        final(out)@ == old(out)@ + le16(n),
{
    n._serialize_chained(out)
}

/// `bebop`'s `u32::_serialize_chained`: appends the four bytes of the number.
#[verifier::external_body]
pub(crate) fn write_u32(n: u32, out: &mut Vec<u8>) -> (r: Result<usize, SerializeError>)
    ensures
        r is Ok && r->Ok_0 == 4,
        final(out)@ == old(out)@ + le32(n),
{
    n._serialize_chained(out)
}

/// `bebop`'s `bool::_serialize_chained`: appends one byte, 1 for true and 0
/// for false.
#[verifier::external_body]
pub(crate) fn write_bool(b: bool, out: &mut Vec<u8>) -> (r: Result<usize, SerializeError>)
    ensures
        r is Ok && r->Ok_0 == 1,
        final(out)@ == old(out)@.push(if b { 1u8 } else { 0u8 }),
{
    b._serialize_chained(out)
}

/// `bebop`'s `<&str>::_deserialize_chained`: the text in the frame at the
/// front and how many bytes it took. It adds four to the stored length, so
/// that sum has to be a `usize`.
#[verifier::external_body]
pub(crate) fn read_text<'a>(raw: &'a [u8]) -> (r: Result<(usize, &'a str), DeserializeError>)
    requires
        raw@.len() >= 4 ==> 4 + le32_value(raw@) <= usize::MAX,
    ensures
        r is Ok <==> has_text(raw@),
        r matches Ok((n, text)) ==> n == 4 + le32_value(raw@) && text@ == text_of(raw@),
{
    <&'a str>::_deserialize_chained(raw)
}

/// `bebop`'s `SliceWrapper<u8>::_deserialize_chained`: the bytes in the frame
/// at the front and how many bytes it took. It adds four to the stored length,
/// so that sum has to be a `usize`.
#[verifier::external_body]
pub(crate) fn read_bytes<'a>(raw: &'a [u8]) -> (r: Result<(usize, &'a [u8]), DeserializeError>)
    requires
        raw@.len() >= 4 ==> 4 + le32_value(raw@) <= usize::MAX,
    ensures
        r is Ok <==> has_frame(raw@),
        r matches Ok((n, bytes)) ==> n == 4 + le32_value(raw@) && bytes@ == frame_content(raw@),
{
    SliceWrapper::<'a, u8>::_deserialize_chained(raw).map(|read| (read.0, *read.1))
}

/// `bebop`'s `u16::_deserialize_chained`: the number in the first two bytes.
#[verifier::external_body]
pub(crate) fn read_u16(raw: &[u8]) -> (r: Result<(usize, u16), DeserializeError>)
    ensures
        r is Ok <==> raw@.len() >= 2,
        r matches Ok((k, n)) ==> k == 2 && n == le16_value(raw@),
{
    u16::_deserialize_chained(raw)
}

/// `bebop`'s `u32::_deserialize_chained`: the number in the first four bytes.
#[verifier::external_body]
pub(crate) fn read_u32(raw: &[u8]) -> (r: Result<(usize, u32), DeserializeError>)
    ensures
        r is Ok <==> raw@.len() >= 4,
        r matches Ok((k, n)) ==> k == 4 && n == le32_value(raw@),
{
    u32::_deserialize_chained(raw)
}

/// `bebop`'s `bool::_deserialize_chained`: whether the first byte is above
/// zero.
#[verifier::external_body]
pub(crate) fn read_bool(raw: &[u8]) -> (r: Result<(usize, bool), DeserializeError>)
    ensures
        r is Ok <==> raw@.len() >= 1,
        r matches Ok((k, b)) ==> k == 1 && b == (raw@[0] > 0),
{
    bool::_deserialize_chained(raw)
}

/// What comes back where a frame claims more bytes than a `usize` can count.
fn oversized_frame() -> (e: AtomicWebsocketError)
    ensures
        e matches AtomicWebsocketError::Serialization(text) && text@
            == "frame length out of range"@,
{
    AtomicWebsocketError::Serialization("frame length out of range".to_owned())
}

/// Whether four more than the length in the first four bytes, if they are
/// there, can be counted in a `usize`.
fn frame_countable(raw: &[u8]) -> (b: bool)
    ensures
        b == (raw@.len() >= 4 ==> 4 + le32_value(raw@) <= usize::MAX),
        !b ==> !has_frame(raw@),
{
    let available: usize = raw.len();
    assert(available == raw@.len());
    match read_u32(raw) {
        Ok((_, n)) => n as u64 + 4 <= usize::MAX as u64,
        Err(_) => true,
    }
}

/// Reads the text at the front of `raw` and returns what follows it.
pub fn take_text<'a>(raw: &'a [u8]) -> (r: Result<(&'a str, &'a [u8]), AtomicWebsocketError>)
    ensures
        r is Ok <==> has_text(raw@),
        r matches Ok((text, rest)) ==> text@ == text_of(raw@) && rest@ == after_frame(raw@),
        r matches Err(e) ==> e is Serialization,
{
    if !frame_countable(raw) {
        return Err(oversized_frame());
    }
    match read_text(raw) {
        Ok((n, text)) => Ok((text, vstd::slice::slice_subrange(raw, n, raw.len()))),
        Err(e) => Err(AtomicWebsocketError::from(e)),
    }
}

/// Reads the byte string at the front of `raw` and returns what follows it.
pub fn take_bytes<'a>(raw: &'a [u8]) -> (r: Result<(&'a [u8], &'a [u8]), AtomicWebsocketError>)
    ensures
        r is Ok <==> has_frame(raw@),
        r matches Ok((bytes, rest)) ==> bytes@ == frame_content(raw@) && rest@ == after_frame(raw@),
        r matches Err(e) ==> e is Serialization,
{
    if !frame_countable(raw) {
        return Err(oversized_frame());
    }
    match read_bytes(raw) {
        Ok((n, bytes)) => Ok((bytes, vstd::slice::slice_subrange(raw, n, raw.len()))),
        Err(e) => Err(AtomicWebsocketError::from(e)),
    }
}

/// Reading gives back the number that was written, whatever follows it.
pub proof fn lemma_le16_round_trip(n: u16, rest: Seq<u8>)
    ensures
        le16_value(le16(n) + rest) == n,
        (le16(n) + rest).skip(2) == rest,
{
    reveal(le16_value);
    assert((le16(n) + rest).skip(2) =~= rest);
}

/// Reading gives back the number that was written, whatever follows it.
pub proof fn lemma_le32_round_trip(n: u32, rest: Seq<u8>)
    ensures
        le32_value(le32(n) + rest) == n,
        (le32(n) + rest).skip(4) == rest,
{
    reveal(le32_value);
    assert((le32(n) + rest).skip(4) =~= rest);
}

/// Reading a frame gives back the bytes that were framed, whatever follows.
pub proof fn lemma_frame_round_trip(bytes: Seq<u8>, rest: Seq<u8>)
    requires
        fits_frame(bytes),
    ensures
        has_frame(framed(bytes) + rest),
        frame_content(framed(bytes) + rest) == bytes,
        after_frame(framed(bytes) + rest) == rest,
{
    let raw = framed(bytes) + rest;
    let n = bytes.len() as u32;
    assert(raw =~= le32(n) + (bytes + rest));
    lemma_le32_round_trip(n, bytes + rest);
    assert(frame_content(raw) =~= bytes);
    assert(after_frame(raw) =~= rest);
}

/// Reading a text gives back the text that was written, whatever follows.
pub proof fn lemma_text_round_trip(text: Seq<char>, rest: Seq<u8>)
    requires
        text_fits(text),
    ensures
        has_text(framed_text(text) + rest),
        text_of(framed_text(text) + rest) == text,
        after_frame(framed_text(text) + rest) == rest,
{
    lemma_frame_round_trip(encode_utf8(text), rest);
    encode_utf8_valid_utf8(text);
    encode_utf8_decode_utf8(text);
}

/// A part of a text takes no more bytes than the whole.
pub proof fn lemma_part_is_no_longer(text: Seq<char>, from: int, to: int)
    requires
        0 <= from <= to <= text.len(),
    ensures
        encode_utf8(text.subrange(from, to)).len() <= encode_utf8(text).len(),
        text_fits(text) ==> text_fits(text.subrange(from, to)),
    decreases text.len(),
{
    let part = text.subrange(from, to);
    if from < to {
        let rest = text.drop_first();
        if from > 0 {
            assert(part =~= rest.subrange(from - 1, to - 1));
            lemma_part_is_no_longer(rest, from - 1, to - 1);
        } else {
            assert(part.drop_first() =~= rest.subrange(0, to - 1));
            lemma_part_is_no_longer(rest, 0, to - 1);
        }
    }
}

/// The empty text is short enough for any frame.
pub proof fn lemma_empty_fits()
    ensures
        text_fits(Seq::empty()),
{
    assert(encode_utf8(Seq::<char>::empty()).len() == 0);
}

} // verus!
