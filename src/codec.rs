//! The item-level CBOR operations that the bridges take from minicbor.
//!
//! Each function here makes one call into minicbor and states what its
//! source shows of that call. Writes go to a `Vec<u8>`, whose minicbor
//! sink never fails; reads start at a position in the input and report the
//! position after the item.
use vstd::prelude::*;
use minicbor::decode::Error as CborDecodeError;
use vstd::utf8::decode_utf8;
use minicbor::data::Type as T;
use minicbor::Decoder;
use minicbor::data::Type::{
    Array, ArrayIndef, Bool, Break, Bytes, BytesIndef, Int, MapIndef, Null, Simple, StringIndef,
    Tag, Undefined, Unknown, F16, F32, F64, I16, I32, I64, I8, U16, U32, U64, U8,
};
use crate::wire::WireType as W;
use crate::wire::{
    type_at,    bool_at, char_fits, container_head, container_len, definite_head, head, head_arg, head_end,
    i64_fits, int_at, payload, payload_end, string_fits, text_fits, text_item, BEGIN_ARRAY,
    BEGIN_MAP, BREAK, MAJOR_ARRAY, MAJOR_BYTES, MAJOR_MAP, MAJOR_NEGATIVE, MAJOR_UNSIGNED, NULL,
    UNDEFINED,
};

verus! {

/// minicbor's decode error, carried through as the source of a decode failure.
#[verifier::external_type_specification]
#[verifier::external_body]
pub struct ExDecodeError(CborDecodeError);

/// What `decode::Error::is_end_of_input` answers of an error: whether the input ended before the item did.
pub uninterp spec fn codec_end_of_input(e: CborDecodeError) -> bool;

/// Relies on `decode::Error::is_end_of_input`, which reads the error's kind alone.
pub assume_specification[ CborDecodeError::is_end_of_input ](e: &CborDecodeError) -> (r: bool)
    ensures
        r == codec_end_of_input(*e),
;

/// What `decode::Error::is_message` answers of an error: whether the decoder reported a message.
pub uninterp spec fn codec_message(e: CborDecodeError) -> bool;

/// Relies on `decode::Error::is_message`, which reads the error's kind alone.
pub assume_specification[ CborDecodeError::is_message ](e: &CborDecodeError) -> (r: bool)
    ensures
        r == codec_message(*e),
;

/// What `decode::Error::is_type_mismatch` answers of an error: whether the item was of another type.
pub uninterp spec fn codec_type_mismatch(e: CborDecodeError) -> bool;

/// Relies on `decode::Error::is_type_mismatch`, which reads the error's kind alone.
pub assume_specification[ CborDecodeError::is_type_mismatch ](e: &CborDecodeError) -> (r: bool)
    ensures
        r == codec_type_mismatch(*e),
;

/// What `decode::Error::is_unknown_variant` answers of an error: whether an unknown enum variant was met.
pub uninterp spec fn codec_unknown_variant(e: CborDecodeError) -> bool;

/// Relies on `decode::Error::is_unknown_variant`, which reads the error's kind alone.
pub assume_specification[ CborDecodeError::is_unknown_variant ](e: &CborDecodeError) -> (r: bool)
    ensures
        r == codec_unknown_variant(*e),
;

/// What `decode::Error::is_missing_value` answers of an error: whether a value was missing.
pub uninterp spec fn codec_missing_value(e: CborDecodeError) -> bool;

/// Relies on `decode::Error::is_missing_value`, which reads the error's kind alone.
pub assume_specification[ CborDecodeError::is_missing_value ](e: &CborDecodeError) -> (r: bool)
    ensures
        r == codec_missing_value(*e),
;

/// Relies on `Encoder::u64`: appends the shortest unsigned head of `x`.
#[verifier::external_body]
pub(crate) fn put_u64(out: &mut Vec<u8>, x: u64)
    ensures
        final(out)@ == old(out)@ + head(MAJOR_UNSIGNED, x),
{
    let _ = minicbor::Encoder::new(out).u64(x);
}

/// Relies on `Encoder::i64`: a non-negative `x` as an unsigned head, a
/// negative one as the negative head of `-1 - x`.
#[verifier::external_body]
pub(crate) fn put_i64(out: &mut Vec<u8>, x: i64)
    ensures
        x >= 0 ==> final(out)@ == old(out)@ + head(MAJOR_UNSIGNED, x as u64),
        x < 0 ==> final(out)@ == old(out)@ + head(MAJOR_NEGATIVE, (-1 - x) as u64),
{
    let _ = minicbor::Encoder::new(out).i64(x);
}

/// Relies on `Encoder::bool`: one byte, `0xf5` for true and `0xf4` for false.
#[verifier::external_body]
pub(crate) fn put_bool(out: &mut Vec<u8>, x: bool)
    ensures
        final(out)@ == old(out)@.push(if x { 0xf5u8 } else { 0xf4u8 }),
{
    let _ = minicbor::Encoder::new(out).bool(x);
}

/// Relies on `Encoder::null`: the one byte `0xf6`.
#[verifier::external_body]
pub(crate) fn put_null(out: &mut Vec<u8>)
    ensures
        final(out)@ == old(out)@.push(NULL),
{
    let _ = minicbor::Encoder::new(out).null();
}

/// Relies on `Encoder::char`: the unsigned head of the character's scalar value.
#[verifier::external_body]
pub(crate) fn put_char(out: &mut Vec<u8>, c: char)
    ensures
        final(out)@ == old(out)@ + head(MAJOR_UNSIGNED, c as u64),
{
    let _ = minicbor::Encoder::new(out).char(c);
}

/// Relies on `Encoder::str`: a text head with the UTF-8 length, then the UTF-8 bytes.
#[verifier::external_body]
pub(crate) fn put_str(out: &mut Vec<u8>, s: &str)
    ensures
        final(out)@ == old(out)@ + text_item(s@),
{
    let _ = minicbor::Encoder::new(out).str(s);
}

/// Relies on `Encoder::bytes`: a byte-string head with the length, then the bytes.
#[verifier::external_body]
pub(crate) fn put_bytes(out: &mut Vec<u8>, b: &[u8])
    ensures
        final(out)@ == old(out)@ + head(MAJOR_BYTES, b@.len() as u64) + b@,
{
    let _ = minicbor::Encoder::new(out).bytes(b);
}

/// Relies on `Encoder::array`: the head of a definite array of `n` items.
#[verifier::external_body]
pub(crate) fn put_array(out: &mut Vec<u8>, n: u64)
    ensures
        final(out)@ == old(out)@ + head(MAJOR_ARRAY, n),
{
    let _ = minicbor::Encoder::new(out).array(n);
}

/// Relies on `Encoder::map`: the head of a definite map of `n` entries.
#[verifier::external_body]
pub(crate) fn put_map(out: &mut Vec<u8>, n: u64)
    ensures
        final(out)@ == old(out)@ + head(MAJOR_MAP, n),
{
    let _ = minicbor::Encoder::new(out).map(n);
}

/// Relies on `Encoder::begin_array`: the one byte `0x9f`.
#[verifier::external_body]
pub(crate) fn put_begin_array(out: &mut Vec<u8>)
    ensures
        final(out)@ == old(out)@.push(BEGIN_ARRAY),
{
    let _ = minicbor::Encoder::new(out).begin_array();
}

/// Relies on `Encoder::begin_map`: the one byte `0xbf`.
#[verifier::external_body]
pub(crate) fn put_begin_map(out: &mut Vec<u8>)
    ensures
        final(out)@ == old(out)@.push(BEGIN_MAP),
{
    let _ = minicbor::Encoder::new(out).begin_map();
}

/// Relies on `Encoder::end`: the break code `0xff`.
#[verifier::external_body]
pub(crate) fn put_end(out: &mut Vec<u8>)
    ensures
        final(out)@ == old(out)@.push(BREAK),
{
    let _ = minicbor::Encoder::new(out).end();
}

/// Relies on `Decoder::datatype`: the type of the item at `pos`, which
/// stays unread; it fails only where the input ends before the bytes that
/// decide the type.
#[verifier::external_body]
pub(crate) fn peek_datatype(data: &[u8], pos: usize) -> (r: Option<W>)
    ensures
        r == type_at(data@, pos as int),
{
    Some(match Decoder::new(data.get(pos..)?).datatype().ok()? {
        Bool => W::Bool, Null => W::Null, Undefined => W::Undefined, U8 => W::U8, U16 => W::U16,
        U32 => W::U32, U64 => W::U64, I8 => W::I8, I16 => W::I16, I32 => W::I32, I64 => W::I64,
        Int => W::Int, F16 => W::F16, F32 => W::F32, F64 => W::F64, Simple => W::Simple,
        Bytes => W::Bytes, BytesIndef => W::BytesIndef, T::String => W::String,
        StringIndef => W::StringIndef, Array => W::Array, ArrayIndef => W::ArrayIndef,
        T::Map => W::Mapping, MapIndef => W::MappingIndef, Tag => W::Tag, Break => W::Break,
        Unknown(b) => W::Unknown(b),
    })
}

/// Relies on `Decoder::u64`: an unsigned integer with a definite head.
#[verifier::external_body]
pub(crate) fn take_u64(data: &[u8], pos: usize) -> (r: Result<(u64, usize), CborDecodeError>)
    ensures
        r is Ok <==> definite_head(data@, pos as int, 0),
        r is Ok ==> r->Ok_0.0 as nat == head_arg(data@, pos as int),
        r is Ok ==> r->Ok_0.1 as int == head_end(data@, pos as int),
{
    let mut d = minicbor::Decoder::new(data);
    d.set_position(pos);
    let v = d.u64()?;
    Ok((v, d.position()))
}

/// Relies on `Decoder::i64`: an unsigned or negative integer that fits in `i64`.
#[verifier::external_body]
pub(crate) fn take_i64(data: &[u8], pos: usize) -> (r: Result<(i64, usize), CborDecodeError>)
    ensures
        r is Ok <==> i64_fits(data@, pos as int),
        r is Ok ==> r->Ok_0.0 as int == int_at(data@, pos as int),
        r is Ok ==> r->Ok_0.1 as int == head_end(data@, pos as int),
{
    let mut d = minicbor::Decoder::new(data);
    d.set_position(pos);
    let v = d.i64()?;
    Ok((v, d.position()))
}

/// Relies on `Decoder::bool`: the bytes `0xf4` and `0xf5`.
#[verifier::external_body]
pub(crate) fn take_bool(data: &[u8], pos: usize) -> (r: Result<(bool, usize), CborDecodeError>)
    ensures
        r is Ok <==> bool_at(data@, pos as int),
        r is Ok ==> r->Ok_0.0 == (data@[pos as int] == 0xf5),
        r is Ok ==> r->Ok_0.1 == pos + 1,
{
    let mut d = minicbor::Decoder::new(data);
    d.set_position(pos);
    let v = d.bool()?;
    Ok((v, d.position()))
}

/// Relies on `Decoder::char`: an unsigned integer that is a Unicode scalar value.
#[verifier::external_body]
pub(crate) fn take_char(data: &[u8], pos: usize) -> (r: Result<(char, usize), CborDecodeError>)
    ensures
        r is Ok <==> char_fits(data@, pos as int),
        r is Ok ==> r->Ok_0.0 as nat == head_arg(data@, pos as int),
        r is Ok ==> r->Ok_0.1 as int == head_end(data@, pos as int),
{
    let mut d = minicbor::Decoder::new(data);
    d.set_position(pos);
    let v = d.char()?;
    Ok((v, d.position()))
}

/// Relies on `Decoder::bytes`: a definite byte string, borrowed from the input.
#[verifier::external_body]
pub(crate) fn take_bytes<'a>(data: &'a [u8], pos: usize) -> (r: Result<
    (&'a [u8], usize),
    CborDecodeError,
>)
    ensures
        r is Ok <==> string_fits(data@, pos as int, 2),
        r is Ok ==> r->Ok_0.0@ == payload(data@, pos as int),
        r is Ok ==> r->Ok_0.1 as int == payload_end(data@, pos as int),
{
    let mut d = minicbor::Decoder::new(data);
    d.set_position(pos);
    let v = d.bytes()?;
    Ok((v, d.position()))
}

/// Relies on `Decoder::str`: a definite text string of valid UTF-8, borrowed from the input.
#[verifier::external_body]
pub(crate) fn take_str<'a>(data: &'a [u8], pos: usize) -> (r: Result<
    (&'a str, usize),
    CborDecodeError,
>)
    ensures
        r is Ok <==> text_fits(data@, pos as int),
        r is Ok ==> r->Ok_0.0@ == decode_utf8(payload(data@, pos as int)),
        r is Ok ==> r->Ok_0.1 as int == payload_end(data@, pos as int),
{
    let mut d = minicbor::Decoder::new(data);
    d.set_position(pos);
    let v = d.str()?;
    Ok((v, d.position()))
}

/// Relies on `Decoder::array`: an array head, with `None` for an indefinite length.
#[verifier::external_body]
pub(crate) fn take_array(data: &[u8], pos: usize) -> (r: Result<
    (Option<u64>, usize),
    CborDecodeError,
>)
    ensures
        r is Ok <==> container_head(data@, pos as int, 4),
        r is Ok ==> r->Ok_0.0 == container_len(data@, pos as int),
        r is Ok ==> r->Ok_0.1 as int == head_end(data@, pos as int),
{
    let mut d = minicbor::Decoder::new(data);
    d.set_position(pos);
    let v = d.array()?;
    Ok((v, d.position()))
}

/// Relies on `Decoder::map`: a map head, with `None` for an indefinite length.
#[verifier::external_body]
pub(crate) fn take_map(data: &[u8], pos: usize) -> (r: Result<
    (Option<u64>, usize),
    CborDecodeError,
>)
    ensures
        r is Ok <==> container_head(data@, pos as int, 5),
        r is Ok ==> r->Ok_0.0 == container_len(data@, pos as int),
        r is Ok ==> r->Ok_0.1 as int == head_end(data@, pos as int),
{
    let mut d = minicbor::Decoder::new(data);
    d.set_position(pos);
    let v = d.map()?;
    Ok((v, d.position()))
}

/// Relies on `Decoder::skip`, used here on a one-byte `null` or `undefined`.
#[verifier::external_body]
pub(crate) fn skip_one(data: &[u8], pos: usize) -> (r: Result<usize, CborDecodeError>)
    requires
        pos < data@.len(),
        data@[pos as int] == NULL || data@[pos as int] == UNDEFINED,
    ensures
        r is Ok,
        r is Ok ==> r->Ok_0 == pos + 1,
{
    let mut d = minicbor::Decoder::new(data);
    d.set_position(pos);
    d.skip()?;
    Ok(d.position())
}

} // verus!
