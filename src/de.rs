//! The decode bridge: CBOR items become data-model visits.
//!
//! The caller asks for a kind of value; the bridge peeks the next item,
//! checks that it fits, reads it and moves on. Containers hand out access
//! steps (`SeqAccess`, `MapAccess`, `EnumForm`) that say whether another
//! element follows; the nesting depth goes up on entering one and down on
//! leaving it. A byte string read as a sequence yields its bytes one by
//! one through a pending-byte slot that the next `u8` read takes.
use vstd::prelude::*;
use crate::codec::{
    peek_datatype, take_array, take_bool, take_bytes, take_char, take_i64, take_map, take_str, take_u64, skip_one,
};
pub use crate::error::de::Error;
use crate::error::de::{make_kind_err, type_mismatch, ErrorKind};
use crate::wire::{
    definite_head, head_at, is_int_at, is_scalar_value, read_head,    char_fits, container_head, container_len, head_arg, head_end, i64_fits, int_at,
    payload, payload_end, string_fits, text_fits, type_at, uint_fits, bool_at, WireType,
};
use vstd::utf8::{decode_utf8, valid_utf8};
use minicbor::decode::Error as CborDecodeError;
use crate::Config;

verus! {

/// What a `Deserializer` holds: the input, the position of the next item,
/// the nesting depth, the flatten switch and the pending byte of a byte
/// string read as a sequence.
pub ghost struct DeView {
    pub data: Seq<u8>,
    pub pos: int,
    pub depth: nat,
    pub flatten_top: bool,
    pub vec_bytes: Option<u8>,
}

impl DeView {
    /// The same state with the next item at `p`.
    pub open spec fn at(self, p: int) -> DeView {
        DeView { pos: p, ..self }
    }

    /// The same state at another depth.
    pub open spec fn at_depth(self, d: nat) -> DeView {
        DeView { depth: d, ..self }
    }

    /// The same state with another pending byte.
    pub open spec fn pending(self, b: Option<u8>) -> DeView {
        DeView { vec_bytes: b, ..self }
    }

    /// The type of the next item.
    pub open spec fn next_type(self) -> Option<WireType> {
        type_at(self.data, self.pos)
    }

    /// A sequence opened now, on an item that is no array, is the bare
    /// outermost run.
    pub open spec fn flattens(self) -> bool {
        self.depth == 0 && self.flatten_top
    }
}

/// The decode bridge over an input slice that it borrows.
pub struct Deserializer<'d> {
    data: &'d [u8],
    pos: usize,
    depth: u32,
    flatten_top: bool,
    vec_bytes: Option<u8>,
}

impl<'d> View for Deserializer<'d> {
    type V = DeView;

    closed spec fn view(&self) -> DeView {
        DeView {
            data: self.data@,
            pos: self.pos as int,
            depth: self.depth as nat,
            flatten_top: self.flatten_top,
            vec_bytes: self.vec_bytes,
        }
    }
}

/// The path that type dispatch takes for an item of type `t`, where the
/// item is of a type that a value can be read from.
#[derive(Debug, Clone, Copy, PartialEq, Eq, Structural)]
pub enum Dispatch {
    Bool,
    Optional,
    Unit,
    U8,
    U16,
    U32,
    U64,
    I8,
    I16,
    I32,
    I64,
    F32,
    F64,
    Bytes,
    Str,
    Sequence,
    Mapping,
}

/// The dispatch path of each type; `None` for a type that no value is read
/// from (half floats, simple values, tags, a stray break, unknown bytes,
/// integers beyond 64 bits).
pub open spec fn dispatch(t: WireType) -> Option<Dispatch> {
    match t {
        WireType::Bool => Some(Dispatch::Bool),
        WireType::Null => Some(Dispatch::Optional),
        WireType::Undefined => Some(Dispatch::Unit),
        WireType::U8 => Some(Dispatch::U8),
        WireType::U16 => Some(Dispatch::U16),
        WireType::U32 => Some(Dispatch::U32),
        WireType::U64 => Some(Dispatch::U64),
        WireType::I8 => Some(Dispatch::I8),
        WireType::I16 => Some(Dispatch::I16),
        WireType::I32 => Some(Dispatch::I32),
        WireType::I64 => Some(Dispatch::I64),
        WireType::F32 => Some(Dispatch::F32),
        WireType::F64 => Some(Dispatch::F64),
        WireType::Bytes => Some(Dispatch::Bytes),
        WireType::BytesIndef => Some(Dispatch::Bytes),
        WireType::String => Some(Dispatch::Str),
        WireType::StringIndef => Some(Dispatch::Str),
        WireType::Array => Some(Dispatch::Sequence),
        WireType::ArrayIndef => Some(Dispatch::Sequence),
        WireType::Mapping => Some(Dispatch::Mapping),
        WireType::MappingIndef => Some(Dispatch::Mapping),
        _ => None,
    }
}

/// The item is an array head, definite or indefinite.
pub open spec fn is_array_type(t: WireType) -> bool {
    t == WireType::Array || t == WireType::ArrayIndef
}

/// The item is a map head, definite or indefinite.
pub open spec fn is_map_type(t: WireType) -> bool {
    t == WireType::Mapping || t == WireType::MappingIndef
}

/// The item stands for an absent value or a unit.
pub open spec fn is_null_type(t: WireType) -> bool {
    t == WireType::Null || t == WireType::Undefined
}

/// The error for an input that ends before the next item.
fn end_of_input() -> (r: Error)
    ensures
        r.kind == ErrorKind::EndOfInput,
        r.source is None,
{
    make_kind_err(ErrorKind::EndOfInput, "End of input.")
}

impl<'d> Deserializer<'d> {
    /// A decoder at the start of `data`, with no flattening.
    pub fn new(data: &'d [u8]) -> (r: Deserializer<'d>)
        ensures
            r@ == (DeView {
                data: data@,
                pos: 0,
                depth: 0,
                flatten_top: false,
                vec_bytes: None,
            }),
    {
        Deserializer { data, pos: 0, depth: 0, flatten_top: false, vec_bytes: None }
    }

    /// A decoder at the start of `data`, configured by `cfg`.
    pub fn new_with_config(data: &'d [u8], cfg: Config) -> (r: Deserializer<'d>)
        ensures
            r@ == (DeView {
                data: data@,
                pos: 0,
                depth: 0,
                flatten_top: cfg.top_flatten,
                vec_bytes: None,
            }),
    {
        Deserializer { data, pos: 0, depth: 0, flatten_top: cfg.top_flatten, vec_bytes: None }
    }

    /// The input.
    pub fn input(&self) -> (r: &'d [u8])
        ensures
            r@ == self@.data,
    {
        self.data
    }

    /// The position of the next item.
    pub fn position(&self) -> (r: usize)
        ensures
            r as int == self@.pos,
    {
        self.pos
    }

    /// Moves to the item at `pos`, for an item read by other means.
    pub fn set_position(&mut self, pos: usize)
        ensures
            final(self)@ == old(self)@.at(pos as int),
    {
        self.pos = pos;
    }

    /// The nesting depth.
    pub fn depth(&self) -> (r: u32)
        ensures
            r as nat == self@.depth,
    {
        self.depth
    }

    /// The type of the next item, which stays unread.
    pub fn peek_type(&self) -> (r: Result<WireType, Error>)
        ensures
            self@.next_type() is Some ==> r == Ok::<WireType, Error>(self@.next_type()->Some_0),
            self@.next_type() is None ==> r is Err && r->Err_0.kind == ErrorKind::EndOfInput,
    {
        match peek_datatype(self.data, self.pos) {
            Some(t) => Ok(t),
            None => Err(end_of_input()),
        }
    }

    /// Tags are not supported.
    pub fn deserialize_tag(&mut self) -> (r: Result<(), Error>)
        ensures
            r is Err,
            r->Err_0.kind == ErrorKind::TypeMismatch(Some(WireType::Tag)),
            final(self)@ == old(self)@,
    {
        Err(type_mismatch(WireType::Tag, "this type is not currently supported."))
    }

    /// Moves the depth counter by `delta`. Going below zero is refused as
    /// an end of input, going beyond the counter as an overflow; either
    /// way the counter stays as it was.
    pub fn depth_add(&mut self, delta: i32) -> (r: Result<(), Error>)
        ensures
            old(self)@.depth + delta < 0 ==> r is Err && r->Err_0.kind == ErrorKind::EndOfInput,
            old(self)@.depth + delta > u32::MAX ==> r is Err && r->Err_0.kind == ErrorKind::Overflow,
            0 <= old(self)@.depth + delta <= u32::MAX ==> r is Ok,
            r is Ok ==> final(self)@ == old(self)@.at_depth((old(self)@.depth + delta) as nat),
            r is Err ==> final(self)@ == old(self)@,
    {
        let m: i64 = self.depth as i64 + delta as i64;
        if m < 0 {
            return Err(make_kind_err(ErrorKind::EndOfInput, "End of input."));
        }
        if m > u32::MAX as i64 {
            return Err(make_kind_err(ErrorKind::Overflow, "nesting depth exceeds the depth counter"));
        }
        self.depth = m as u32;
        Ok(())
    }
}

/// How a reader of an unsigned integer no larger than `max` fails at `p`:
/// end of input where the head is cut short, a type mismatch where the
/// item is no unsigned integer, an overflow where it is too large.
pub open spec fn uint_failure(d: Seq<u8>, p: int, max: nat, k: ErrorKind) -> bool {
    &&& read_head(d, p) is None ==> k == ErrorKind::EndOfInput
    &&& read_head(d, p) is Some && !definite_head(d, p, 0) ==> k == ErrorKind::TypeMismatch(
        type_at(d, p),
    )
    &&& definite_head(d, p, 0) && head_arg(d, p) > max ==> k == ErrorKind::Overflow
}

/// How a reader of an integer within `lo..=hi` fails at `p`.
pub open spec fn int_failure(d: Seq<u8>, p: int, lo: int, hi: int, k: ErrorKind) -> bool {
    &&& read_head(d, p) is None ==> k == ErrorKind::EndOfInput
    &&& read_head(d, p) is Some && !is_int_at(d, p) ==> k == ErrorKind::TypeMismatch(
        type_at(d, p),
    )
    &&& is_int_at(d, p) && !(lo <= int_at(d, p) <= hi) ==> k == ErrorKind::Overflow
}

/// How a reader of a character fails at `p`: as an unsigned reader of
/// 32 bits, or with an invalid character where the number is no Unicode
/// scalar value.
pub open spec fn char_failure(d: Seq<u8>, p: int, k: ErrorKind) -> bool {
    &&& uint_failure(d, p, 0xffff_ffff, k)
    &&& uint_fits(d, p, 0xffff_ffff) && !is_scalar_value(head_arg(d, p)) ==> k
        == ErrorKind::InvalidChar
}

/// How a reader of a definite string of major type `major` fails at `p`:
/// end of input where the head or the payload is cut short, a type
/// mismatch where the item is of another type, and for text, invalid
/// UTF-8.
pub open spec fn string_failure(d: Seq<u8>, p: int, major: nat, k: ErrorKind) -> bool {
    &&& read_head(d, p) is None ==> k == ErrorKind::EndOfInput
    &&& read_head(d, p) is Some && !definite_head(d, p, major) ==> k == ErrorKind::TypeMismatch(
        type_at(d, p),
    )
    &&& definite_head(d, p, major) && !string_fits(d, p, major) ==> k == ErrorKind::EndOfInput
    &&& major == 3 && string_fits(d, p, 3) && !valid_utf8(payload(d, p)) ==> k == ErrorKind::Utf8
}

/// How a reader of a boolean fails at `p`.
pub open spec fn bool_failure(d: Seq<u8>, p: int, k: ErrorKind) -> bool {
    &&& type_at(d, p) is None ==> k == ErrorKind::EndOfInput
    &&& type_at(d, p) is Some && !bool_at(d, p) ==> k == ErrorKind::TypeMismatch(type_at(d, p))
}

/// The error for an integer beyond the range of its target.
fn overflow() -> (r: Error)
    ensures
        r.kind == ErrorKind::Overflow,
        r.source is None,
{
    make_kind_err(ErrorKind::Overflow, "integer out of the target's range")
}

impl<'d> Deserializer<'d> {
    /// Type dispatch: the path for the next item, which stays unread. A
    /// pending byte of a byte string read as a sequence is a `u8`.
    pub fn deserialize_any(&self) -> (r: Result<Dispatch, Error>)
        ensures
            self@.vec_bytes is Some ==> r == Ok::<Dispatch, Error>(Dispatch::U8),
            self@.vec_bytes is None && self@.next_type() is None ==> r is Err && r->Err_0.kind
                == ErrorKind::EndOfInput,
            self@.vec_bytes is None && self@.next_type() is Some && dispatch(
                self@.next_type()->Some_0,
            ) is Some ==> r == Ok::<Dispatch, Error>(dispatch(self@.next_type()->Some_0)->Some_0),
            self@.vec_bytes is None && self@.next_type() is Some && dispatch(
                self@.next_type()->Some_0,
            ) is None ==> r is Err && r->Err_0.kind == ErrorKind::TypeMismatch(self@.next_type()),
    {
        if self.vec_bytes.is_some() {
            return Ok(Dispatch::U8);
        }
        let t = self.peek_type()?;
        match t {
            WireType::Bool => Ok(Dispatch::Bool),
            WireType::Null => Ok(Dispatch::Optional),
            WireType::Undefined => Ok(Dispatch::Unit),
            WireType::U8 => Ok(Dispatch::U8),
            WireType::U16 => Ok(Dispatch::U16),
            WireType::U32 => Ok(Dispatch::U32),
            WireType::U64 => Ok(Dispatch::U64),
            WireType::I8 => Ok(Dispatch::I8),
            WireType::I16 => Ok(Dispatch::I16),
            WireType::I32 => Ok(Dispatch::I32),
            WireType::I64 => Ok(Dispatch::I64),
            WireType::F16 => Err(type_mismatch(t, "rust doesn't support this type")),
            WireType::F32 => Ok(Dispatch::F32),
            WireType::F64 => Ok(Dispatch::F64),
            WireType::Simple => Err(type_mismatch(t, "rust doesn't support this type")),
            WireType::Bytes => Ok(Dispatch::Bytes),
            WireType::BytesIndef => Ok(Dispatch::Bytes),
            WireType::String => Ok(Dispatch::Str),
            WireType::StringIndef => Ok(Dispatch::Str),
            WireType::Array => Ok(Dispatch::Sequence),
            WireType::ArrayIndef => Ok(Dispatch::Sequence),
            WireType::Mapping => Ok(Dispatch::Mapping),
            WireType::MappingIndef => Ok(Dispatch::Mapping),
            WireType::Tag => Err(type_mismatch(t, "this type is not currently supported.")),
            WireType::Break => Err(
                type_mismatch(t, "break stop code outside indefinite length item"),
            ),
            WireType::Int => Err(type_mismatch(t, "integer beyond 64 bits")),
            WireType::Unknown(_) => Err(type_mismatch(t, "rust doesn't support this type")),
        }
    }

    pub fn deserialize_bool(&mut self) -> (r: Result<bool, Error>)
        ensures
            r is Ok <==> bool_at(old(self)@.data, old(self)@.pos),
            r is Ok ==> r->Ok_0 == (old(self)@.data[old(self)@.pos] == 0xf5),
            r is Ok ==> final(self)@ == old(self)@.at(old(self)@.pos + 1),
            r is Err ==> final(self)@ == old(self)@,
            r is Err ==> bool_failure(old(self)@.data, old(self)@.pos, r->Err_0.kind),
    {
        match take_bool(self.data, self.pos) {
            Ok((v, p)) => {
                self.pos = p;
                Ok(v)
            },
            Err(_) => match peek_datatype(self.data, self.pos) {
                Some(t) => Err(type_mismatch(t, "expected bool")),
                None => Err(end_of_input()),
            },
        }
    }

    /// The error of a reader that wants a definite head of major type
    /// `want` (or, with `or_negative`, of a negative integer), where the
    /// head at the position is cut short or of another type; `None` where
    /// the head is what the reader wants.
    fn head_mismatch(&self, want: u8, or_negative: bool) -> (r: Option<Error>)
        ensures
            r is None <==> definite_head(self@.data, self@.pos, want as nat) || (or_negative
                && definite_head(self@.data, self@.pos, 1)),
            read_head(self@.data, self@.pos) is None ==> r is Some && r->Some_0.kind
                == ErrorKind::EndOfInput,
            read_head(self@.data, self@.pos) is Some && r is Some ==> r->Some_0.kind
                == ErrorKind::TypeMismatch(type_at(self@.data, self@.pos)),
    {
        match head_at(self.data, self.pos) {
            None => Some(end_of_input()),
            Some((major, info, _, _)) => {
                if info <= 27 && (major == want || (or_negative && major == 1)) {
                    None
                } else {
                    proof {
                        let b = self.data@[self.pos as int];
                        assert(b as nat % 32 == info as nat);
                    }
                    match peek_datatype(self.data, self.pos) {
                        Some(t) => Some(type_mismatch(t, "unexpected type")),
                        None => Some(end_of_input()),
                    }
                }
            },
        }
    }

    /// An integer within `lo..=hi`.
    fn int_within(&mut self, lo: i64, hi: i64) -> (r: Result<i64, Error>)
        ensures
            r is Ok <==> i64_fits(old(self)@.data, old(self)@.pos) && lo <= int_at(old(self)@.data, old(self)@.pos) <= hi,
            r is Ok ==> r->Ok_0 as int == int_at(old(self)@.data, old(self)@.pos),
            r is Ok ==> final(self)@ == old(self)@.at(head_end(old(self)@.data, old(self)@.pos)),
            r is Err ==> final(self)@ == old(self)@,
            r is Err ==> int_failure(old(self)@.data, old(self)@.pos, lo as int, hi as int, r->Err_0.kind),
    {
        match take_i64(self.data, self.pos) {
            Ok((v, p)) => {
                if lo <= v && v <= hi {
                    self.pos = p;
                    Ok(v)
                } else {
                    Err(overflow())
                }
            },
            Err(_) => match self.head_mismatch(0, true) {
                Some(e) => Err(e),
                None => Err(overflow()),
            },
        }
    }

    /// An unsigned integer no larger than `max`.
    fn uint_within(&mut self, max: u64) -> (r: Result<u64, Error>)
        ensures
            r is Ok <==> uint_fits(old(self)@.data, old(self)@.pos, max as nat),
            r is Ok ==> r->Ok_0 as nat == head_arg(old(self)@.data, old(self)@.pos),
            r is Ok ==> final(self)@ == old(self)@.at(head_end(old(self)@.data, old(self)@.pos)),
            r is Err ==> final(self)@ == old(self)@,
            r is Err ==> uint_failure(old(self)@.data, old(self)@.pos, max as nat, r->Err_0.kind),
    {
        match take_u64(self.data, self.pos) {
            Ok((v, p)) => {
                if v <= max {
                    self.pos = p;
                    Ok(v)
                } else {
                    Err(overflow())
                }
            },
            Err(e) => match self.head_mismatch(0, false) {
                Some(m) => Err(m),
                None => Err(Error::from_codec(e)),
            },
        }
    }

    pub fn deserialize_i8(&mut self) -> (r: Result<i8, Error>)
        ensures
            r is Ok <==> i64_fits(old(self)@.data, old(self)@.pos) && i8::MIN <= int_at(old(self)@.data, old(self)@.pos) <= i8::MAX,
            r is Ok ==> r->Ok_0 as int == int_at(old(self)@.data, old(self)@.pos),
            r is Ok ==> final(self)@ == old(self)@.at(head_end(old(self)@.data, old(self)@.pos)),
            r is Err ==> final(self)@ == old(self)@,
            r is Err ==> int_failure(old(self)@.data, old(self)@.pos, i8::MIN as int, i8::MAX as int, r->Err_0.kind),
    {
        let v = self.int_within(i8::MIN as i64, i8::MAX as i64)?;
        Ok(v as i8)
    }

    pub fn deserialize_i16(&mut self) -> (r: Result<i16, Error>)
        ensures
            r is Ok <==> i64_fits(old(self)@.data, old(self)@.pos) && i16::MIN <= int_at(old(self)@.data, old(self)@.pos) <= i16::MAX,
            r is Ok ==> r->Ok_0 as int == int_at(old(self)@.data, old(self)@.pos),
            r is Ok ==> final(self)@ == old(self)@.at(head_end(old(self)@.data, old(self)@.pos)),
            r is Err ==> final(self)@ == old(self)@,
            r is Err ==> int_failure(old(self)@.data, old(self)@.pos, i16::MIN as int, i16::MAX as int, r->Err_0.kind),
    {
        let v = self.int_within(i16::MIN as i64, i16::MAX as i64)?;
        Ok(v as i16)
    }

    pub fn deserialize_i32(&mut self) -> (r: Result<i32, Error>)
        ensures
            r is Ok <==> i64_fits(old(self)@.data, old(self)@.pos) && i32::MIN <= int_at(old(self)@.data, old(self)@.pos) <= i32::MAX,
            r is Ok ==> r->Ok_0 as int == int_at(old(self)@.data, old(self)@.pos),
            r is Ok ==> final(self)@ == old(self)@.at(head_end(old(self)@.data, old(self)@.pos)),
            r is Err ==> final(self)@ == old(self)@,
            r is Err ==> int_failure(old(self)@.data, old(self)@.pos, i32::MIN as int, i32::MAX as int, r->Err_0.kind),
    {
        let v = self.int_within(i32::MIN as i64, i32::MAX as i64)?;
        Ok(v as i32)
    }

    pub fn deserialize_i64(&mut self) -> (r: Result<i64, Error>)
        ensures
            r is Ok <==> i64_fits(old(self)@.data, old(self)@.pos) && i64::MIN <= int_at(old(self)@.data, old(self)@.pos) <= i64::MAX,
            r is Ok ==> r->Ok_0 as int == int_at(old(self)@.data, old(self)@.pos),
            r is Ok ==> final(self)@ == old(self)@.at(head_end(old(self)@.data, old(self)@.pos)),
            r is Err ==> final(self)@ == old(self)@,
            r is Err ==> int_failure(old(self)@.data, old(self)@.pos, i64::MIN as int, i64::MAX as int, r->Err_0.kind),
    {
        let v = self.int_within(i64::MIN as i64, i64::MAX as i64)?;
        Ok(v as i64)
    }

    /// A `u8`: the pending byte where a byte string is being read as a
    /// sequence (taking it), else the next item.
    pub fn deserialize_u8(&mut self) -> (r: Result<u8, Error>)
        ensures
            old(self)@.vec_bytes is Some ==> r == Ok::<u8, Error>(old(self)@.vec_bytes->Some_0)
                && final(self)@ == old(self)@.pending(None),
            old(self)@.vec_bytes is None ==> (r is Ok <==> uint_fits(old(self)@.data, old(self)@.pos, 0xff)),
            old(self)@.vec_bytes is None && r is Ok ==> r->Ok_0 as nat == head_arg(old(self)@.data, old(self)@.pos) && final(self)@ == old(self)@.at(head_end(old(self)@.data, old(self)@.pos)),
            r is Err ==> final(self)@ == old(self)@,
            r is Err ==> uint_failure(old(self)@.data, old(self)@.pos, 0xff, r->Err_0.kind),
    {
        if let Some(b) = self.vec_bytes {
            self.vec_bytes = None;
            return Ok(b);
        }
        let v = self.uint_within(0xff)?;
        Ok(v as u8)
    }

    pub fn deserialize_u16(&mut self) -> (r: Result<u16, Error>)
        ensures
            r is Ok <==> uint_fits(old(self)@.data, old(self)@.pos, 0xffff as nat),
            r is Ok ==> r->Ok_0 as nat == head_arg(old(self)@.data, old(self)@.pos),
            r is Ok ==> final(self)@ == old(self)@.at(head_end(old(self)@.data, old(self)@.pos)),
            r is Err ==> final(self)@ == old(self)@,
            r is Err ==> uint_failure(old(self)@.data, old(self)@.pos, 0xffff as nat, r->Err_0.kind),
    {
        let v = self.uint_within(0xffff)?;
        Ok(v as u16)
    }

    pub fn deserialize_u32(&mut self) -> (r: Result<u32, Error>)
        ensures
            r is Ok <==> uint_fits(old(self)@.data, old(self)@.pos, 0xffff_ffff as nat),
            r is Ok ==> r->Ok_0 as nat == head_arg(old(self)@.data, old(self)@.pos),
            r is Ok ==> final(self)@ == old(self)@.at(head_end(old(self)@.data, old(self)@.pos)),
            r is Err ==> final(self)@ == old(self)@,
            r is Err ==> uint_failure(old(self)@.data, old(self)@.pos, 0xffff_ffff as nat, r->Err_0.kind),
    {
        let v = self.uint_within(0xffff_ffff)?;
        Ok(v as u32)
    }

    pub fn deserialize_u64(&mut self) -> (r: Result<u64, Error>)
        ensures
            r is Ok <==> uint_fits(old(self)@.data, old(self)@.pos, u64::MAX as nat),
            r is Ok ==> r->Ok_0 as nat == head_arg(old(self)@.data, old(self)@.pos),
            r is Ok ==> final(self)@ == old(self)@.at(head_end(old(self)@.data, old(self)@.pos)),
            r is Err ==> final(self)@ == old(self)@,
            r is Err ==> uint_failure(old(self)@.data, old(self)@.pos, u64::MAX as nat, r->Err_0.kind),
    {
        self.uint_within(u64::MAX)
    }

    /// 128-bit integers are refused.
    pub fn deserialize_i128(&mut self) -> (r: Result<i128, Error>)
        ensures
            r is Err,
            r->Err_0.kind == ErrorKind::Unsupported128BitInteger,
            final(self)@ == old(self)@,
    {
        Err(
            make_kind_err(
                ErrorKind::Unsupported128BitInteger,
                "128-bit integers are not currently supported.",
            ),
        )
    }

    /// 128-bit integers are refused.
    pub fn deserialize_u128(&mut self) -> (r: Result<u128, Error>)
        ensures
            r is Err,
            r->Err_0.kind == ErrorKind::Unsupported128BitInteger,
            final(self)@ == old(self)@,
    {
        Err(
            make_kind_err(
                ErrorKind::Unsupported128BitInteger,
                "128-bit integers are not currently supported.",
            ),
        )
    }

    /// A character: an unsigned integer that is a Unicode scalar value.
    pub fn deserialize_char(&mut self) -> (r: Result<char, Error>)
        ensures
            r is Ok <==> char_fits(old(self)@.data, old(self)@.pos),
            r is Ok ==> r->Ok_0 as nat == head_arg(old(self)@.data, old(self)@.pos),
            r is Ok ==> final(self)@ == old(self)@.at(head_end(old(self)@.data, old(self)@.pos)),
            r is Err ==> final(self)@ == old(self)@,
            r is Err ==> char_failure(old(self)@.data, old(self)@.pos, r->Err_0.kind),
    {
        match take_char(self.data, self.pos) {
            Ok((v, p)) => {
                self.pos = p;
                Ok(v)
            },
            Err(e) => {
                if let Some(m) = self.head_mismatch(0, false) {
                    return Err(m);
                }
                match take_u64(self.data, self.pos) {
                    Ok((v, _)) => if v > 0xffff_ffff {
                        Err(overflow())
                    } else {
                        Err(make_kind_err(ErrorKind::InvalidChar, "not a Unicode scalar value"))
                    },
                    Err(_) => Err(Error::from_codec(e)),
                }
            },
        }
    }

    /// The error of a reader of a definite string of major type `major`
    /// whose read failed: a cut-short head or payload, another type, or
    /// (for text) invalid UTF-8.
    fn string_error(&self, major: u8, e: CborDecodeError) -> (r: Error)
        requires
            major == 2 || major == 3,
        ensures
            string_failure(self@.data, self@.pos, major as nat, r.kind)
                || string_fits(self@.data, self@.pos, major as nat) && (major == 2 || valid_utf8(
                payload(self@.data, self@.pos),
            )),
    {
        if let Some(m) = self.head_mismatch(major, false) {
            return m;
        }
        match head_at(self.data, self.pos) {
            Some((_, _, arg, end)) => {
                if arg > (self.data.len() - end) as u64 {
                    end_of_input()
                } else if major == 3 {
                    make_kind_err(ErrorKind::Utf8, "invalid UTF-8 in a text string")
                } else {
                    Error::from_codec(e)
                }
            },
            None => end_of_input(),
        }
    }

    /// A definite text string, borrowed from the input.
    pub fn deserialize_str(&mut self) -> (r: Result<&'d str, Error>)
        ensures
            r is Ok <==> text_fits(old(self)@.data, old(self)@.pos),
            r is Ok ==> r->Ok_0@ == decode_utf8(payload(old(self)@.data, old(self)@.pos)),
            r is Ok ==> final(self)@ == old(self)@.at(payload_end(old(self)@.data, old(self)@.pos)),
            r is Err ==> final(self)@ == old(self)@,
            r is Err ==> string_failure(old(self)@.data, old(self)@.pos, 3, r->Err_0.kind),
    {
        match take_str(self.data, self.pos) {
            Ok((v, p)) => {
                self.pos = p;
                Ok(v)
            },
            Err(e) => Err(self.string_error(3, e)),
        }
    }

    /// A definite text string, borrowed from the input.
    pub fn deserialize_string(&mut self) -> (r: Result<&'d str, Error>)
        ensures
            r is Ok <==> text_fits(old(self)@.data, old(self)@.pos),
            r is Ok ==> r->Ok_0@ == decode_utf8(payload(old(self)@.data, old(self)@.pos)),
            r is Ok ==> final(self)@ == old(self)@.at(payload_end(old(self)@.data, old(self)@.pos)),
            r is Err ==> final(self)@ == old(self)@,
            r is Err ==> string_failure(old(self)@.data, old(self)@.pos, 3, r->Err_0.kind),
    {
        self.deserialize_str()
    }

    /// An identifier (a field or variant name): a text string.
    pub fn deserialize_identifier(&mut self) -> (r: Result<&'d str, Error>)
        ensures
            r is Ok <==> text_fits(old(self)@.data, old(self)@.pos),
            r is Ok ==> r->Ok_0@ == decode_utf8(payload(old(self)@.data, old(self)@.pos)),
            r is Ok ==> final(self)@ == old(self)@.at(payload_end(old(self)@.data, old(self)@.pos)),
            r is Err ==> final(self)@ == old(self)@,
            r is Err ==> string_failure(old(self)@.data, old(self)@.pos, 3, r->Err_0.kind),
    {
        self.deserialize_str()
    }

    /// A definite byte string, borrowed from the input.
    pub fn deserialize_bytes(&mut self) -> (r: Result<&'d [u8], Error>)
        ensures
            r is Ok <==> string_fits(old(self)@.data, old(self)@.pos, 2),
            r is Ok ==> r->Ok_0@ == payload(old(self)@.data, old(self)@.pos),
            r is Ok ==> final(self)@ == old(self)@.at(payload_end(old(self)@.data, old(self)@.pos)),
            r is Err ==> final(self)@ == old(self)@,
            r is Err ==> string_failure(old(self)@.data, old(self)@.pos, 2, r->Err_0.kind),
    {
        match take_bytes(self.data, self.pos) {
            Ok((v, p)) => {
                self.pos = p;
                Ok(v)
            },
            Err(e) => Err(self.string_error(2, e)),
        }
    }

    /// A definite byte string, borrowed from the input.
    pub fn deserialize_byte_buf(&mut self) -> (r: Result<&'d [u8], Error>)
        ensures
            r is Ok <==> string_fits(old(self)@.data, old(self)@.pos, 2),
            r is Ok ==> r->Ok_0@ == payload(old(self)@.data, old(self)@.pos),
            r is Ok ==> final(self)@ == old(self)@.at(payload_end(old(self)@.data, old(self)@.pos)),
            r is Err ==> final(self)@ == old(self)@,
            r is Err ==> string_failure(old(self)@.data, old(self)@.pos, 2, r->Err_0.kind),
    {
        self.deserialize_bytes()
    }

    /// An option: `false` (absent) for a `null` or `undefined`, which is
    /// read; `true` (present) for any other item, which stays unread for the
    /// value.
    pub fn deserialize_option(&mut self) -> (r: Result<bool, Error>)
        ensures
            old(self)@.next_type() is None ==> r is Err && r->Err_0.kind == ErrorKind::EndOfInput,
            old(self)@.next_type() is Some && is_null_type(old(self)@.next_type()->Some_0) ==> r
                == Ok::<bool, Error>(false) && final(self)@ == old(self)@.at(old(self)@.pos + 1),
            old(self)@.next_type() is Some && !is_null_type(old(self)@.next_type()->Some_0) ==> r
                == Ok::<bool, Error>(true) && final(self)@ == old(self)@,
            r is Err ==> final(self)@ == old(self)@,
    {
        let t = self.peek_type()?;
        match t {
            WireType::Null | WireType::Undefined => {
                match skip_one(self.data, self.pos) {
                    Ok(p) => {
                        self.pos = p;
                        Ok(false)
                    },
                    Err(e) => Err(Error::from_codec(e)),
                }
            },
            _ => Ok(true),
        }
    }

    /// A unit: a `null` or `undefined`, which is read.
    pub fn deserialize_unit(&mut self) -> (r: Result<(), Error>)
        ensures
            old(self)@.next_type() is None ==> r is Err && r->Err_0.kind == ErrorKind::EndOfInput,
            old(self)@.next_type() is Some && is_null_type(old(self)@.next_type()->Some_0) ==> r is Ok
                && final(self)@ == old(self)@.at(old(self)@.pos + 1),
            old(self)@.next_type() is Some && !is_null_type(old(self)@.next_type()->Some_0) ==> r is Err
                && r->Err_0.kind == ErrorKind::TypeMismatch(old(self)@.next_type()),
            r is Err ==> final(self)@ == old(self)@,
    {
        let t = self.peek_type()?;
        match t {
            WireType::Null | WireType::Undefined => {
                match skip_one(self.data, self.pos) {
                    Ok(p) => {
                        self.pos = p;
                        Ok(())
                    },
                    Err(e) => Err(Error::from_codec(e)),
                }
            },
            _ => Err(type_mismatch(t, "expected unit(null)")),
        }
    }

    /// A unit struct: a `null` or `undefined`, which is read.
    pub fn deserialize_unit_struct(&mut self, name: &str) -> (r: Result<(), Error>)
        ensures
            old(self)@.next_type() is None ==> r is Err && r->Err_0.kind == ErrorKind::EndOfInput,
            old(self)@.next_type() is Some && is_null_type(old(self)@.next_type()->Some_0) ==> r is Ok
                && final(self)@ == old(self)@.at(old(self)@.pos + 1),
            old(self)@.next_type() is Some && !is_null_type(old(self)@.next_type()->Some_0) ==> r is Err
                && r->Err_0.kind == ErrorKind::TypeMismatch(old(self)@.next_type()),
            r is Err ==> final(self)@ == old(self)@,
    {
        self.deserialize_unit()
    }
}

/// The elements of a sequence being read: a definite count, an
/// indefinite run up to a break code, the bytes of a byte string, or the
/// bare outermost run of a flattened input.
#[derive(Debug)]
pub struct SeqAccess<'d> {
    pub len: Option<u64>,
    pub index: u64,
    pub bytes: Option<&'d [u8]>,
    pub flat: bool,
}

/// The entries of a map being read: a definite count, or an indefinite
/// run up to a break code.
#[derive(Debug)]
pub struct MapAccess {
    pub len: Option<u64>,
    pub index: u64,
}

/// A struct read from a map (by key) or from an array (by position).
#[derive(Debug)]
pub enum StructAccess<'d> {
    Keyed(MapAccess),
    Positional(SeqAccess<'d>),
}

/// The form of an enum on the wire: a bare variant name for a unit
/// variant, or a single-entry map from the variant name to its payload.
#[derive(Debug, Clone, Copy, PartialEq, Eq, Structural)]
pub enum EnumForm {
    Unit,
    Variant { indefinite: bool },
}

/// The payload accessors of a unit variant read from a bare name: only a
/// unit payload is there.
pub struct EnumUnitAccess;

impl EnumUnitAccess {
    pub fn unit_variant(&self) -> (r: Result<(), Error>)
        ensures
            r is Ok,
    {
        Ok(())
    }

    /// A bare variant name carries no newtype payload.
    pub fn newtype_variant_seed(&self) -> (r: Error)
        ensures
            r.kind == ErrorKind::Custom,
    {
        Error::custom("invalid type: unit variant, expected newtype variant")
    }

    /// A bare variant name carries no tuple payload.
    pub fn tuple_variant(&self) -> (r: Error)
        ensures
            r.kind == ErrorKind::Custom,
    {
        Error::custom("invalid type: unit variant, expected tuple variant")
    }

    /// A bare variant name carries no struct payload.
    pub fn struct_variant(&self) -> (r: Error)
        ensures
            r.kind == ErrorKind::Custom,
    {
        Error::custom("invalid type: unit variant, expected struct variant")
    }
}

impl<'d> SeqAccess<'d> {
    /// Whether another element follows. For a byte string the next byte
    /// becomes the decoder's pending byte; an indefinite run ends at a break
    /// code, which is read; a flattened run ends at the end of the input or
    /// at a break code, which stays unread.
    pub fn next_element(&mut self, des: &mut Deserializer<'d>) -> (r: Result<bool, Error>)
        ensures
            final(self).len == old(self).len,
            final(self).bytes == old(self).bytes,
            final(self).flat == old(self).flat,
            old(self).bytes is Some && old(self).index < old(self).bytes->Some_0@.len() ==> r
                == Ok::<bool, Error>(true) && final(des)@ == old(des)@.pending(
                Some(old(self).bytes->Some_0@[old(self).index as int]),
            ) && final(self).index == old(self).index + 1,
            old(self).bytes is Some && old(self).index >= old(self).bytes->Some_0@.len() ==> r
                == Ok::<bool, Error>(false) && final(des)@ == old(des)@.pending(None)
                && final(self).index == old(self).index,
            old(self).bytes is None && old(self).len is Some && old(self).index < old(self).len->Some_0 ==> r == Ok::<bool, Error>(true) && final(des)@ == old(des)@
                && final(self).index == old(self).index + 1,
            old(self).bytes is None && old(self).len is Some && old(self).index >= old(self).len->Some_0 ==> r == Ok::<bool, Error>(false) && final(des)@ == old(des)@
                && final(self).index == old(self).index,
            old(self).bytes is None && old(self).len is None ==> final(self).index == old(self).index,
            old(self).bytes is None && old(self).len is None && old(self).flat && old(des)@.pos
                >= old(des)@.data.len() ==> r == Ok::<bool, Error>(false) && final(des)@ == old(des)@,
            old(self).bytes is None && old(self).len is None && !(old(self).flat && old(des)@.pos
                >= old(des)@.data.len()) ==> match old(des)@.next_type() {
                None => r is Err && r->Err_0.kind == ErrorKind::EndOfInput && final(des)@ == old(des)@,
                Some(t) => if t == WireType::Break {
                    r == Ok::<bool, Error>(false) && final(des)@ == old(des)@.at(
                        old(des)@.pos + if old(self).flat {
                            0int
                        } else {
                            1int
                        },
                    )
                } else {
                    r == Ok::<bool, Error>(true) && final(des)@ == old(des)@
                },
            },
    {
        if let Some(bytes) = self.bytes {
            if self.index >= bytes.len() as u64 {
                des.vec_bytes = None;
                return Ok(false);
            }
            des.vec_bytes = Some(bytes[self.index as usize]);
            self.index = self.index + 1;
            return Ok(true);
        }
        match self.len {
            Some(len) => {
                if self.index >= len {
                    Ok(false)
                } else {
                    self.index = self.index + 1;
                    Ok(true)
                }
            },
            None => {
                if self.flat && des.pos >= des.data.len() {
                    return Ok(false);
                }
                let t = des.peek_type()?;
                if t == WireType::Break {
                    if !self.flat {
                        let n = des.data.len();
                        assert(des.pos < n);
                        des.pos = des.pos + 1;
                    }
                    Ok(false)
                } else {
                    Ok(true)
                }
            },
        }
    }
}

impl MapAccess {
    /// Whether another entry follows; an indefinite run ends at a break
    /// code, which is read.
    pub fn next_key(&mut self, des: &mut Deserializer) -> (r: Result<bool, Error>)
        ensures
            final(self).len == old(self).len,
            old(self).len is Some && old(self).index < old(self).len->Some_0 ==> r == Ok::<
                bool,
                Error,
            >(true) && final(des)@ == old(des)@ && final(self).index == old(self).index + 1,
            old(self).len is Some && old(self).index >= old(self).len->Some_0 ==> r == Ok::<
                bool,
                Error,
            >(false) && final(des)@ == old(des)@ && final(self).index == old(self).index,
            old(self).len is None ==> final(self).index == old(self).index,
            old(self).len is None ==> match old(des)@.next_type() {
                None => r is Err && r->Err_0.kind == ErrorKind::EndOfInput && final(des)@ == old(des)@,
                Some(t) => if t == WireType::Break {
                    r == Ok::<bool, Error>(false) && final(des)@ == old(des)@.at(old(des)@.pos + 1)
                } else {
                    r == Ok::<bool, Error>(true) && final(des)@ == old(des)@
                },
            },
    {
        match self.len {
            Some(len) => {
                if self.index >= len {
                    Ok(false)
                } else {
                    self.index = self.index + 1;
                    Ok(true)
                }
            },
            None => {
                let t = des.peek_type()?;
                if t == WireType::Break {
                    let n = des.data.len();
                    assert(des.pos < n);
                    des.pos = des.pos + 1;
                    Ok(false)
                } else {
                    Ok(true)
                }
            },
        }
    }

    /// Checks that a value follows its key: a break code there is a
    /// missing value.
    pub fn next_value(&self, des: &Deserializer) -> (r: Result<(), Error>)
        ensures
            des@.next_type() is None ==> r is Err && r->Err_0.kind == ErrorKind::EndOfInput,
            des@.next_type() == Some(WireType::Break) ==> r is Err && r->Err_0.kind
                == ErrorKind::MissingValue,
            des@.next_type() is Some && des@.next_type() != Some(WireType::Break) ==> r is Ok,
    {
        let t = des.peek_type()?;
        if t == WireType::Break {
            Err(make_kind_err(ErrorKind::MissingValue, "expect value, but found break stop code(0xFF)."))
        } else {
            Ok(())
        }
    }
}

/// The sequence access that an array head of this length opens.
pub open spec fn array_elements(len: Option<u64>) -> SeqAccess<'static> {
    SeqAccess { len, index: 0, bytes: None, flat: false }
}

/// How entering a sequence went: `v` is the decoder before, `w` after.
pub open spec fn entered_seq<'d>(v: DeView, r: Result<SeqAccess<'d>, Error>, w: DeView) -> bool {
    let t = v.next_type();
    let plain = t is Some && !is_array_type(t->Some_0) && t != Some(WireType::Bytes);
    &&& (r is Err ==> w == v)
    &&& (t is None ==> r is Err && r->Err_0.kind == ErrorKind::EndOfInput)
    &&& (t is Some && is_array_type(t->Some_0) && read_head(v.data, v.pos) is None ==> r is Err
        && r->Err_0.kind == ErrorKind::EndOfInput)
    &&& (t == Some(WireType::Bytes) && !string_fits(v.data, v.pos, 2) ==> r is Err
        && r->Err_0.kind == ErrorKind::EndOfInput)
    &&& (t is Some && is_array_type(t->Some_0) ==> (r is Ok <==> container_head(v.data, v.pos, 4)
        && v.depth < u32::MAX))
    &&& (t is Some && is_array_type(t->Some_0) && r is Ok ==> r->Ok_0 == array_elements(
        container_len(v.data, v.pos),
    ) && w == v.at(head_end(v.data, v.pos)).at_depth(v.depth + 1))
    &&& (t == Some(WireType::Bytes) ==> (r is Ok <==> string_fits(v.data, v.pos, 2) && v.depth
        < u32::MAX))
    &&& (t == Some(WireType::Bytes) && r is Ok ==> r->Ok_0.bytes is Some && r->Ok_0.bytes->Some_0@
        == payload(v.data, v.pos) && r->Ok_0.index == 0 && w == v.at(
        payload_end(v.data, v.pos),
    ).at_depth(v.depth + 1))
    &&& (plain && v.flattens() ==> r is Ok && r->Ok_0 == (SeqAccess::<'d> {
        len: None,
        index: 0,
        bytes: None,
        flat: true,
    }) && w == v.at_depth(1))
    &&& (plain && !v.flattens() ==> r is Err && r->Err_0.kind == ErrorKind::TypeMismatch(t))
}

impl<'d> Deserializer<'d> {
    /// The error of a container reader whose head read failed: end of input
    /// where the head is cut short.
    fn codec_failure(&self, e: CborDecodeError) -> (r: Error)
        ensures
            read_head(self@.data, self@.pos) is None ==> r.kind == ErrorKind::EndOfInput,
    {
        match head_at(self.data, self.pos) {
            None => end_of_input(),
            Some(_) => Error::from_codec(e),
        }
    }

    /// Enters an array whose head is next: reads the head, one level deeper.
    fn enter_array(&mut self) -> (r: Result<SeqAccess<'d>, Error>)
        ensures
            read_head(old(self)@.data, old(self)@.pos) is None ==> r is Err && r->Err_0.kind == ErrorKind::EndOfInput,
            r is Ok <==> container_head(old(self)@.data, old(self)@.pos, 4) && old(self)@.depth
                < u32::MAX,
            r is Ok ==> r->Ok_0 == array_elements(container_len(old(self)@.data, old(self)@.pos)),
            r is Ok ==> final(self)@ == old(self)@.at(
                head_end(old(self)@.data, old(self)@.pos),
            ).at_depth(old(self)@.depth + 1),
            r is Err ==> final(self)@ == old(self)@,
    {
        let (len, p) = match take_array(self.data, self.pos) {
            Ok(v) => v,
            Err(e) => {
                return Err(self.codec_failure(e));
            },
        };
        self.depth_add(1)?;
        self.pos = p;
        Ok(SeqAccess { len, index: 0, bytes: None, flat: false })
    }

    /// Enters the bare outermost run of a flattened input.
    fn enter_flat(&mut self) -> (r: Result<SeqAccess<'d>, Error>)
        requires
            old(self)@.flattens(),
        ensures
            r is Ok,
            r->Ok_0 == (SeqAccess::<'d> { len: None, index: 0, bytes: None, flat: true }),
            final(self)@ == old(self)@.at_depth(1),
    {
        self.depth = 1;
        Ok(SeqAccess { len: None, index: 0, bytes: None, flat: true })
    }

    /// Enters a sequence: an array head (definite or indefinite), or a byte
    /// string whose bytes become the elements. Any other item is refused,
    /// but where the outermost value of a flattened input is read: then the
    /// rest of the input is the run of elements.
    pub fn deserialize_seq(&mut self) -> (r: Result<SeqAccess<'d>, Error>)
        ensures
            entered_seq(old(self)@, r, final(self)@),
    {
        let t = self.peek_type()?;
        match t {
            WireType::Array | WireType::ArrayIndef => self.enter_array(),
            WireType::Bytes => {
                let (bytes, p) = match take_bytes(self.data, self.pos) {
                    Ok(v) => v,
                    Err(e) => {
                        return Err(self.string_error(2, e));
                    },
                };
                self.depth_add(1)?;
                self.pos = p;
                Ok(SeqAccess { len: Some(bytes.len() as u64), index: 0, bytes: Some(bytes), flat: false })
            },
            _ => {
                if self.flatten_top && self.depth == 0 {
                    return self.enter_flat();
                }
                Err(type_mismatch(t, "expected array"))
            },
        }
    }

    /// A tuple is read as a sequence.
    pub fn deserialize_tuple(&mut self, len: usize) -> (r: Result<SeqAccess<'d>, Error>)
        ensures
            entered_seq(old(self)@, r, final(self)@),
    {
        self.deserialize_seq()
    }

    /// A tuple struct is read as a sequence.
    pub fn deserialize_tuple_struct(&mut self, name: &str, len: usize) -> (r: Result<
        SeqAccess<'d>,
        Error,
    >)
        ensures
            entered_seq(old(self)@, r, final(self)@),
    {
        self.deserialize_seq()
    }

    /// Leaves a sequence: one level up, and no pending byte left behind.
    pub fn end_seq(&mut self, access: SeqAccess<'d>) -> (r: Result<(), Error>)
        ensures
            old(self)@.depth == 0 ==> r is Err && r->Err_0.kind == ErrorKind::EndOfInput && final(self)@ == old(self)@.pending(None),
            old(self)@.depth > 0 ==> r is Ok && final(self)@ == old(self)@.pending(None).at_depth(
                (old(self)@.depth - 1) as nat,
            ),
    {
        self.vec_bytes = None;
        self.depth_add(-1)
    }

    /// Enters a map whose head is next: reads the head, one level deeper.
    fn enter_map(&mut self) -> (r: Result<MapAccess, Error>)
        ensures
            read_head(old(self)@.data, old(self)@.pos) is None ==> r is Err && r->Err_0.kind == ErrorKind::EndOfInput,
            r is Ok <==> container_head(old(self)@.data, old(self)@.pos, 5) && old(self)@.depth
                < u32::MAX,
            r is Ok ==> r->Ok_0 == (MapAccess {
                len: container_len(old(self)@.data, old(self)@.pos),
                index: 0,
            }),
            r is Ok ==> final(self)@ == old(self)@.at(
                head_end(old(self)@.data, old(self)@.pos),
            ).at_depth(old(self)@.depth + 1),
            r is Err ==> final(self)@ == old(self)@,
    {
        let (len, p) = match take_map(self.data, self.pos) {
            Ok(v) => v,
            Err(e) => {
                return Err(self.codec_failure(e));
            },
        };
        self.depth_add(1)?;
        self.pos = p;
        Ok(MapAccess { len, index: 0 })
    }

    /// Enters a map: a map head, definite or indefinite.
    pub fn deserialize_map(&mut self) -> (r: Result<MapAccess, Error>)
        ensures
            old(self)@.next_type() is Some && is_map_type(old(self)@.next_type()->Some_0) && read_head(
                old(self)@.data, old(self)@.pos,
            ) is None ==> r is Err && r->Err_0.kind == ErrorKind::EndOfInput,
            old(self)@.next_type() is None ==> r is Err && r->Err_0.kind == ErrorKind::EndOfInput,
            old(self)@.next_type() is Some && is_map_type(old(self)@.next_type()->Some_0) ==> (r is Ok
                <==> container_head(old(self)@.data, old(self)@.pos, 5) && old(self)@.depth
                < u32::MAX),
            old(self)@.next_type() is Some && is_map_type(old(self)@.next_type()->Some_0) && r is Ok
                ==> r->Ok_0 == (MapAccess {
                len: container_len(old(self)@.data, old(self)@.pos),
                index: 0,
            }) && final(self)@ == old(self)@.at(
                head_end(old(self)@.data, old(self)@.pos),
            ).at_depth(old(self)@.depth + 1),
            old(self)@.next_type() is Some && !is_map_type(old(self)@.next_type()->Some_0) ==> r is Err
                && r->Err_0.kind == ErrorKind::TypeMismatch(old(self)@.next_type()),
            r is Err ==> final(self)@ == old(self)@,
    {
        let t = self.peek_type()?;
        match t {
            WireType::Mapping | WireType::MappingIndef => self.enter_map(),
            _ => Err(type_mismatch(t, "expected map")),
        }
    }

    /// Leaves a map: one level up.
    pub fn end_map(&mut self, access: MapAccess) -> (r: Result<(), Error>)
        ensures
            old(self)@.depth == 0 ==> r is Err && r->Err_0.kind == ErrorKind::EndOfInput && final(self)@ == old(self)@,
            old(self)@.depth > 0 ==> r is Ok && final(self)@ == old(self)@.at_depth(
                (old(self)@.depth - 1) as nat,
            ),
    {
        self.depth_add(-1)
    }

    /// Enters a struct: from a map (fields by name) or from an array
    /// (fields by position); the outermost value of a flattened input may
    /// be the bare run of its fields.
    pub fn deserialize_struct(&mut self, name: &str, fields: &[&str]) -> (r: Result<
        StructAccess<'d>,
        Error,
    >)
        ensures
            old(self)@.next_type() is Some && is_map_type(old(self)@.next_type()->Some_0) && read_head(
                old(self)@.data, old(self)@.pos,
            ) is None ==> r is Err && r->Err_0.kind == ErrorKind::EndOfInput,
            old(self)@.next_type() is Some && is_array_type(old(self)@.next_type()->Some_0) && read_head(
                old(self)@.data, old(self)@.pos,
            ) is None ==> r is Err && r->Err_0.kind == ErrorKind::EndOfInput,
            old(self)@.next_type() is None ==> r is Err && r->Err_0.kind == ErrorKind::EndOfInput,
            old(self)@.next_type() is Some && is_map_type(old(self)@.next_type()->Some_0) ==> (r is Ok
                <==> container_head(old(self)@.data, old(self)@.pos, 5) && old(self)@.depth
                < u32::MAX),
            old(self)@.next_type() is Some && is_map_type(old(self)@.next_type()->Some_0) && r is Ok
                ==> r->Ok_0 == StructAccess::<'d>::Keyed(
                MapAccess { len: container_len(old(self)@.data, old(self)@.pos), index: 0 },
            ) && final(self)@ == old(self)@.at(
                head_end(old(self)@.data, old(self)@.pos),
            ).at_depth(old(self)@.depth + 1),
            old(self)@.next_type() is Some && is_array_type(old(self)@.next_type()->Some_0) ==> (r is Ok
                <==> container_head(old(self)@.data, old(self)@.pos, 4) && old(self)@.depth
                < u32::MAX),
            old(self)@.next_type() is Some && is_array_type(old(self)@.next_type()->Some_0) && r is Ok
                ==> r->Ok_0 == StructAccess::<'d>::Positional(
                array_elements(container_len(old(self)@.data, old(self)@.pos)),
            ) && final(self)@ == old(self)@.at(
                head_end(old(self)@.data, old(self)@.pos),
            ).at_depth(old(self)@.depth + 1),
            old(self)@.next_type() is Some && !is_map_type(old(self)@.next_type()->Some_0)
                && !is_array_type(old(self)@.next_type()->Some_0) && old(self)@.flattens() ==> r is Ok
                && r->Ok_0 == StructAccess::<'d>::Positional(
                SeqAccess { len: None, index: 0, bytes: None, flat: true },
            ) && final(self)@ == old(self)@.at_depth(1),
            old(self)@.next_type() is Some && !is_map_type(old(self)@.next_type()->Some_0)
                && !is_array_type(old(self)@.next_type()->Some_0) && !old(self)@.flattens() ==> r is Err
                && r->Err_0.kind == ErrorKind::TypeMismatch(old(self)@.next_type()),
            r is Err ==> final(self)@ == old(self)@,
    {
        let t = self.peek_type()?;
        match t {
            WireType::Mapping | WireType::MappingIndef => {
                let m = self.enter_map()?;
                Ok(StructAccess::Keyed(m))
            },
            WireType::Array | WireType::ArrayIndef => {
                let a = self.enter_array()?;
                Ok(StructAccess::Positional(a))
            },
            _ => {
                if self.flatten_top && self.depth == 0 {
                    let a = self.enter_flat()?;
                    return Ok(StructAccess::Positional(a));
                }
                Err(type_mismatch(t, "expected map or array"))
            },
        }
    }

    /// Leaves a struct: one level up.
    pub fn end_struct(&mut self, access: StructAccess<'d>) -> (r: Result<(), Error>)
        ensures
            old(self)@.depth == 0 ==> r is Err && r->Err_0.kind == ErrorKind::EndOfInput && final(self)@ == old(self)@.pending(None),
            old(self)@.depth > 0 ==> r is Ok && final(self)@ == old(self)@.pending(None).at_depth(
                (old(self)@.depth - 1) as nat,
            ),
    {
        self.vec_bytes = None;
        self.depth_add(-1)
    }

    /// Enters an enum: a text string is a unit variant, whose name stays
    /// unread; a map must hold exactly one entry (definite length one, or
    /// indefinite), whose key is the variant name and whose value is the
    /// payload, one level deeper. Any other item, or a map of another
    /// length, is a type mismatch.
    pub fn deserialize_enum(&mut self, name: &str, variants: &[&str]) -> (r: Result<EnumForm, Error>)
        ensures
            old(self)@.next_type() is Some && is_map_type(old(self)@.next_type()->Some_0) && read_head(
                old(self)@.data, old(self)@.pos,
            ) is None ==> r is Err && r->Err_0.kind == ErrorKind::EndOfInput,
            old(self)@.next_type() is None ==> r is Err && r->Err_0.kind == ErrorKind::EndOfInput,
            old(self)@.next_type() == Some(WireType::String) || old(self)@.next_type() == Some(
                WireType::StringIndef,
            ) ==> r == Ok::<EnumForm, Error>(EnumForm::Unit) && final(self)@ == old(self)@,
            old(self)@.next_type() is Some && is_map_type(old(self)@.next_type()->Some_0)
                && container_head(old(self)@.data, old(self)@.pos, 5) && container_len(
                old(self)@.data,
                old(self)@.pos,
            ) != Some(1u64) && container_len(old(self)@.data, old(self)@.pos) is Some ==> r is Err
                && r->Err_0.kind == ErrorKind::TypeMismatch(Some(WireType::Mapping)),
            old(self)@.next_type() is Some && is_map_type(old(self)@.next_type()->Some_0)
                && !container_head(old(self)@.data, old(self)@.pos, 5) ==> r is Err,
            old(self)@.next_type() is Some && is_map_type(old(self)@.next_type()->Some_0)
                && container_head(old(self)@.data, old(self)@.pos, 5) && container_len(
                old(self)@.data,
                old(self)@.pos,
            ) == Some(1u64) ==> (r is Ok <==> old(self)@.depth < u32::MAX),
            old(self)@.next_type() is Some && is_map_type(old(self)@.next_type()->Some_0)
                && container_head(old(self)@.data, old(self)@.pos, 5) && container_len(
                old(self)@.data,
                old(self)@.pos,
            ) is None ==> match type_at(old(self)@.data, head_end(old(self)@.data, old(self)@.pos)) {
                None => r is Err && r->Err_0.kind == ErrorKind::EndOfInput,
                Some(u) => if u == WireType::Break {
                    r is Err && r->Err_0.kind == ErrorKind::TypeMismatch(Some(WireType::MappingIndef))
                } else {
                    r is Ok <==> old(self)@.depth < u32::MAX
                },
            },
            r is Ok && is_map_type(old(self)@.next_type()->Some_0) ==> r->Ok_0 == (EnumForm::Variant {
                indefinite: container_len(old(self)@.data, old(self)@.pos) is None,
            }) && final(self)@ == old(self)@.at(
                head_end(old(self)@.data, old(self)@.pos),
            ).at_depth(old(self)@.depth + 1),
            old(self)@.next_type() is Some && !is_map_type(old(self)@.next_type()->Some_0) && old(self)@.next_type() != Some(WireType::String) && old(self)@.next_type() != Some(
                WireType::StringIndef,
            ) ==> r is Err && r->Err_0.kind == ErrorKind::TypeMismatch(old(self)@.next_type()),
            r is Err ==> final(self)@ == old(self)@,
    {
        let t = self.peek_type()?;
        match t {
            WireType::String | WireType::StringIndef => Ok(EnumForm::Unit),
            WireType::Mapping | WireType::MappingIndef => {
                let (len, p) = match take_map(self.data, self.pos) {
                    Ok(v) => v,
                    Err(e) => {
                        return Err(self.codec_failure(e));
                    },
                };
                let indefinite = len.is_none();
                if indefinite {
                    match peek_datatype(self.data, p) {
                        None => {
                            return Err(end_of_input());
                        },
                        Some(WireType::Break) => {
                            return Err(
                                type_mismatch(
                                    WireType::MappingIndef,
                                    "expected map with 1 element, but it is empty",
                                ),
                            );
                        },
                        Some(_) => {},
                    }
                }
                if indefinite || len == Some(1u64) {
                    self.depth_add(1)?;
                    self.pos = p;
                    Ok(EnumForm::Variant { indefinite })
                } else {
                    Err(type_mismatch(WireType::Mapping, "expected map with 1 element"))
                }
            },
            _ => Err(type_mismatch(t, "expected map or string")),
        }
    }

    /// Leaves an enum. After the payload of a variant read from an
    /// indefinite map, the break code must follow, and is read.
    pub fn end_enum(&mut self, form: EnumForm) -> (r: Result<(), Error>)
        ensures
            form == EnumForm::Unit ==> r is Ok && final(self)@ == old(self)@,
            form != EnumForm::Unit && old(self)@.depth == 0 ==> r is Err && r->Err_0.kind
                == ErrorKind::EndOfInput && final(self)@ == old(self)@,
            form == (EnumForm::Variant { indefinite: false }) && old(self)@.depth > 0 ==> r is Ok
                && final(self)@ == old(self)@.at_depth((old(self)@.depth - 1) as nat),
            form == (EnumForm::Variant { indefinite: true }) && old(self)@.depth > 0 ==> match old(self)@.next_type() {
                None => r is Err && r->Err_0.kind == ErrorKind::EndOfInput,
                Some(t) => if t == WireType::Break {
                    r is Ok && final(self)@ == old(self)@.at(old(self)@.pos + 1).at_depth(
                        (old(self)@.depth - 1) as nat,
                    )
                } else {
                    r is Err && r->Err_0.kind == ErrorKind::TypeMismatch(Some(t))
                },
            },
    {
        match form {
            EnumForm::Unit => Ok(()),
            EnumForm::Variant { indefinite } => {
                self.depth_add(-1)?;
                if indefinite {
                    let t = self.peek_type()?;
                    if t == WireType::Break {
                        let n = self.data.len();
                        assert(self.pos < n);
                        self.pos = self.pos + 1;
                    } else {
                        return Err(
                            type_mismatch(
                                t,
                                "expected map with 1 element, but break code(0xff) was not found",
                            ),
                        );
                    }
                }
                Ok(())
            },
        }
    }
}

} // verus!
