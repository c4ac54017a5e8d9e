//! The encode bridge: data-model serialize calls become CBOR items.
//!
//! Scalars become one item each. A container opens with a head (definite
//! when its length is known, indefinite otherwise) and carries a `State`
//! through its elements; closing it writes a break code only where the
//! head was indefinite. With `top_flatten`, the outermost container is
//! written with no head at all.
use vstd::prelude::*;
use crate::codec::{
    put_array, put_begin_array, put_begin_map, put_bool, put_bytes, put_char, put_end, put_i64,
    put_map, put_null, put_str, put_u64,
};
pub use crate::error::en::Error;
use crate::error::en::{make_kind_err, ErrorKind};
use crate::wire::{
    head, text_item, BEGIN_ARRAY, BEGIN_MAP, BREAK, MAJOR_ARRAY, MAJOR_BYTES, MAJOR_MAP,
    MAJOR_NEGATIVE, MAJOR_UNSIGNED, NULL,
};
use crate::Config;

verus! {

/// Where an open container stands: before its first element (`First`) or
/// after it (`Rest`), with its length where the head was definite; `Empty`
/// for a container of length zero; `FlattenFirst`/`FlattenRest` for the
/// outermost container written without a head.
#[derive(Debug, Clone, Copy, PartialEq, Eq, Structural)]
pub enum State {
    First(Option<usize>),
    Empty,
    Rest(Option<usize>),
    FlattenFirst,
    FlattenRest,
}

/// What a `Serializer` holds: the bytes written so far, the nesting depth
/// and the flatten switch.
pub ghost struct SerView {
    pub out: Seq<u8>,
    pub depth: nat,
    pub flatten_top: bool,
}

impl SerView {
    /// The same serializer with `b` written after its bytes.
    pub open spec fn appended(self, b: Seq<u8>) -> SerView {
        SerView { out: self.out + b, depth: self.depth, flatten_top: self.flatten_top }
    }

    /// The same serializer at another depth.
    pub open spec fn at_depth(self, d: nat) -> SerView {
        SerView { out: self.out, depth: d, flatten_top: self.flatten_top }
    }

    /// A container opened now is written without a head.
    pub open spec fn flattens(self) -> bool {
        self.depth == 0 && self.flatten_top
    }
}

/// The item of an integer: unsigned head for `x >= 0`, negative head of
/// `-1 - x` otherwise.
pub open spec fn int_item(x: int) -> Seq<u8> {
    if x >= 0 {
        head(MAJOR_UNSIGNED, x as u64)
    } else {
        head(MAJOR_NEGATIVE, (-1 - x) as u64)
    }
}

/// The head that opens an array of the given length, or an indefinite one.
pub open spec fn seq_frame(len: Option<usize>) -> Seq<u8> {
    match len {
        Some(n) => head(MAJOR_ARRAY, n as u64),
        None => seq![BEGIN_ARRAY],
    }
}

/// The head that opens a map of the given length, or an indefinite one.
pub open spec fn map_frame(len: Option<usize>) -> Seq<u8> {
    match len {
        Some(n) => head(MAJOR_MAP, n as u64),
        None => seq![BEGIN_MAP],
    }
}

/// The state of a container just opened with a head.
pub open spec fn opening(len: Option<usize>) -> State {
    match len {
        Some(n) => if n == 0 {
            State::Empty
        } else {
            State::First(Some(n))
        },
        None => State::First(None),
    }
}

/// The state after one more element (or key).
pub open spec fn after_item(s: State) -> State {
    match s {
        State::First(n) => State::Rest(n),
        State::FlattenFirst => State::FlattenRest,
        _ => s,
    }
}

/// The state of the outermost container written without a head.
pub open spec fn is_flat(s: State) -> bool {
    s == State::FlattenFirst || s == State::FlattenRest
}

/// Closing a container in this state writes a break code: its head was
/// indefinite.
pub open spec fn closes_with_break(s: State) -> bool {
    s == State::First(None) || s == State::Rest(None)
}

/// What closing a container in state `s` writes.
pub open spec fn closing(s: State) -> Seq<u8> {
    if closes_with_break(s) {
        seq![BREAK]
    } else {
        Seq::empty()
    }
}

/// The single-entry map head and the variant name that wrap a variant's payload.
pub open spec fn variant_prefix(variant: Seq<char>) -> Seq<u8> {
    head(MAJOR_MAP, 1) + text_item(variant)
}

/// The encode bridge. It writes to a byte buffer that it owns.
pub struct Serializer {
    out: Vec<u8>,
    depth: u32,
    flatten_top: bool,
}

impl View for Serializer {
    type V = SerView;

    closed spec fn view(&self) -> SerView {
        SerView { out: self.out@, depth: self.depth as nat, flatten_top: self.flatten_top }
    }
}

/// An open container. It holds the state of the container; the serializer
/// is handed to each step.
pub struct Compound {
    pub state: State,
}

impl Compound {
    /// Marks that an element (or a map key) follows.
    pub fn serialize_element(&mut self)
        ensures
            final(self).state == after_item(old(self).state),
    {
        let next = match self.state {
            State::First(n) => State::Rest(n),
            State::FlattenFirst => State::FlattenRest,
            s => s,
        };
        self.state = next;
    }

    /// Marks that a map key follows.
    pub fn serialize_key(&mut self)
        ensures
            final(self).state == after_item(old(self).state),
    {
        self.serialize_element();
    }

    /// Writes the key of a struct field, the field's name as a text string;
    /// its value follows. A flattened struct is the bare run of its field
    /// values, so there no key is written.
    pub fn serialize_field(&mut self, ser: &mut Serializer, key: &str)
        ensures
            final(self).state == after_item(old(self).state),
            is_flat(old(self).state) ==> final(ser)@ == old(ser)@,
            !is_flat(old(self).state) ==> final(ser)@ == old(ser)@.appended(text_item(key@)),
    {
        let flat = match self.state {
            State::FlattenFirst | State::FlattenRest => true,
            _ => false,
        };
        self.serialize_key();
        if !flat {
            put_str(&mut ser.out, key);
        }
    }

    /// Closes the container: a break code where its head was indefinite,
    /// and one level of depth less. Closing at depth zero is refused.
    pub fn end(self, ser: &mut Serializer) -> (r: Result<(), Error>)
        ensures
            old(ser)@.depth == 0 ==> r is Err && final(ser)@ == old(ser)@,
            old(ser)@.depth > 0 ==> r is Ok && final(ser)@ == old(ser)@.appended(
                closing(self.state),
            ).at_depth((old(ser)@.depth - 1) as nat),
            r is Err ==> r->Err_0.kind == ErrorKind::Message,
    {
        if ser.depth == 0 {
            return Err(make_kind_err(ErrorKind::Message, "container closed at depth zero"));
        }
        let s = self.state;
        let ghost before = ser.out@;
        if s == State::First(None) || s == State::Rest(None) {
            put_end(&mut ser.out);
        }
        assert(ser.out@ =~= before + closing(s));
        ser.depth = ser.depth - 1;
        Ok(())
    }
}

/// The error for a container opened where the depth counter is full.
fn too_deep() -> (r: Error)
    ensures
        r.kind == ErrorKind::Message,
{
    make_kind_err(ErrorKind::Message, "nesting depth exceeds the depth counter")
}

impl Serializer {
    /// A serializer that writes after the bytes of `out`, with no flattening.
    pub fn new(out: Vec<u8>) -> (r: Serializer)
        ensures
            r@ == (SerView { out: out@, depth: 0, flatten_top: false }),
    {
        Serializer { out, depth: 0, flatten_top: false }
    }

    /// A serializer that writes after the bytes of `out`, configured by `cfg`.
    pub fn new_with_config(out: Vec<u8>, cfg: Config) -> (r: Serializer)
        ensures
            r@ == (SerView { out: out@, depth: 0, flatten_top: cfg.top_flatten }),
    {
        Serializer { out, depth: 0, flatten_top: cfg.top_flatten }
    }

    /// The bytes written so far.
    pub fn bytes(&self) -> (r: &[u8])
        ensures
            r@ == self@.out,
    {
        self.out.as_slice()
    }

    /// The bytes written, giving up the serializer.
    pub fn into_bytes(self) -> (r: Vec<u8>)
        ensures
            r@ == self@.out,
    {
        self.out
    }

    /// The nesting depth.
    pub fn depth(&self) -> (r: u32)
        ensures
            r as nat == self@.depth,
    {
        self.depth
    }

    /// Appends an item that was encoded by other means (a float, or a value
    /// with an encoding of its own).
    pub fn write_item(&mut self, item: &[u8])
        ensures
            final(self)@ == old(self)@.appended(item@),
    {
        let mut i: usize = 0;
        while i < item.len()
            invariant
                i <= item@.len(),
                self.depth == old(self).depth,
                self.flatten_top == old(self).flatten_top,
                self.out@ == old(self).out@ + item@.subrange(0, i as int),
            decreases item@.len() - i,
        {
            self.out.push(item[i]);
            i = i + 1;
            assert(item@.subrange(0, i as int) =~= item@.subrange(0, i - 1) + seq![item@[i - 1]]);
        }
        assert(item@.subrange(0, i as int) =~= item@);
    }

    pub fn serialize_bool(&mut self, v: bool) -> (r: Result<(), Error>)
        ensures
            r is Ok,
            final(self)@ == old(self)@.appended(seq![if v { 0xf5u8 } else { 0xf4u8 }]),
    {
        put_bool(&mut self.out, v);
        assert(self.out@ =~= old(self)@.out + seq![if v { 0xf5u8 } else { 0xf4u8 }]);
        Ok(())
    }

    pub fn serialize_i8(&mut self, v: i8) -> (r: Result<(), Error>)
        ensures
            r is Ok,
            final(self)@ == old(self)@.appended(int_item(v as int)),
    {
        self.serialize_i64(v as i64)
    }

    pub fn serialize_i16(&mut self, v: i16) -> (r: Result<(), Error>)
        ensures
            r is Ok,
            final(self)@ == old(self)@.appended(int_item(v as int)),
    {
        self.serialize_i64(v as i64)
    }

    pub fn serialize_i32(&mut self, v: i32) -> (r: Result<(), Error>)
        ensures
            r is Ok,
            final(self)@ == old(self)@.appended(int_item(v as int)),
    {
        self.serialize_i64(v as i64)
    }

    pub fn serialize_i64(&mut self, v: i64) -> (r: Result<(), Error>)
        ensures
            r is Ok,
            final(self)@ == old(self)@.appended(int_item(v as int)),
    {
        put_i64(&mut self.out, v);
        Ok(())
    }

    pub fn serialize_u8(&mut self, v: u8) -> (r: Result<(), Error>)
        ensures
            r is Ok,
            final(self)@ == old(self)@.appended(head(MAJOR_UNSIGNED, v as u64)),
    {
        self.serialize_u64(v as u64)
    }

    pub fn serialize_u16(&mut self, v: u16) -> (r: Result<(), Error>)
        ensures
            r is Ok,
            final(self)@ == old(self)@.appended(head(MAJOR_UNSIGNED, v as u64)),
    {
        self.serialize_u64(v as u64)
    }

    pub fn serialize_u32(&mut self, v: u32) -> (r: Result<(), Error>)
        ensures
            r is Ok,
            final(self)@ == old(self)@.appended(head(MAJOR_UNSIGNED, v as u64)),
    {
        self.serialize_u64(v as u64)
    }

    pub fn serialize_u64(&mut self, v: u64) -> (r: Result<(), Error>)
        ensures
            r is Ok,
            final(self)@ == old(self)@.appended(head(MAJOR_UNSIGNED, v)),
    {
        put_u64(&mut self.out, v);
        Ok(())
    }

    /// 128-bit integers are refused; nothing is written.
    pub fn serialize_i128(&mut self, v: i128) -> (r: Result<(), Error>)
        ensures
            r is Err,
            r->Err_0.kind == ErrorKind::Unsupported128BitInteger,
            final(self)@ == old(self)@,
    {
        Err(
            make_kind_err(
                ErrorKind::Unsupported128BitInteger,
                "128-bit integers are not currently supported.",
            ),
        )
    }

    /// 128-bit integers are refused; nothing is written.
    pub fn serialize_u128(&mut self, v: u128) -> (r: Result<(), Error>)
        ensures
            r is Err,
            r->Err_0.kind == ErrorKind::Unsupported128BitInteger,
            final(self)@ == old(self)@,
    {
        Err(
            make_kind_err(
                ErrorKind::Unsupported128BitInteger,
                "128-bit integers are not currently supported.",
            ),
        )
    }

    /// A character, as the unsigned integer of its scalar value.
    pub fn serialize_char(&mut self, v: char) -> (r: Result<(), Error>)
        ensures
            r is Ok,
            final(self)@ == old(self)@.appended(head(MAJOR_UNSIGNED, v as u64)),
    {
        put_char(&mut self.out, v);
        Ok(())
    }

    pub fn serialize_str(&mut self, v: &str) -> (r: Result<(), Error>)
        ensures
            r is Ok,
            final(self)@ == old(self)@.appended(text_item(v@)),
    {
        put_str(&mut self.out, v);
        Ok(())
    }

    pub fn serialize_bytes(&mut self, v: &[u8]) -> (r: Result<(), Error>)
        ensures
            r is Ok,
            final(self)@ == old(self)@.appended(head(MAJOR_BYTES, v@.len() as u64) + v@),
    {
        put_bytes(&mut self.out, v);
        assert(self.out@ =~= old(self)@.out + (head(MAJOR_BYTES, v@.len() as u64) + v@));
        Ok(())
    }

    /// An absent option is written as `null`; a present one is its value
    /// alone, written by the caller.
    pub fn serialize_none(&mut self) -> (r: Result<(), Error>)
        ensures
            r is Ok,
            final(self)@ == old(self)@.appended(seq![NULL]),
    {
        self.serialize_unit()
    }

    pub fn serialize_unit(&mut self) -> (r: Result<(), Error>)
        ensures
            r is Ok,
            final(self)@ == old(self)@.appended(seq![NULL]),
    {
        put_null(&mut self.out);
        assert(self.out@ =~= old(self)@.out + seq![NULL]);
        Ok(())
    }

    pub fn serialize_unit_struct(&mut self, name: &str) -> (r: Result<(), Error>)
        ensures
            r is Ok,
            final(self)@ == old(self)@.appended(seq![NULL]),
    {
        self.serialize_unit()
    }

    /// A unit variant is the bare text of its name.
    pub fn serialize_unit_variant(&mut self, name: &str, variant_index: u32, variant: &str) -> (r:
        Result<(), Error>)
        ensures
            r is Ok,
            final(self)@ == old(self)@.appended(text_item(variant@)),
    {
        self.serialize_str(variant)
    }

    /// Text formatted by the caller, written as a text string.
    pub fn collect_str(&mut self, v: &str) -> (r: Result<(), Error>)
        ensures
            r is Ok,
            final(self)@ == old(self)@.appended(text_item(v@)),
    {
        self.serialize_str(v)
    }

    /// Opens a newtype variant: a single-entry map keyed by the variant's
    /// name, whose value the caller writes next and then closes with
    /// `end_newtype_variant`. The value sits one level deeper, so it is
    /// never flattened.
    pub fn serialize_newtype_variant(&mut self, name: &str, variant_index: u32, variant: &str) -> (r:
        Result<(), Error>)
        ensures
            old(self)@.depth == u32::MAX ==> r is Err && final(self)@ == old(self)@,
            old(self)@.depth < u32::MAX ==> r is Ok && final(self)@ == old(self)@.appended(
                variant_prefix(variant@),
            ).at_depth(old(self)@.depth + 1),
            r is Err ==> r->Err_0.kind == ErrorKind::Message,
    {
        if self.depth == u32::MAX {
            return Err(too_deep());
        }
        self.write_variant_prefix(variant);
        self.depth = self.depth + 1;
        Ok(())
    }

    /// Closes a newtype variant opened by `serialize_newtype_variant`.
    pub fn end_newtype_variant(&mut self) -> (r: Result<(), Error>)
        ensures
            old(self)@.depth == 0 ==> r is Err && final(self)@ == old(self)@,
            old(self)@.depth > 0 ==> r is Ok && final(self)@ == old(self)@.at_depth(
                (old(self)@.depth - 1) as nat,
            ),
            r is Err ==> r->Err_0.kind == ErrorKind::Message,
    {
        if self.depth == 0 {
            return Err(make_kind_err(ErrorKind::Message, "variant closed at depth zero"));
        }
        self.depth = self.depth - 1;
        Ok(())
    }

    fn write_variant_prefix(&mut self, variant: &str)
        ensures
            final(self)@ == old(self)@.appended(variant_prefix(variant@)),
    {
        put_map(&mut self.out, 1);
        put_str(&mut self.out, variant);
        assert(self.out@ =~= old(self)@.out + variant_prefix(variant@));
    }

    /// Opens an array, or the bare outermost run where it may be flattened.
    fn open_seq(&mut self, len: Option<usize>, may_flatten: bool) -> (r: Result<Compound, Error>)
        ensures
            old(self)@.depth == u32::MAX ==> r is Err && final(self)@ == old(self)@,
            old(self)@.depth < u32::MAX ==> r is Ok && final(self)@.depth == old(self)@.depth + 1,
            r is Ok && may_flatten && old(self)@.flattens() ==> r->Ok_0.state == State::FlattenFirst
                && final(self)@.out == old(self)@.out,
            r is Ok && !(may_flatten && old(self)@.flattens()) ==> r->Ok_0.state == opening(len)
                && final(self)@.out == old(self)@.out + seq_frame(len),
            final(self)@.flatten_top == old(self)@.flatten_top,
            r is Err ==> r->Err_0.kind == ErrorKind::Message,
    {
        if self.depth == u32::MAX {
            return Err(too_deep());
        }
        if may_flatten && self.depth == 0 && self.flatten_top {
            self.depth = 1;
            return Ok(Compound { state: State::FlattenFirst });
        }
        let state = match len {
            Some(le) => {
                put_array(&mut self.out, le as u64);
                if le == 0 {
                    State::Empty
                } else {
                    State::First(Some(le))
                }
            },
            None => {
                put_begin_array(&mut self.out);
                assert(self.out@ =~= old(self)@.out + seq_frame(len));
                State::First(None)
            },
        };
        self.depth = self.depth + 1;
        Ok(Compound { state })
    }

    /// Opens a map, or the bare outermost run where it may be flattened.
    fn open_map(&mut self, len: Option<usize>, may_flatten: bool) -> (r: Result<Compound, Error>)
        ensures
            old(self)@.depth == u32::MAX ==> r is Err && final(self)@ == old(self)@,
            old(self)@.depth < u32::MAX ==> r is Ok && final(self)@.depth == old(self)@.depth + 1,
            r is Ok && may_flatten && old(self)@.flattens() ==> r->Ok_0.state == State::FlattenFirst
                && final(self)@.out == old(self)@.out,
            r is Ok && !(may_flatten && old(self)@.flattens()) ==> r->Ok_0.state == opening(len)
                && final(self)@.out == old(self)@.out + map_frame(len),
            final(self)@.flatten_top == old(self)@.flatten_top,
            r is Err ==> r->Err_0.kind == ErrorKind::Message,
    {
        if self.depth == u32::MAX {
            return Err(too_deep());
        }
        if may_flatten && self.depth == 0 && self.flatten_top {
            self.depth = 1;
            return Ok(Compound { state: State::FlattenFirst });
        }
        let state = match len {
            Some(le) => {
                put_map(&mut self.out, le as u64);
                if le == 0 {
                    State::Empty
                } else {
                    State::First(Some(le))
                }
            },
            None => {
                put_begin_map(&mut self.out);
                assert(self.out@ =~= old(self)@.out + map_frame(len));
                State::First(None)
            },
        };
        self.depth = self.depth + 1;
        Ok(Compound { state })
    }

    /// Opens a sequence: a definite array where the length is known, an
    /// indefinite one otherwise, and no head at all for the outermost value
    /// when flattening.
    pub fn serialize_seq(&mut self, len: Option<usize>) -> (r: Result<Compound, Error>)
        ensures
            old(self)@.depth == u32::MAX ==> r is Err && final(self)@ == old(self)@,
            old(self)@.depth < u32::MAX ==> r is Ok && final(self)@.depth == old(self)@.depth + 1,
            r is Ok && old(self)@.flattens() ==> r->Ok_0.state == State::FlattenFirst
                && final(self)@.out == old(self)@.out,
            r is Ok && !old(self)@.flattens() ==> r->Ok_0.state == opening(len)
                && final(self)@.out == old(self)@.out + seq_frame(len),
            final(self)@.flatten_top == old(self)@.flatten_top,
            r is Err ==> r->Err_0.kind == ErrorKind::Message,
    {
        self.open_seq(len, true)
    }

    pub fn serialize_tuple(&mut self, len: usize) -> (r: Result<Compound, Error>)
        ensures
            old(self)@.depth == u32::MAX ==> r is Err && final(self)@ == old(self)@,
            old(self)@.depth < u32::MAX ==> r is Ok && final(self)@.depth == old(self)@.depth + 1,
            r is Ok && old(self)@.flattens() ==> r->Ok_0.state == State::FlattenFirst
                && final(self)@.out == old(self)@.out,
            r is Ok && !old(self)@.flattens() ==> r->Ok_0.state == opening(Some(len))
                && final(self)@.out == old(self)@.out + seq_frame(Some(len)),
            final(self)@.flatten_top == old(self)@.flatten_top,
            r is Err ==> r->Err_0.kind == ErrorKind::Message,
    {
        self.serialize_seq(Some(len))
    }

    pub fn serialize_tuple_struct(&mut self, name: &str, len: usize) -> (r: Result<Compound, Error>)
        ensures
            old(self)@.depth == u32::MAX ==> r is Err && final(self)@ == old(self)@,
            old(self)@.depth < u32::MAX ==> r is Ok && final(self)@.depth == old(self)@.depth + 1,
            r is Ok && old(self)@.flattens() ==> r->Ok_0.state == State::FlattenFirst
                && final(self)@.out == old(self)@.out,
            r is Ok && !old(self)@.flattens() ==> r->Ok_0.state == opening(Some(len))
                && final(self)@.out == old(self)@.out + seq_frame(Some(len)),
            final(self)@.flatten_top == old(self)@.flatten_top,
            r is Err ==> r->Err_0.kind == ErrorKind::Message,
    {
        self.serialize_seq(Some(len))
    }

    /// Opens a tuple variant: a single-entry map keyed by the variant's
    /// name, whose value is an array of the fields.
    pub fn serialize_tuple_variant(
        &mut self,
        name: &str,
        variant_index: u32,
        variant: &str,
        len: usize,
    ) -> (r: Result<Compound, Error>)
        ensures
            old(self)@.depth == u32::MAX ==> r is Err && final(self)@ == old(self)@,
            old(self)@.depth < u32::MAX ==> r is Ok && final(self)@ == old(self)@.appended(
                variant_prefix(variant@) + seq_frame(Some(len)),
            ).at_depth(old(self)@.depth + 1),
            r is Ok ==> r->Ok_0.state == opening(Some(len)),
            r is Err ==> r->Err_0.kind == ErrorKind::Message,
    {
        if self.depth == u32::MAX {
            return Err(too_deep());
        }
        self.write_variant_prefix(variant);
        let r = self.open_seq(Some(len), false);
        assert(self@.out =~= old(self)@.out + (variant_prefix(variant@) + seq_frame(Some(len))));
        r
    }

    /// Opens a map: a definite map where the length is known, an
    /// indefinite one otherwise, and no head at all for the outermost value
    /// when flattening.
    pub fn serialize_map(&mut self, len: Option<usize>) -> (r: Result<Compound, Error>)
        ensures
            old(self)@.depth == u32::MAX ==> r is Err && final(self)@ == old(self)@,
            old(self)@.depth < u32::MAX ==> r is Ok && final(self)@.depth == old(self)@.depth + 1,
            r is Ok && old(self)@.flattens() ==> r->Ok_0.state == State::FlattenFirst
                && final(self)@.out == old(self)@.out,
            r is Ok && !old(self)@.flattens() ==> r->Ok_0.state == opening(len)
                && final(self)@.out == old(self)@.out + map_frame(len),
            final(self)@.flatten_top == old(self)@.flatten_top,
            r is Err ==> r->Err_0.kind == ErrorKind::Message,
    {
        self.open_map(len, true)
    }

    /// Opens a struct: a map of its fields, keyed by their names in
    /// declaration order.
    pub fn serialize_struct(&mut self, name: &str, len: usize) -> (r: Result<Compound, Error>)
        ensures
            old(self)@.depth == u32::MAX ==> r is Err && final(self)@ == old(self)@,
            old(self)@.depth < u32::MAX ==> r is Ok && final(self)@.depth == old(self)@.depth + 1,
            r is Ok && old(self)@.flattens() ==> r->Ok_0.state == State::FlattenFirst
                && final(self)@.out == old(self)@.out,
            r is Ok && !old(self)@.flattens() ==> r->Ok_0.state == opening(Some(len))
                && final(self)@.out == old(self)@.out + map_frame(Some(len)),
            final(self)@.flatten_top == old(self)@.flatten_top,
            r is Err ==> r->Err_0.kind == ErrorKind::Message,
    {
        self.serialize_map(Some(len))
    }

    /// Opens a struct variant: a single-entry map keyed by the variant's
    /// name, whose value is the map of the fields.
    pub fn serialize_struct_variant(
        &mut self,
        name: &str,
        variant_index: u32,
        variant: &str,
        len: usize,
    ) -> (r: Result<Compound, Error>)
        ensures
            old(self)@.depth == u32::MAX ==> r is Err && final(self)@ == old(self)@,
            old(self)@.depth < u32::MAX ==> r is Ok && final(self)@ == old(self)@.appended(
                variant_prefix(variant@) + map_frame(Some(len)),
            ).at_depth(old(self)@.depth + 1),
            r is Ok ==> r->Ok_0.state == opening(Some(len)),
            r is Err ==> r->Err_0.kind == ErrorKind::Message,
    {
        if self.depth == u32::MAX {
            return Err(too_deep());
        }
        self.write_variant_prefix(variant);
        let r = self.open_map(Some(len), false);
        assert(self@.out =~= old(self)@.out + (variant_prefix(variant@) + map_frame(Some(len))));
        r
    }
}

} // verus!
