//! The CBOR wire model: item heads, their decoding, and the classification of
//! the item that starts at a position.
use vstd::prelude::*;
use vstd::utf8::{encode_utf8, valid_utf8};

verus! {

/// The kind of CBOR item that starts at a position, as the decoder sees it.
#[derive(Debug, Clone, Copy, PartialEq, Eq, Structural)]
pub enum WireType {
    Bool,
    Null,
    Undefined,
    U8,
    U16,
    U32,
    U64,
    I8,
    I16,
    I32,
    I64,
    Int,
    F16,
    F32,
    F64,
    Simple,
    Bytes,
    BytesIndef,
    String,
    StringIndef,
    Array,
    ArrayIndef,
    Mapping,
    MappingIndef,
    Tag,
    Break,
    Unknown(u8),
}

/// CBOR major types.
pub const MAJOR_UNSIGNED: u8 = 0;
pub const MAJOR_NEGATIVE: u8 = 1;
pub const MAJOR_BYTES: u8 = 2;
pub const MAJOR_TEXT: u8 = 3;
pub const MAJOR_ARRAY: u8 = 4;
pub const MAJOR_MAP: u8 = 5;

/// The initial byte of an indefinite-length array, map and of the break code.
pub const BEGIN_ARRAY: u8 = 0x9f;
pub const BEGIN_MAP: u8 = 0xbf;
pub const BREAK: u8 = 0xff;
pub const NULL: u8 = 0xf6;
pub const UNDEFINED: u8 = 0xf7;

pub open spec fn pow256(k: nat) -> nat
    decreases k,
{
    if k == 0 {
        1
    } else {
        256 * pow256((k - 1) as nat)
    }
}

/// The `k` bytes of `n` in big-endian order (the low `k` bytes when `n` is larger).
pub open spec fn be_bytes(n: nat, k: nat) -> Seq<u8>
    decreases k,
{
    if k == 0 {
        Seq::empty()
    } else {
        be_bytes(n / 256, (k - 1) as nat).push((n % 256) as u8)
    }
}

/// The number that a run of big-endian bytes stands for.
pub open spec fn be_value(s: Seq<u8>) -> nat
    decreases s.len(),
{
    if s.len() == 0 {
        0
    } else {
        be_value(s.drop_last()) * 256 + s.last() as nat
    }
}

/// The shortest head of an item of major type `major` with argument `n`.
pub open spec fn head(major: u8, n: u64) -> Seq<u8> {
    let t = major as int * 32;
    if n < 24 {
        seq![(t + n) as u8]
    } else if n < 0x100 {
        seq![(t + 24) as u8] + be_bytes(n as nat, 1)
    } else if n < 0x1_0000 {
        seq![(t + 25) as u8] + be_bytes(n as nat, 2)
    } else if n < 0x1_0000_0000 {
        seq![(t + 26) as u8] + be_bytes(n as nat, 4)
    } else {
        seq![(t + 27) as u8] + be_bytes(n as nat, 8)
    }
}

/// A decoded item head: its major type, the additional information of the
/// initial byte, the argument, and the position just after the head.
pub ghost struct Head {
    pub major: nat,
    pub info: nat,
    pub arg: nat,
    pub end: int,
}

/// The number of argument bytes that follow an initial byte with this
/// additional information.
pub open spec fn arg_width(info: nat) -> nat {
    if info == 24 {
        1
    } else if info == 25 {
        2
    } else if info == 26 {
        4
    } else if info == 27 {
        8
    } else {
        0
    }
}

/// The head that starts at `pos`, if the input holds all of it.
pub open spec fn read_head(data: Seq<u8>, pos: int) -> Option<Head> {
    if pos < 0 || pos >= data.len() {
        None
    } else {
        let b = data[pos] as nat;
        let info = b % 32;
        let w = arg_width(info);
        if pos + 1 + w > data.len() {
            None
        } else {
            Some(
                Head {
                    major: b / 32,
                    info,
                    arg: if info < 24 {
                        info
                    } else {
                        be_value(data.subrange(pos + 1, pos + 1 + w))
                    },
                    end: pos + 1 + w,
                },
            )
        }
    }
}

/// A definite head of the given major type starts at `pos`.
pub open spec fn definite_head(data: Seq<u8>, pos: int, major: nat) -> bool {
    match read_head(data, pos) {
        Some(h) => h.major == major && h.info <= 27,
        None => false,
    }
}

/// An unsigned integer no larger than `max` starts at `pos`.
pub open spec fn uint_fits(data: Seq<u8>, pos: int, max: nat) -> bool {
    definite_head(data, pos, 0) && read_head(data, pos)->Some_0.arg <= max
}

/// An integer, unsigned or negative, starts at `pos`.
pub open spec fn is_int_at(data: Seq<u8>, pos: int) -> bool {
    definite_head(data, pos, 0) || definite_head(data, pos, 1)
}

/// The value of the integer that starts at `pos`.
pub open spec fn int_at(data: Seq<u8>, pos: int) -> int {
    let h = read_head(data, pos)->Some_0;
    if h.major == 0 {
        h.arg as int
    } else {
        -1 - h.arg
    }
}

/// The number of an `Array`/`Map` head: `None` for an indefinite length.
pub open spec fn container_len(data: Seq<u8>, pos: int) -> Option<u64> {
    let h = read_head(data, pos)->Some_0;
    if h.info == 31 {
        None
    } else {
        Some(h.arg as u64)
    }
}

/// A head of an array or map (major `major`), definite or indefinite, starts at `pos`.
pub open spec fn container_head(data: Seq<u8>, pos: int, major: nat) -> bool {
    match read_head(data, pos) {
        Some(h) => h.major == major && (h.info <= 27 || h.info == 31),
        None => false,
    }
}

/// A definite string of major `major` whose payload lies inside the input starts at `pos`.
pub open spec fn string_fits(data: Seq<u8>, pos: int, major: nat) -> bool {
    definite_head(data, pos, major) && read_head(data, pos)->Some_0.end + read_head(
        data,
        pos,
    )->Some_0.arg <= data.len()
}

/// The payload of the definite string that starts at `pos`.
pub open spec fn payload(data: Seq<u8>, pos: int) -> Seq<u8> {
    let h = read_head(data, pos)->Some_0;
    data.subrange(h.end, h.end + h.arg)
}

/// The position just after the definite string that starts at `pos`.
pub open spec fn payload_end(data: Seq<u8>, pos: int) -> int {
    let h = read_head(data, pos)->Some_0;
    h.end + h.arg
}

/// The argument of the head that starts at `pos`.
pub open spec fn head_arg(data: Seq<u8>, pos: int) -> nat {
    read_head(data, pos)->Some_0.arg
}

/// The position just after the head that starts at `pos`.
pub open spec fn head_end(data: Seq<u8>, pos: int) -> int {
    read_head(data, pos)->Some_0.end
}

/// Whether `x` is a value of `i64`.
pub open spec fn int_in_i64(x: int) -> bool {
    i64::MIN <= x && x <= i64::MAX
}

/// An integer that fits in `i64` starts at `pos`.
pub open spec fn i64_fits(data: Seq<u8>, pos: int) -> bool {
    is_int_at(data, pos) && int_in_i64(int_at(data, pos))
}

/// An unsigned integer that is a Unicode scalar value starts at `pos`.
pub open spec fn char_fits(data: Seq<u8>, pos: int) -> bool {
    uint_fits(data, pos, 0xffff_ffff) && is_scalar_value(head_arg(data, pos))
}

/// A definite text string of valid UTF-8 starts at `pos`.
pub open spec fn text_fits(data: Seq<u8>, pos: int) -> bool {
    string_fits(data, pos, 3) && valid_utf8(payload(data, pos))
}

/// A boolean starts at `pos`.
pub open spec fn bool_at(data: Seq<u8>, pos: int) -> bool {
    0 <= pos && pos < data.len() && (data[pos] == 0xf4 || data[pos] == 0xf5)
}

/// A definite text string item holding `s`.
pub open spec fn text_item(s: Seq<char>) -> Seq<u8> {
    head(MAJOR_TEXT, encode_utf8(s).len() as u64) + encode_utf8(s)
}

/// Whether `n` is a Unicode scalar value.
pub open spec fn is_scalar_value(n: nat) -> bool {
    n < 0xD800 || (0xE000 <= n && n <= 0x10FFFF)
}

/// The type of the item that starts at `pos`: CBOR's classification of the
/// initial byte, where a negative integer's width depends on its first
/// argument byte.
pub open spec fn type_at(data: Seq<u8>, pos: int) -> Option<WireType> {
    if pos < 0 || pos >= data.len() {
        None
    } else {
        let b = data[pos];
        if 0x38 <= b && b <= 0x3b {
            if pos + 1 >= data.len() {
                None
            } else {
                Some(negative_type(b, data[pos + 1] < 0x80))
            }
        } else {
            Some(byte_type(b))
        }
    }
}

/// The type of a negative integer with a 1, 2, 4 or 8 byte argument.
pub open spec fn negative_type(b: u8, small: bool) -> WireType {
    if b == 0x38 {
        if small { WireType::I8 } else { WireType::I16 }
    } else if b == 0x39 {
        if small { WireType::I16 } else { WireType::I32 }
    } else if b == 0x3a {
        if small { WireType::I32 } else { WireType::I64 }
    } else {
        if small { WireType::I64 } else { WireType::Int }
    }
}

/// The type that the initial byte `b` alone determines.
pub open spec fn byte_type(b: u8) -> WireType {
    if b <= 0x18 {
        WireType::U8
    } else if b == 0x19 {
        WireType::U16
    } else if b == 0x1a {
        WireType::U32
    } else if b == 0x1b {
        WireType::U64
    } else if 0x20 <= b && b <= 0x37 {
        WireType::I8
    } else if 0x40 <= b && b <= 0x5b {
        WireType::Bytes
    } else if b == 0x5f {
        WireType::BytesIndef
    } else if 0x60 <= b && b <= 0x7b {
        WireType::String
    } else if b == 0x7f {
        WireType::StringIndef
    } else if 0x80 <= b && b <= 0x9b {
        WireType::Array
    } else if b == 0x9f {
        WireType::ArrayIndef
    } else if 0xa0 <= b && b <= 0xbb {
        WireType::Mapping
    } else if b == 0xbf {
        WireType::MappingIndef
    } else if 0xc0 <= b && b <= 0xdb {
        WireType::Tag
    } else if (0xe0 <= b && b <= 0xf3) || b == 0xf8 {
        WireType::Simple
    } else if b == 0xf4 || b == 0xf5 {
        WireType::Bool
    } else if b == 0xf6 {
        WireType::Null
    } else if b == 0xf7 {
        WireType::Undefined
    } else if b == 0xf9 {
        WireType::F16
    } else if b == 0xfa {
        WireType::F32
    } else if b == 0xfb {
        WireType::F64
    } else if b == 0xff {
        WireType::Break
    } else {
        WireType::Unknown(b)
    }
}

proof fn lemma_pow256_mono(i: nat, j: nat)
    requires
        i <= j,
    ensures
        pow256(i) <= pow256(j),
    decreases j,
{
    if i < j {
        lemma_pow256_mono(i, (j - 1) as nat);
    }
}

/// The head that starts at `pos`, as plain values: major type, additional
/// information, argument and the position after the head.
pub fn head_at(data: &[u8], pos: usize) -> (r: Option<(u8, u8, u64, usize)>)
    ensures
        r is Some <==> read_head(data@, pos as int) is Some,
        r is Some ==> r->Some_0.0 as nat == read_head(data@, pos as int)->Some_0.major,
        r is Some ==> r->Some_0.1 as nat == read_head(data@, pos as int)->Some_0.info,
        r is Some ==> r->Some_0.2 as nat == read_head(data@, pos as int)->Some_0.arg,
        r is Some ==> r->Some_0.3 as int == read_head(data@, pos as int)->Some_0.end,
{
    if pos >= data.len() {
        return None;
    }
    let b = data[pos];
    let major = b / 32;
    let info = b % 32;
    if info < 24 || info > 27 {
        return Some((major, info, if info < 24 { info as u64 } else { 0 }, pos + 1));
    }
    let w: usize = if info == 24 {
        1
    } else if info == 25 {
        2
    } else if info == 26 {
        4
    } else {
        8
    };
    if w >= data.len() - pos {
        return None;
    }
    let ghost start = pos as int + 1;
    proof {
        reveal_with_fuel(pow256, 9);
    }
    let mut v: u64 = 0;
    let mut i: usize = 0;
    while i < w
        invariant
            i <= w <= 8,
            w as nat == arg_width(info as nat),
            pos + 1 + w <= data@.len(),
            data@.len() <= usize::MAX,
            start == pos + 1,
            v as nat == be_value(data@.subrange(start, start + i)),
            (v as nat) < pow256(i as nat),
            pow256(8) == 0x1_0000_0000_0000_0000,
        decreases w - i,
    {
        let ghost s = data@.subrange(start, start + i);
        let byte = data[pos + 1 + i];
        proof {
            lemma_pow256_mono((i + 1) as nat, 8);
            assert(pow256((i + 1) as nat) == 256 * pow256(i as nat));
            assert((v as nat) * 256 + (byte as nat) < pow256((i + 1) as nat)) by (nonlinear_arith)
                requires
                    (v as nat) < pow256(i as nat),
                    byte < 256,
                    pow256((i + 1) as nat) == 256 * pow256(i as nat),
            ;
            assert(data@.subrange(start, start + i + 1).drop_last() =~= s);
        }
        v = v * 256 + byte as u64;
        i = i + 1;
    }
    Some((major, info, v, pos + 1 + w))
}

} // verus!
