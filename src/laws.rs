//! What holds between the bytes the encode bridge writes and what the
//! decode bridge reads from them.
//!
//! The encoder's contracts say which bytes each call writes (`head`,
//! `int_item`, `text_item`, `seq_frame`, `map_frame`, `variant_prefix`);
//! the decoder's contracts say what each call reads in terms of
//! `read_head` and its relatives. The lemmas here connect the two: each
//! item written, wherever it stands in the input, reads back as the value
//! that was written.
use vstd::prelude::*;
use vstd::utf8::{decode_utf8, encode_utf8, encode_utf8_decode_utf8, encode_utf8_valid_utf8};
use crate::de::{dispatch, Dispatch};
use crate::ser::{int_item, map_frame, seq_frame, variant_prefix};
use crate::wire::{
    arg_width, be_bytes, be_value, bool_at, char_fits, container_head, container_len, head,
    head_arg, head_end, i64_fits, int_at, payload, payload_end, pow256, read_head, string_fits,
    text_fits, text_item, type_at, uint_fits, WireType, BEGIN_ARRAY, BEGIN_MAP, MAJOR_ARRAY,
    MAJOR_BYTES, MAJOR_MAP, MAJOR_NEGATIVE, MAJOR_TEXT, MAJOR_UNSIGNED, BREAK,
};

verus! {

proof fn lemma_be_round_trip(n: nat, k: nat)
    requires
        n < pow256(k),
    ensures
        be_bytes(n, k).len() == k,
        be_value(be_bytes(n, k)) == n,
    decreases k,
{
    if k > 0 {
        let k1 = (k - 1) as nat;
        assert(n / 256 < pow256(k1)) by (nonlinear_arith)
            requires
                n < pow256(k),
                pow256(k) == 256 * pow256(k1),
        ;
        lemma_be_round_trip(n / 256, k1);
        let s = be_bytes(n, k);
        assert(s.drop_last() =~= be_bytes(n / 256, k1));
        assert((n / 256) * 256 + n % 256 == n) by (nonlinear_arith);
    }
}

/// The head of an item of major type `m` with argument `x`, standing after
/// `pre` and followed by `rest`, reads back as that major type and argument,
/// with the next item right after it.
pub proof fn head_reads_back(m: u8, x: u64, pre: Seq<u8>, rest: Seq<u8>)
    requires
        m < 8,
    ensures
        ({
            let d = pre + head(m, x) + rest;
            let p = pre.len() as int;
            &&& read_head(d, p) is Some
            &&& read_head(d, p)->Some_0.major == m
            &&& read_head(d, p)->Some_0.info <= 27
            &&& read_head(d, p)->Some_0.arg == x
            &&& read_head(d, p)->Some_0.end == p + head(m, x).len()
        }),
{
    let d = pre + head(m, x) + rest;
    let p = pre.len() as int;
    let h = head(m, x);
    reveal_with_fuel(pow256, 9);
    let t = m as int * 32;
    let k: nat = if x < 24 {
        0
    } else if x < 0x100 {
        1
    } else if x < 0x1_0000 {
        2
    } else if x < 0x1_0000_0000 {
        4
    } else {
        8
    };
    let c: int = if x < 24 {
        x as int
    } else if x < 0x100 {
        24
    } else if x < 0x1_0000 {
        25
    } else if x < 0x1_0000_0000 {
        26
    } else {
        27
    };
    if k > 0 {
        lemma_be_round_trip(x as nat, k);
        assert(h =~= seq![(t + c) as u8] + be_bytes(x as nat, k));
    }
    assert(h.len() == 1 + k);
    assert(d[p] == h[0]);
    assert(h[0] == (t + c) as u8);
    assert(((t + c) as u8) as nat / 32 == m as nat && ((t + c) as u8) as nat % 32 == c);
    if k > 0 {
        assert(d.subrange(p + 1, p + 1 + k) =~= be_bytes(x as nat, k));
    }
}

/// An unsigned integer written by the encoder reads back as itself.
pub proof fn uint_reads_back(x: u64, pre: Seq<u8>, rest: Seq<u8>)
    ensures
        ({
            let d = pre + head(MAJOR_UNSIGNED, x) + rest;
            let p = pre.len() as int;
            &&& uint_fits(d, p, x as nat)
            &&& head_arg(d, p) == x
            &&& head_end(d, p) == p + head(MAJOR_UNSIGNED, x).len()
        }),
{
    head_reads_back(MAJOR_UNSIGNED, x, pre, rest);
}

/// A signed integer written by the encoder reads back as itself.
pub proof fn int_reads_back(x: i64, pre: Seq<u8>, rest: Seq<u8>)
    ensures
        ({
            let d = pre + int_item(x as int) + rest;
            let p = pre.len() as int;
            &&& i64_fits(d, p)
            &&& int_at(d, p) == x
            &&& head_end(d, p) == p + int_item(x as int).len()
        }),
{
    if x >= 0 {
        head_reads_back(MAJOR_UNSIGNED, x as u64, pre, rest);
    } else {
        head_reads_back(MAJOR_NEGATIVE, (-1 - x) as u64, pre, rest);
    }
}

/// A character written by the encoder reads back as itself.
pub proof fn char_reads_back(c: char, pre: Seq<u8>, rest: Seq<u8>)
    ensures
        ({
            let d = pre + head(MAJOR_UNSIGNED, c as u64) + rest;
            let p = pre.len() as int;
            &&& char_fits(d, p)
            &&& head_arg(d, p) == c as nat
            &&& head_end(d, p) == p + head(MAJOR_UNSIGNED, c as u64).len()
        }),
{
    head_reads_back(MAJOR_UNSIGNED, c as u64, pre, rest);
    vstd::utf8::char_is_scalar(c);
}

/// A boolean written by the encoder reads back as itself.
pub proof fn bool_reads_back(v: bool, pre: Seq<u8>, rest: Seq<u8>)
    ensures
        ({
            let d = pre + seq![if v { 0xf5u8 } else { 0xf4u8 }] + rest;
            let p = pre.len() as int;
            bool_at(d, p) && (d[p] == 0xf5) == v
        }),
{
    let d = pre + seq![if v { 0xf5u8 } else { 0xf4u8 }] + rest;
    assert(d[pre.len() as int] == if v { 0xf5u8 } else { 0xf4u8 });
}

/// A text string written by the encoder reads back as the same characters.
pub proof fn text_reads_back(s: Seq<char>, pre: Seq<u8>, rest: Seq<u8>)
    requires
        encode_utf8(s).len() <= u64::MAX,
    ensures
        ({
            let d = pre + text_item(s) + rest;
            let p = pre.len() as int;
            &&& text_fits(d, p)
            &&& decode_utf8(payload(d, p)) == s
            &&& payload_end(d, p) == p + text_item(s).len()
        }),
{
    let b = encode_utf8(s);
    let hd = head(MAJOR_TEXT, b.len() as u64);
    head_reads_back(MAJOR_TEXT, b.len() as u64, pre, b + rest);
    assert(pre + text_item(s) + rest =~= pre + hd + (b + rest));
    let d = pre + text_item(s) + rest;
    let p = pre.len() as int;
    assert(payload(d, p) =~= b);
    encode_utf8_valid_utf8(s);
    encode_utf8_decode_utf8(s);
}

/// A byte string written by the encoder reads back as the same bytes.
pub proof fn bytes_reads_back(b: Seq<u8>, pre: Seq<u8>, rest: Seq<u8>)
    requires
        b.len() <= u64::MAX,
    ensures
        ({
            let d = pre + (head(MAJOR_BYTES, b.len() as u64) + b) + rest;
            let p = pre.len() as int;
            &&& string_fits(d, p, 2)
            &&& payload(d, p) == b
            &&& payload_end(d, p) == p + head(MAJOR_BYTES, b.len() as u64).len() + b.len()
        }),
{
    let hd = head(MAJOR_BYTES, b.len() as u64);
    head_reads_back(MAJOR_BYTES, b.len() as u64, pre, b + rest);
    assert(pre + (hd + b) + rest =~= pre + hd + (b + rest));
    let d = pre + (hd + b) + rest;
    assert(payload(d, pre.len() as int) =~= b);
}

/// The wrapper the encoder writes before a variant's payload reads back as
/// a map head of exactly one entry whose key is the variant's name; the
/// payload follows right after it.
pub proof fn variant_prefix_reads_back(variant: Seq<char>, pre: Seq<u8>, rest: Seq<u8>)
    requires
        encode_utf8(variant).len() <= u64::MAX,
    ensures
        ({
            let d = pre + variant_prefix(variant) + rest;
            let p = pre.len() as int;
            let k = head_end(d, p);
            &&& container_head(d, p, 5)
            &&& container_len(d, p) == Some(1u64)
            &&& text_fits(d, k)
            &&& decode_utf8(payload(d, k)) == variant
            &&& payload_end(d, k) == p + variant_prefix(variant).len()
        }),
{
    let hd = head(MAJOR_MAP, 1);
    let t = text_item(variant);
    head_reads_back(MAJOR_MAP, 1, pre, t + rest);
    assert(pre + variant_prefix(variant) + rest =~= pre + hd + (t + rest));
    text_reads_back(variant, pre + hd, rest);
    assert(pre + hd + t + rest =~= pre + variant_prefix(variant) + rest);
}

/// The head the encoder opens a sequence with reads back as an array head
/// of the same length, definite or indefinite.
pub proof fn seq_frame_reads_back(len: Option<usize>, pre: Seq<u8>, rest: Seq<u8>)
    ensures
        ({
            let d = pre + seq_frame(len) + rest;
            let p = pre.len() as int;
            &&& container_head(d, p, 4)
            &&& container_len(d, p) == (match len {
                Some(n) => Some(n as u64),
                None => None::<u64>,
            })
            &&& head_end(d, p) == p + seq_frame(len).len()
        }),
{
    match len {
        Some(n) => head_reads_back(MAJOR_ARRAY, n as u64, pre, rest),
        None => {
            let d = pre + seq![BEGIN_ARRAY] + rest;
            assert(d[pre.len() as int] == BEGIN_ARRAY);
        },
    }
}

/// The head the encoder opens a map with reads back as a map head of the
/// same length, definite or indefinite.
pub proof fn map_frame_reads_back(len: Option<usize>, pre: Seq<u8>, rest: Seq<u8>)
    ensures
        ({
            let d = pre + map_frame(len) + rest;
            let p = pre.len() as int;
            &&& container_head(d, p, 5)
            &&& container_len(d, p) == (match len {
                Some(n) => Some(n as u64),
                None => None::<u64>,
            })
            &&& head_end(d, p) == p + map_frame(len).len()
        }),
{
    match len {
        Some(n) => head_reads_back(MAJOR_MAP, n as u64, pre, rest),
        None => {
            let d = pre + seq![BEGIN_MAP] + rest;
            assert(d[pre.len() as int] == BEGIN_MAP);
        },
    }
}

proof fn lemma_be_first_bound(s: Seq<u8>)
    requires
        s.len() >= 1,
    ensures
        be_value(s) < (s[0] as nat + 1) * pow256((s.len() - 1) as nat),
    decreases s.len(),
{
    let t = s.drop_last();
    let f = s[0] as nat + 1;
    let k = (s.len() - 1) as nat;
    let v = be_value(s);
    assert(v == be_value(t) * 256 + (s.last() as nat));
    if s.len() == 1 {
        assert(t.len() == 0);
        assert(pow256(k) == 1);
        assert(v < f * pow256(k)) by (nonlinear_arith)
            requires
                v == s[0] as nat,
                f == s[0] as nat + 1,
                pow256(k) == 1,
        ;
    } else {
        lemma_be_first_bound(t);
        assert(t[0] == s[0]);
        let q = pow256((k - 1) as nat);
        assert(pow256(k) == 256 * q);
        let a = be_value(t);
        assert(v < f * pow256(k)) by (nonlinear_arith)
            requires
                a < f * q,
                s.last() < 256,
                v == a * 256 + (s.last() as nat),
                pow256(k) == 256 * q,
        ;
    }
}

proof fn lemma_arg_bound(d: Seq<u8>, p: int)
    requires
        read_head(d, p) is Some,
        24 <= read_head(d, p)->Some_0.info <= 27,
    ensures
        read_head(d, p)->Some_0.arg < (d[p + 1] as nat + 1) * pow256(
            (arg_width(read_head(d, p)->Some_0.info) - 1) as nat,
        ),
{
    let h = read_head(d, p)->Some_0;
    let w = arg_width(h.info);
    let s = d.subrange(p + 1, p + 1 + w);
    lemma_be_first_bound(s);
    assert(s[0] == d[p + 1]);
}

/// Type dispatch sends an item only to a reader that accepts it: where the
/// head at `p` is complete, the integer, boolean, array and map paths that
/// `dispatch` picks for the item's type read it without a range or type
/// failure. So decoding through dispatch and decoding with the matching
/// type-specific reader take the same path to the same value.
pub proof fn dispatch_agrees_with_readers(d: Seq<u8>, p: int)
    requires
        read_head(d, p) is Some,
        type_at(d, p) is Some,
    ensures
        ({
            let t = dispatch(type_at(d, p)->Some_0);
            &&& t == Some(Dispatch::U8) ==> uint_fits(d, p, 0xff)
            &&& t == Some(Dispatch::U16) ==> uint_fits(d, p, 0xffff)
            &&& t == Some(Dispatch::U32) ==> uint_fits(d, p, 0xffff_ffff)
            &&& t == Some(Dispatch::U64) ==> uint_fits(d, p, u64::MAX as nat)
            &&& t == Some(Dispatch::I8) ==> i64_fits(d, p) && -0x80 <= int_at(d, p)
            &&& t == Some(Dispatch::I16) ==> i64_fits(d, p) && -0x8000 <= int_at(d, p)
            &&& t == Some(Dispatch::I32) ==> i64_fits(d, p) && -0x8000_0000 <= int_at(d, p)
            &&& t == Some(Dispatch::I64) ==> i64_fits(d, p)
            &&& t == Some(Dispatch::Bool) ==> bool_at(d, p)
            &&& t == Some(Dispatch::Sequence) ==> container_head(d, p, 4)
            &&& t == Some(Dispatch::Mapping) ==> container_head(d, p, 5)
        }),
{
    reveal_with_fuel(pow256, 9);
    let h = read_head(d, p)->Some_0;
    let b = d[p];
    assert(h.major == b as nat / 32 && h.info == b as nat % 32);
    if 24 <= h.info <= 27 {
        lemma_arg_bound(d, p);
        let x = d[p + 1] as nat;
        let w = arg_width(h.info);
        assert(x + 1 <= 256);
        assert(h.arg < pow256(w)) by (nonlinear_arith)
            requires
                h.arg < (x + 1) * pow256((w - 1) as nat),
                x + 1 <= 256,
                w >= 1,
                pow256(w) == 256 * pow256((w - 1) as nat),
        ;
        if 0x38 <= b <= 0x3b && x < 0x80 {
            assert(h.arg < 0x80 * pow256((w - 1) as nat)) by (nonlinear_arith)
                requires
                    h.arg < (x + 1) * pow256((w - 1) as nat),
                    x + 1 <= 0x80,
            ;
        }
    }
}

/// The bytes of a run of items, one after another.
pub open spec fn concat(items: Seq<Seq<u8>>) -> Seq<u8>
    decreases items.len(),
{
    if items.len() == 0 {
        Seq::empty()
    } else {
        concat(items.drop_last()) + items.last()
    }
}

proof fn lemma_concat_split(items: Seq<Seq<u8>>, i: int)
    requires
        0 <= i <= items.len(),
    ensures
        concat(items) == concat(items.take(i)) + concat(items.skip(i)),
    decreases items.len(),
{
    if i == items.len() {
        assert(items.take(i) =~= items);
        assert(items.skip(i).len() == 0);
        assert(concat(items) =~= concat(items.take(i)) + concat(items.skip(i)));
    } else {
        let dl = items.drop_last();
        lemma_concat_split(dl, i);
        assert(dl.take(i) =~= items.take(i));
        assert(items.skip(i).drop_last() =~= dl.skip(i));
        assert(items.skip(i).last() == items.last());
        assert(concat(items) =~= concat(items.take(i)) + concat(items.skip(i)));
    }
}

proof fn lemma_concat_first(items: Seq<Seq<u8>>)
    requires
        items.len() >= 1,
    ensures
        concat(items) == items[0] + concat(items.drop_first()),
    decreases items.len(),
{
    let dl = items.drop_last();
    if items.len() == 1 {
        assert(items.drop_first().len() == 0);
        assert(dl.len() == 0);
        assert(concat(dl) == Seq::<u8>::empty());
        assert(concat(items.drop_first()) == Seq::<u8>::empty());
        assert(concat(items) == concat(dl) + items.last());
        assert(items.last() == items[0]);
        assert(concat(items) =~= items[0] + concat(items.drop_first()));
    } else {
        lemma_concat_first(dl);
        assert(dl[0] == items[0]);
        assert(items.drop_first().drop_last() =~= dl.drop_first());
        assert(items.drop_first().last() == items.last());
        assert(concat(items.drop_first()) == concat(dl.drop_first()) + items.last());
        assert(concat(items) == concat(dl) + items.last());
        assert(concat(items) =~= items[0] + concat(items.drop_first()));
    }
}

/// The type of an item is decided by its own bytes: a copy of them
/// anywhere in a larger input has the same type.
proof fn lemma_type_local(d: Seq<u8>, q: int, item: Seq<u8>)
    requires
        0 <= q,
        q + item.len() <= d.len(),
        d.subrange(q, q + item.len()) == item,
        type_at(item, 0) is Some,
    ensures
        type_at(d, q) == type_at(item, 0),
{
    assert(d[q] == d.subrange(q, q + item.len())[0]);
    if 0x38 <= item[0] <= 0x3b {
        assert(d[q + 1] == d.subrange(q, q + item.len())[1]);
    }
}

/// Every item is classifiable from its own bytes and none is a break code.
pub open spec fn plain_items(items: Seq<Seq<u8>>) -> bool {
    forall|j: int|
        0 <= j < items.len() ==> #[trigger] type_at(items[j], 0) is Some && type_at(items[j], 0)
            != Some(WireType::Break)
}

/// The run of items after any definite head `fd`, and after a one-byte
/// indefinite head closed with a break code, holds item `i` at the same
/// offset, with the break code after the last one.
proof fn lemma_runs_agree(
    items: Seq<Seq<u8>>,
    i: int,
    pre: Seq<u8>,
    rest: Seq<u8>,
    fd: Seq<u8>,
    fi: Seq<u8>,
)
    requires
        0 <= i <= items.len(),
        plain_items(items),
        fi.len() == 1,
    ensures
        ({
            let body = concat(items);
            let def = pre + fd + body + rest;
            let ind = pre + fi + body + seq![BREAK] + rest;
            let pd = pre.len() + fd.len() as int;
            let pi = pre.len() + 1int;
            let off = concat(items.take(i)).len() as int;
            &&& i < items.len() ==> def.subrange(pd + off, pd + off + items[i].len()) == items[i]
            &&& i < items.len() ==> ind.subrange(pi + off, pi + off + items[i].len()) == items[i]
            &&& i < items.len() ==> type_at(def, pd + off) == type_at(items[i], 0)
            &&& i < items.len() ==> type_at(ind, pi + off) == type_at(items[i], 0)
            &&& i < items.len() ==> type_at(ind, pi + off) != Some(WireType::Break)
            &&& i == items.len() ==> type_at(ind, pi + off) == Some(WireType::Break)
        }),
{
    let n = items.len();
    let body = concat(items);
    let def = pre + fd + body + rest;
    let ind = pre + fi + body + seq![BREAK] + rest;
    let pd = pre.len() + fd.len() as int;
    let pi = pre.len() + 1int;
    lemma_concat_split(items, i);
    let off = concat(items.take(i)).len() as int;
    if i < n {
        let tail = items.skip(i);
        lemma_concat_first(tail);
        assert(tail[0] == items[i]);
        let it = items[i];
        assert(body =~= concat(items.take(i)) + it + concat(tail.drop_first()));
        assert(def.subrange(pd + off, pd + off + it.len()) =~= it);
        assert(ind.subrange(pi + off, pi + off + it.len()) =~= it);
        assert(type_at(items[i], 0) is Some);
        lemma_type_local(def, pd + off, it);
        lemma_type_local(ind, pi + off, it);
    } else {
        assert(items.take(i) =~= items);
        assert(ind[pi + off] == BREAK);
    }
}

/// The same run of items framed by a definite array head and by an
/// indefinite one closed with a break code reads alike, element by
/// element: at each step `i` before the last item both inputs hold the
/// same item, whose type is no break code (so an indefinite sequence access
/// goes on, as a definite one does while its count lasts), and after the
/// last item the indefinite input holds the break code (so its access
/// ends, as the definite one does when the count runs out).
pub proof fn definite_and_indefinite_runs_agree(
    items: Seq<Seq<u8>>,
    i: int,
    pre: Seq<u8>,
    rest: Seq<u8>,
)
    requires
        0 <= i <= items.len(),
        items.len() <= usize::MAX,
        plain_items(items),
    ensures
        ({
            let n = items.len();
            let body = concat(items);
            let def = pre + seq_frame(Some(n as usize)) + body + rest;
            let ind = pre + seq_frame(None) + body + seq![BREAK] + rest;
            let pd = pre.len() + seq_frame(Some(n as usize)).len() as int;
            let pi = pre.len() + 1int;
            let off = concat(items.take(i)).len() as int;
            &&& container_len(def, pre.len() as int) == Some(n as u64)
            &&& container_len(ind, pre.len() as int) is None
            &&& i < n ==> def.subrange(pd + off, pd + off + items[i].len()) == items[i]
            &&& i < n ==> ind.subrange(pi + off, pi + off + items[i].len()) == items[i]
            &&& i < n ==> type_at(def, pd + off) == type_at(items[i], 0)
            &&& i < n ==> type_at(ind, pi + off) == type_at(items[i], 0)
            &&& i < n ==> type_at(ind, pi + off) != Some(WireType::Break)
            &&& i == n ==> type_at(ind, pi + off) == Some(WireType::Break)
        }),
{
    let n = items.len();
    let body = concat(items);
    let fd = seq_frame(Some(n as usize));
    let fi = seq_frame(None);
    seq_frame_reads_back(Some(n as usize), pre, body + rest);
    seq_frame_reads_back(None, pre, body + seq![BREAK] + rest);
    assert(pre + fd + body + rest =~= pre + fd + (body + rest));
    assert(pre + fi + body + seq![BREAK] + rest =~= pre + fi + (body + seq![BREAK] + rest));
    lemma_runs_agree(items, i, pre, rest, fd, fi);
}

/// The same keys and values, alternating, framed by a definite map head of
/// `n` entries and by an indefinite one closed with a break code read
/// alike, item by item: at each step `i` before the last item both inputs
/// hold the same key or value, whose type is no break code (so an
/// indefinite map access goes on, as a definite one does while its count
/// lasts), and after the last value the indefinite input holds the break
/// code (so its access ends, as the definite one does when the count runs
/// out).
pub proof fn definite_and_indefinite_maps_agree(
    items: Seq<Seq<u8>>,
    n: usize,
    i: int,
    pre: Seq<u8>,
    rest: Seq<u8>,
)
    requires
        items.len() == 2 * n,
        0 <= i <= items.len(),
        plain_items(items),
    ensures
        ({
            let body = concat(items);
            let def = pre + map_frame(Some(n)) + body + rest;
            let ind = pre + map_frame(None) + body + seq![BREAK] + rest;
            let pd = pre.len() + map_frame(Some(n)).len() as int;
            let pi = pre.len() + 1int;
            let off = concat(items.take(i)).len() as int;
            &&& container_len(def, pre.len() as int) == Some(n as u64)
            &&& container_len(ind, pre.len() as int) is None
            &&& i < items.len() ==> def.subrange(pd + off, pd + off + items[i].len()) == items[i]
            &&& i < items.len() ==> ind.subrange(pi + off, pi + off + items[i].len()) == items[i]
            &&& i < items.len() ==> type_at(def, pd + off) == type_at(items[i], 0)
            &&& i < items.len() ==> type_at(ind, pi + off) == type_at(items[i], 0)
            &&& i < items.len() ==> type_at(ind, pi + off) != Some(WireType::Break)
            &&& i == items.len() ==> type_at(ind, pi + off) == Some(WireType::Break)
        }),
{
    let body = concat(items);
    let fd = map_frame(Some(n));
    let fi = map_frame(None);
    map_frame_reads_back(Some(n), pre, body + rest);
    map_frame_reads_back(None, pre, body + seq![BREAK] + rest);
    assert(pre + fd + body + rest =~= pre + fd + (body + rest));
    assert(pre + fi + body + seq![BREAK] + rest =~= pre + fi + (body + seq![BREAK] + rest));
    lemma_runs_agree(items, i, pre, rest, fd, fi);
}

} // verus!
