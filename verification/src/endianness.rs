//! Byte order: a two-valued tag that parametrizes every multi-byte read and
//! write, together with the 32-bit integer codec used by the block framer.

use vstd::arithmetic::div_mod::{
    lemma_div_denominator, lemma_fundamental_div_mod, lemma_fundamental_div_mod_converse_div,
    lemma_fundamental_div_mod_converse_mod,
};
use vstd::prelude::*;
use vstd::slice::slice_index_get;

verus! {

/// The byte order in force while a block is decoded or encoded.
#[derive(Copy, Clone, Debug, PartialEq, Eq, Structural)]
pub enum Endianness {
    Big,
    Little,
}

/// The least significant byte of `v`.
pub open spec fn u32_byte0(v: u32) -> u8 {
    (v % 0x100) as u8
}

/// The second least significant byte of `v`.
pub open spec fn u32_byte1(v: u32) -> u8 {
    ((v / 0x100) % 0x100) as u8
}

/// The third least significant byte of `v`.
pub open spec fn u32_byte2(v: u32) -> u8 {
    ((v / 0x1_0000) % 0x100) as u8
}

/// The most significant byte of `v`.
pub open spec fn u32_byte3(v: u32) -> u8 {
    ((v / 0x100_0000) % 0x100) as u8
}

/// The integer that four bytes denote in the given byte order.
pub open spec fn u32_of(e: Endianness, b: Seq<u8>) -> int
    recommends
        b.len() == 4,
{
    match e {
        Endianness::Big => b[0] * 0x100_0000 + b[1] * 0x1_0000 + b[2] * 0x100 + b[3],
        Endianness::Little => b[3] * 0x100_0000 + b[2] * 0x1_0000 + b[1] * 0x100 + b[0],
    }
}

/// The four bytes that encode `v` in the given byte order.
pub open spec fn u32_bytes(e: Endianness, v: u32) -> Seq<u8> {
    match e {
        Endianness::Big => seq![u32_byte3(v), u32_byte2(v), u32_byte1(v), u32_byte0(v)],
        Endianness::Little => seq![u32_byte0(v), u32_byte1(v), u32_byte2(v), u32_byte3(v)],
    }
}

/// `v` with the order of its four bytes reversed.
pub open spec fn swap32(v: u32) -> u32 {
    (u32_byte0(v) * 0x100_0000 + u32_byte1(v) * 0x1_0000 + u32_byte2(v) * 0x100 + u32_byte3(
        v,
    )) as u32
}

/// A four-byte sequence denotes a value that fits in 32 bits.
pub proof fn lemma_u32_of_bound(e: Endianness, b: Seq<u8>)
    requires
        b.len() == 4,
    ensures
        0 <= u32_of(e, b) < 0x1_0000_0000,
{
}

/// Splitting an integer below 2^32 into its four bytes is exact.
proof fn lemma_u32_decomp(v: u32)
    ensures
        v == u32_byte3(v) * 0x100_0000 + u32_byte2(v) * 0x1_0000 + u32_byte1(v) * 0x100
            + u32_byte0(v),
        v / 0x100_0000 < 0x100,
{
    lemma_fundamental_div_mod(v as int, 0x100);
    lemma_fundamental_div_mod(v as int / 0x100, 0x100);
    lemma_fundamental_div_mod(v as int / 0x1_0000, 0x100);
    lemma_div_denominator(v as int, 0x100, 0x100);
    lemma_div_denominator(v as int, 0x1_0000, 0x100);
    lemma_fundamental_div_mod(v as int, 0x100_0000);
    lemma_fundamental_div_mod(v as int / 0x100_0000, 0x100);
}

/// Recombining the four bytes of an integer, at any byte position, recovers
/// the digits that were packed there.
proof fn lemma_u32_unpack(a: int, b: int, c: int, d: int)
    requires
        0 <= a < 0x100,
        0 <= b < 0x100,
        0 <= c < 0x100,
        0 <= d < 0x100,
    ensures
        (a * 0x100_0000 + b * 0x1_0000 + c * 0x100 + d) / 0x100_0000 % 0x100 == a,
        (a * 0x100_0000 + b * 0x1_0000 + c * 0x100 + d) / 0x1_0000 % 0x100 == b,
        (a * 0x100_0000 + b * 0x1_0000 + c * 0x100 + d) / 0x100 % 0x100 == c,
        (a * 0x100_0000 + b * 0x1_0000 + c * 0x100 + d) % 0x100 == d,
{
    let v = a * 0x100_0000 + b * 0x1_0000 + c * 0x100 + d;
    lemma_fundamental_div_mod_converse_div(v, 0x100_0000, a, b * 0x1_0000 + c * 0x100 + d);
    lemma_fundamental_div_mod_converse_mod(a, 0x100, 0, a);
    lemma_fundamental_div_mod_converse_div(v, 0x1_0000, a * 0x100 + b, c * 0x100 + d);
    lemma_fundamental_div_mod_converse_mod(a * 0x100 + b, 0x100, a, b);
    lemma_fundamental_div_mod_converse_div(v, 0x100, a * 0x1_0000 + b * 0x100 + c, d);
    lemma_fundamental_div_mod_converse_mod(a * 0x1_0000 + b * 0x100 + c, 0x100, a * 0x100 + b, c);
    lemma_fundamental_div_mod_converse_mod(v, 0x100, a * 0x1_0000 + b * 0x100 + c, d);
}

/// Reading back the bytes that encode `v` yields `v`, in either byte order.
pub proof fn lemma_u32_of_bytes(e: Endianness, v: u32)
    ensures
        u32_of(e, u32_bytes(e, v)) == v,
{
    lemma_u32_decomp(v);
}

/// Byte-swapping a value read big-endian yields the value the same bytes
/// denote little-endian: the compensation a decoder applies after it read a
/// length field under the wrong byte-order assumption.
pub proof fn lemma_swap_reads(b: Seq<u8>)
    requires
        b.len() == 4,
    ensures
        swap32(u32_of(Endianness::Big, b) as u32) == u32_of(Endianness::Little, b),
{
    lemma_u32_unpack(b[0] as int, b[1] as int, b[2] as int, b[3] as int);
}

/// Reads the 32-bit integer that starts at offset `i` of `s`, in order `e`.
pub fn read_u32_at(e: Endianness, s: &[u8], i: usize) -> (v: u32)
    requires
        i + 4 <= s@.len(),
    ensures
        v == u32_of(e, s@.subrange(i as int, i as int + 4)),
{
    let _n = s.len();
    let b0 = *slice_index_get(s, i);
    let b1 = *slice_index_get(s, i + 1);
    let b2 = *slice_index_get(s, i + 2);
    let b3 = *slice_index_get(s, i + 3);
    proof {
        let sub = s@.subrange(i as int, i as int + 4);
        assert(sub[0] == s@[i as int]);
        assert(sub[1] == s@[i as int + 1]);
        assert(sub[2] == s@[i as int + 2]);
        assert(sub[3] == s@[i as int + 3]);
    }
    match e {
        Endianness::Big => (b0 as u32) * 0x100_0000 + (b1 as u32) * 0x1_0000 + (b2 as u32) * 0x100
            + (b3 as u32),
        Endianness::Little => (b3 as u32) * 0x100_0000 + (b2 as u32) * 0x1_0000 + (b1 as u32)
            * 0x100 + (b0 as u32),
    }
}

/// Appends the four bytes that encode `v` in order `e`.
pub fn push_u32(e: Endianness, out: &mut Vec<u8>, v: u32)
    ensures
        final(out)@ == old(out)@ + u32_bytes(e, v),
{
    let b0: u8 = (v % 0x100) as u8;
    let b1: u8 = ((v / 0x100) % 0x100) as u8;
    let b2: u8 = ((v / 0x1_0000) % 0x100) as u8;
    let b3: u8 = ((v / 0x100_0000) % 0x100) as u8;
    match e {
        Endianness::Big => {
            out.push(b3);
            out.push(b2);
            out.push(b1);
            out.push(b0);
        },
        Endianness::Little => {
            out.push(b0);
            out.push(b1);
            out.push(b2);
            out.push(b3);
        },
    }
    assert(out@ =~= old(out)@ + u32_bytes(e, v));
}

/// Reverses the byte order of `v`.
pub fn swap_u32(v: u32) -> (r: u32)
    ensures
        r == swap32(v),
{
    let b0: u8 = (v % 0x100) as u8;
    let b1: u8 = ((v / 0x100) % 0x100) as u8;
    let b2: u8 = ((v / 0x1_0000) % 0x100) as u8;
    let b3: u8 = ((v / 0x100_0000) % 0x100) as u8;
    (b0 as u32) * 0x100_0000 + (b1 as u32) * 0x1_0000 + (b2 as u32) * 0x100 + (b3 as u32)
}

/// Appends every byte of `s` to `out`.
pub fn push_bytes(out: &mut Vec<u8>, s: &[u8])
    ensures
        final(out)@ == old(out)@ + s@,
{
    let mut i: usize = 0;
    while i < s.len()
        invariant
            i <= s@.len(),
            out@ == old(out)@ + s@.subrange(0, i as int),
        decreases s@.len() - i,
    {
        let b = *slice_index_get(s, i);
        out.push(b);
        proof {
            assert(out@ =~= old(out)@ + s@.subrange(0, i as int + 1));
        }
        i = i + 1;
    }
    assert(out@ =~= old(out)@ + s@);
}

} // verus!
