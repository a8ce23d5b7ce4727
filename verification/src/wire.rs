//! Little-endian integer fields as they appear on the AMT Host Interface.
use vstd::prelude::*;
use vstd::arithmetic::div_mod::lemma_fundamental_div_mod_converse;

verus! {

/// Value of the little-endian `u16` stored at `bytes[off..off + 2]`.
pub open spec fn le_u16_at(bytes: Seq<u8>, off: int) -> int {
    bytes[off] + 256 * bytes[off + 1]
}

/// Value of the little-endian `u32` stored at `bytes[off..off + 4]`.
pub open spec fn le_u32_at(bytes: Seq<u8>, off: int) -> int {
    bytes[off] + 256 * bytes[off + 1] + 65536 * bytes[off + 2] + 16777216 * bytes[off + 3]
}

/// The two bytes that encode `v` in little-endian order.
pub open spec fn le_u16_bytes(v: u16) -> Seq<u8> {
    seq![(v % 256) as u8, (v / 256) as u8]
}

/// The four bytes that encode `v` in little-endian order.
pub open spec fn le_u32_bytes(v: u32) -> Seq<u8> {
    seq![
        (v % 256) as u8,
        ((v / 256) % 256) as u8,
        ((v / 65536) % 256) as u8,
        (v / 16777216) as u8,
    ]
}

/// Reads the little-endian `u16` at `bytes[off..off + 2]`.
pub fn read_u16_le(bytes: &[u8], off: usize) -> (v: u16)
    requires
        off + 2 <= bytes@.len(),
    ensures
        v == le_u16_at(bytes@, off as int),
{
    bytes[off] as u16 + (bytes[off + 1] as u16) * 256
}

/// Reads the little-endian `u32` at `bytes[off..off + 4]`.
pub fn read_u32_le(bytes: &[u8], off: usize) -> (v: u32)
    requires
        off + 4 <= bytes@.len(),
    ensures
        v == le_u32_at(bytes@, off as int),
{
    bytes[off] as u32 + (bytes[off + 1] as u32) * 256 + (bytes[off + 2] as u32) * 65536
        + (bytes[off + 3] as u32) * 16777216
}

/// Appends the little-endian encoding of `v` to `out`.
pub fn push_u16_le(out: &mut Vec<u8>, v: u16)
    ensures
        final(out)@ == old(out)@ + le_u16_bytes(v),
{
    out.push((v % 256) as u8);
    out.push((v / 256) as u8);
}

/// Appends the little-endian encoding of `v` to `out`.
pub fn push_u32_le(out: &mut Vec<u8>, v: u32)
    ensures
        final(out)@ == old(out)@ + le_u32_bytes(v),
{
    out.push((v % 256) as u8);
    out.push(((v / 256) % 256) as u8);
    out.push(((v / 65536) % 256) as u8);
    out.push((v / 16777216) as u8);
}

/// Copies `bytes[from..to]` into a new vector.
pub(crate) fn copy_range(bytes: &[u8], from: usize, to: usize) -> (v: Vec<u8>)
    requires
        from <= to <= bytes@.len(),
    ensures
        v@ == bytes@.subrange(from as int, to as int),
{
    let mut v: Vec<u8> = Vec::new();
    let mut i: usize = from;
    while i < to
        invariant
            from <= i <= to <= bytes@.len(),
            v@ == bytes@.subrange(from as int, i as int),
        decreases to - i,
    {
        v.push(bytes[i]);
        i = i + 1;
        assert(v@ =~= bytes@.subrange(from as int, i as int));
    }
    v
}

/// Decoding the little-endian encoding of a `u16` gives the value back.
pub proof fn lemma_le_u16_roundtrip(v: u16)
    ensures
        le_u16_at(le_u16_bytes(v), 0) == v,
{
}

/// Decoding the little-endian encoding of a `u32` gives the value back.
pub proof fn lemma_le_u32_roundtrip(v: u32)
    ensures
        le_u32_at(le_u32_bytes(v), 0) == v,
{
}

/// The value read from four bytes is a `u32` whose bytes, least significant
/// first, are those four bytes.
pub proof fn lemma_le_u32_significance(bytes: Seq<u8>, off: int)
    requires
        0 <= off,
        off + 4 <= bytes.len(),
    ensures
        ({
            let v = le_u32_at(bytes, off);
            &&& 0 <= v <= u32::MAX
            &&& v % 256 == bytes[off]
            &&& (v / 256) % 256 == bytes[off + 1]
            &&& (v / 65536) % 256 == bytes[off + 2]
            &&& v / 16777216 == bytes[off + 3]
        }),
{
    let b0 = bytes[off] as int;
    let b1 = bytes[off + 1] as int;
    let b2 = bytes[off + 2] as int;
    let b3 = bytes[off + 3] as int;
    let v = le_u32_at(bytes, off);
    let q1 = b1 + 256 * b2 + 65536 * b3;
    let q2 = b2 + 256 * b3;
    lemma_fundamental_div_mod_converse(v, 256, q1, b0);
    lemma_fundamental_div_mod_converse(v, 65536, q2, b0 + 256 * b1);
    lemma_fundamental_div_mod_converse(v, 16777216, b3, b0 + 256 * b1 + 65536 * b2);
    lemma_fundamental_div_mod_converse(q1, 256, q2, b1);
    lemma_fundamental_div_mod_converse(q2, 256, b3, b2);
}

/// The value read from two bytes is a `u16` whose low byte is the first and
/// whose high byte is the second.
pub proof fn lemma_le_u16_significance(bytes: Seq<u8>, off: int)
    requires
        0 <= off,
        off + 2 <= bytes.len(),
    ensures
        ({
            let v = le_u16_at(bytes, off);
            &&& 0 <= v <= u16::MAX
            &&& v % 256 == bytes[off]
            &&& v / 256 == bytes[off + 1]
        }),
{
    lemma_fundamental_div_mod_converse(le_u16_at(bytes, off), 256, bytes[off + 1] as int, bytes[off] as int);
}

} // verus!
