//! Little-endian integers inside byte strings.

use vstd::prelude::*;

verus! {

/// The unsigned 16-bit integer whose two bytes start at `at`.
pub open spec fn le_u16(s: Seq<u8>, at: int) -> int {
    s[at] as int + 256 * (s[at + 1] as int)
}

/// The unsigned 32-bit integer whose four bytes start at `at`.
pub open spec fn le_u32(s: Seq<u8>, at: int) -> int {
    s[at] as int + 256 * (s[at + 1] as int) + 65536 * (s[at + 2] as int) + 16777216 * (s[at
        + 3] as int)
}

/// The unsigned 64-bit integer whose eight bytes start at `at`.
pub open spec fn le_u64(s: Seq<u8>, at: int) -> int {
    le_u32(s, at) + 0x1_0000_0000 * le_u32(s, at + 4)
}

/// An unsigned 8-bit pattern read as a signed integer in two's complement.
pub open spec fn signed8(v: int) -> int {
    if v >= 128 {
        v - 256
    } else {
        v
    }
}

/// An unsigned 16-bit pattern read as a signed integer in two's complement.
pub open spec fn signed16(v: int) -> int {
    if v >= 32768 {
        v - 65536
    } else {
        v
    }
}

/// A signed 16-bit integer as its unsigned pattern in two's complement.
pub open spec fn unsigned16(v: int) -> int {
    if v < 0 {
        v + 65536
    } else {
        v
    }
}

/// A signed 8-bit integer as its unsigned pattern in two's complement.
pub open spec fn unsigned8(v: int) -> int {
    if v < 0 {
        v + 256
    } else {
        v
    }
}

/// The two bytes of an unsigned 16-bit integer, least significant first.
pub open spec fn u16_bytes(v: int) -> Seq<u8> {
    seq![(v % 256) as u8, (v / 256) as u8]
}

/// The four bytes of an unsigned 32-bit integer, least significant first.
pub open spec fn u32_bytes(v: int) -> Seq<u8> {
    seq![
        (v % 256) as u8,
        (v / 256 % 256) as u8,
        (v / 65536 % 256) as u8,
        (v / 16777216) as u8,
    ]
}

/// The eight bytes of an unsigned 64-bit integer, least significant first.
pub open spec fn u64_bytes(v: int) -> Seq<u8> {
    u32_bytes(v % 0x1_0000_0000) + u32_bytes(v / 0x1_0000_0000)
}

/// Reads an unsigned 16-bit integer at `at`.
pub fn read_u16(data: &[u8], at: usize) -> (v: u16)
    requires
        at + 2 <= data.len(),
    ensures
        v == le_u16(data@, at as int),
{
    let lo: u16 = data[at] as u16;
    let hi: u16 = data[at + 1] as u16;
    lo + 256 * hi
}

/// Reads a signed 16-bit integer at `at`.
pub fn read_i16(data: &[u8], at: usize) -> (v: i16)
    requires
        at + 2 <= data.len(),
    ensures
        v == signed16(le_u16(data@, at as int)),
{
    let u: u16 = read_u16(data, at);
    to_signed16(u)
}

/// Reads an unsigned 32-bit integer at `at`.
pub fn read_u32(data: &[u8], at: usize) -> (v: u32)
    requires
        at + 4 <= data.len(),
    ensures
        v == le_u32(data@, at as int),
{
    let b0: u32 = data[at] as u32;
    let b1: u32 = data[at + 1] as u32;
    let b2: u32 = data[at + 2] as u32;
    let b3: u32 = data[at + 3] as u32;
    b0 + 256 * b1 + 65536 * b2 + 16777216 * b3
}

/// Reads an unsigned 64-bit integer at `at`.
pub fn read_u64(data: &[u8], at: usize) -> (v: u64)
    requires
        at + 8 <= data.len(),
    ensures
        v == le_u64(data@, at as int),
{
    let lo: u64 = read_u32(data, at) as u64;
    let hi: u64 = read_u32(data, at + 4) as u64;
    lo + 0x1_0000_0000 * hi
}

/// Reads an unsigned 8-bit pattern as a signed integer.
pub fn to_signed8(v: u8) -> (r: i8)
    ensures
        r == signed8(v as int),
{
    if v >= 128 {
        (v as i16 - 256) as i8
    } else {
        v as i8
    }
}

/// Reads an unsigned 16-bit pattern as a signed integer.
pub fn to_signed16(v: u16) -> (r: i16)
    ensures
        r == signed16(v as int),
{
    if v >= 32768 {
        (v as i32 - 65536) as i16
    } else {
        v as i16
    }
}

/// The unsigned pattern of a signed 16-bit integer.
pub fn to_unsigned16(v: i16) -> (r: u16)
    ensures
        r == unsigned16(v as int),
{
    if v < 0 {
        (v as i32 + 65536) as u16
    } else {
        v as u16
    }
}

/// The unsigned pattern of a signed 8-bit integer.
pub fn to_unsigned8(v: i8) -> (r: u8)
    ensures
        r == unsigned8(v as int),
{
    if v < 0 {
        (v as i16 + 256) as u8
    } else {
        v as u8
    }
}

/// Appends the two bytes of `v` to `out`.
pub fn push_u16(out: &mut Vec<u8>, v: u16)
    ensures
        final(out)@ == old(out)@ + u16_bytes(v as int),
{
    out.push((v % 256) as u8);
    out.push((v / 256) as u8);
}

/// Appends the four bytes of `v` to `out`.
pub fn push_u32(out: &mut Vec<u8>, v: u32)
    ensures
        final(out)@ == old(out)@ + u32_bytes(v as int),
{
    out.push((v % 256) as u8);
    out.push((v / 256 % 256) as u8);
    out.push((v / 65536 % 256) as u8);
    out.push((v / 16777216) as u8);
}

/// Appends the eight bytes of `v` to `out`.
pub fn push_u64(out: &mut Vec<u8>, v: u64)
    ensures
        final(out)@ == old(out)@ + u64_bytes(v as int),
{
    push_u32(out, (v % 0x1_0000_0000) as u32);
    push_u32(out, (v / 0x1_0000_0000) as u32);
}

/// Copies `data[from..to]` into a new vector.
pub fn copy_range(data: &[u8], from: usize, to: usize) -> (out: Vec<u8>)
    requires
        from <= to <= data.len(),
    ensures
        out@ == data@.subrange(from as int, to as int),
{
    let mut out: Vec<u8> = Vec::new();
    let mut i: usize = from;
    while i < to
        invariant
            from <= i <= to <= data.len(),
            out@ == data@.subrange(from as int, i as int),
        decreases to - i,
    {
        out.push(data[i]);
        i += 1;
    }
    out
}

/// Writing an unsigned 16-bit integer and reading it back gives it again.
pub proof fn lemma_u16_round_trip(v: int)
    requires
        0 <= v < 65536,
    ensures
        u16_bytes(v).len() == 2,
        le_u16(u16_bytes(v), 0) == v,
{
}

/// Writing an unsigned 32-bit integer and reading it back gives it again.
pub proof fn lemma_u32_round_trip(v: int)
    requires
        0 <= v < 0x1_0000_0000,
    ensures
        u32_bytes(v).len() == 4,
        le_u32(u32_bytes(v), 0) == v,
{
}

/// Writing an unsigned 64-bit integer and reading it back gives it again.
pub proof fn lemma_u64_round_trip(v: int)
    requires
        0 <= v < 0x1_0000_0000_0000_0000,
    ensures
        u64_bytes(v).len() == 8,
        le_u64(u64_bytes(v), 0) == v,
{
    let lo = v % 0x1_0000_0000;
    let hi = v / 0x1_0000_0000;
    lemma_u32_round_trip(lo);
    lemma_u32_round_trip(hi);
    let s = u64_bytes(v);
    assert(s.subrange(0, 4) =~= u32_bytes(lo));
    assert(s.subrange(4, 8) =~= u32_bytes(hi));
    assert(le_u32(s, 0) == le_u32(u32_bytes(lo), 0));
    assert(le_u32(s, 4) == le_u32(u32_bytes(hi), 0));
}

/// Two bytes that were written as a 16-bit number are read as that number,
/// wherever they lie.
pub proof fn lemma_read_u16_at(data: Seq<u8>, at: int, v: int)
    requires
        0 <= v < 65536,
        0 <= at,
        at + 2 <= data.len(),
        data.subrange(at, at + 2) == u16_bytes(v),
    ensures
        le_u16(data, at) == v,
{
    let part = data.subrange(at, at + 2);
    assert(part[0] == data[at]);
    assert(part[1] == data[at + 1]);
}

/// Four bytes that were written as a 32-bit number are read as that
/// number, wherever they lie.
pub proof fn lemma_read_u32_at(data: Seq<u8>, at: int, v: int)
    requires
        0 <= v < 0x1_0000_0000,
        0 <= at,
        at + 4 <= data.len(),
        data.subrange(at, at + 4) == u32_bytes(v),
    ensures
        le_u32(data, at) == v,
{
    let part = data.subrange(at, at + 4);
    assert(part[0] == data[at]);
    assert(part[1] == data[at + 1]);
    assert(part[2] == data[at + 2]);
    assert(part[3] == data[at + 3]);
}

/// Eight bytes that were written as a 64-bit number are read as that
/// number, wherever they lie.
pub proof fn lemma_read_u64_at(data: Seq<u8>, at: int, v: int)
    requires
        0 <= v < 0x1_0000_0000_0000_0000,
        0 <= at,
        at + 8 <= data.len(),
        data.subrange(at, at + 8) == u64_bytes(v),
    ensures
        le_u64(data, at) == v,
{
    let lo = v % 0x1_0000_0000;
    let hi = v / 0x1_0000_0000;
    let part = data.subrange(at, at + 8);
    assert(data.subrange(at, at + 4) =~= u32_bytes(lo)) by {
        assert forall|k: int| 0 <= k < 4 implies data.subrange(at, at + 4)[k] == u32_bytes(lo)[k] by {
            assert(part[k] == data[at + k]);
            assert(part[k] == u32_bytes(lo)[k]);
        }
    }
    assert(data.subrange(at + 4, at + 8) =~= u32_bytes(hi)) by {
        assert forall|k: int| 0 <= k < 4 implies data.subrange(at + 4, at + 8)[k] == u32_bytes(
            hi,
        )[k] by {
            assert(part[4 + k] == data[at + 4 + k]);
            assert(part[4 + k] == u32_bytes(hi)[k]);
        }
    }
    lemma_read_u32_at(data, at, lo);
    lemma_read_u32_at(data, at + 4, hi);
}

/// The signed and the unsigned reading of 8 bits undo each other.
pub proof fn lemma_signed8_round_trip(v: int)
    ensures
        -128 <= v < 128 ==> signed8(unsigned8(v)) == v,
        0 <= v < 256 ==> unsigned8(signed8(v)) == v,
{
}

/// The signed and the unsigned reading of 16 bits undo each other.
pub proof fn lemma_signed16_round_trip(v: int)
    ensures
        -32768 <= v < 32768 ==> signed16(unsigned16(v)) == v,
        0 <= v < 65536 ==> unsigned16(signed16(v)) == v,
{
}

} // verus!
