//! Big-endian integers of fixed width, as they stand on the wire.

use vstd::prelude::*;

verus! {

/// Number of bytes of a `u16` on the wire.
pub const U16_LEN: usize = 2;

/// Number of bytes of a `u32` on the wire.
pub const U32_LEN: usize = 4;

/// The number that the first two bytes of `bytes` spell, most significant byte first.
pub open spec fn u16_from_be(bytes: Seq<u8>) -> u16
    recommends
        bytes.len() >= 2,
{
    (bytes[0] as int * 0x100 + bytes[1] as int) as u16
}

/// The two bytes that spell `v`, most significant byte first.
pub open spec fn u16_to_be(v: u16) -> Seq<u8> {
    seq![(v / 0x100) as u8, (v % 0x100) as u8]
}

/// The number that the first four bytes of `bytes` spell, most significant byte first.
pub open spec fn u32_from_be(bytes: Seq<u8>) -> u32
    recommends
        bytes.len() >= 4,
{
    (bytes[0] as int * 0x100_0000 + bytes[1] as int * 0x1_0000 + bytes[2] as int * 0x100
        + bytes[3] as int) as u32
}

/// The four bytes that spell `v`, most significant byte first.
pub open spec fn u32_to_be(v: u32) -> Seq<u8> {
    seq![
        (v / 0x100_0000) as u8,
        (v / 0x1_0000 % 0x100) as u8,
        (v / 0x100 % 0x100) as u8,
        (v % 0x100) as u8,
    ]
}

/// Four digits in base 256 are found again in the number that they spell.
proof fn lemma_digits_of_sum(b0: int, b1: int, b2: int, b3: int)
    requires
        0 <= b0 < 0x100,
        0 <= b1 < 0x100,
        0 <= b2 < 0x100,
        0 <= b3 < 0x100,
    ensures
        ({
            let v = b0 * 0x100_0000 + b1 * 0x1_0000 + b2 * 0x100 + b3;
            &&& 0 <= v <= 0xffff_ffff
            &&& v / 0x100_0000 == b0
            &&& v / 0x1_0000 % 0x100 == b1
            &&& v / 0x100 % 0x100 == b2
            &&& v % 0x100 == b3
        }),
{
    let v = b0 * 0x100_0000 + b1 * 0x1_0000 + b2 * 0x100 + b3;
    assert(v / 0x100_0000 == b0);
    assert(v / 0x1_0000 == b0 * 0x100 + b1);
    assert(v / 0x100 == b0 * 0x1_0000 + b1 * 0x100 + b2);
}

/// A number below 2^32 is the sum of its four digits in base 256.
proof fn lemma_sum_of_digits(v: int)
    requires
        0 <= v <= 0xffff_ffff,
    ensures
        v == (v / 0x100_0000) * 0x100_0000 + (v / 0x1_0000 % 0x100) * 0x1_0000 + (v / 0x100 % 0x100)
            * 0x100 + v % 0x100,
        0 <= v / 0x100_0000 < 0x100,
{
    let q1 = v / 0x100;
    let q2 = v / 0x1_0000;
    let q3 = v / 0x100_0000;
    assert(q2 == q1 / 0x100);
    assert(q3 == q2 / 0x100);
}

/// Reading back the bytes of a `u16` gives the number again, whatever follows them.
pub proof fn lemma_u16_value_round_trip(v: u16, rest: Seq<u8>)
    ensures
        u16_to_be(v).len() == 2,
        u16_from_be(u16_to_be(v) + rest) == v,
{
}

/// Writing the number that two bytes spell gives the two bytes again.
pub proof fn lemma_u16_bytes_round_trip(bytes: Seq<u8>)
    requires
        bytes.len() >= 2,
    ensures
        u16_to_be(u16_from_be(bytes)) == bytes.subrange(0, 2),
{
    assert(u16_to_be(u16_from_be(bytes)) =~= bytes.subrange(0, 2));
}

/// Reading back the bytes of a `u32` gives the number again, whatever follows them.
pub proof fn lemma_u32_value_round_trip(v: u32, rest: Seq<u8>)
    ensures
        u32_to_be(v).len() == 4,
        u32_from_be(u32_to_be(v) + rest) == v,
{
    lemma_sum_of_digits(v as int);
}

/// Writing the number that four bytes spell gives the four bytes again.
pub proof fn lemma_u32_bytes_round_trip(bytes: Seq<u8>)
    requires
        bytes.len() >= 4,
    ensures
        u32_to_be(u32_from_be(bytes)) == bytes.subrange(0, 4),
{
    lemma_digits_of_sum(bytes[0] as int, bytes[1] as int, bytes[2] as int, bytes[3] as int);
    assert(u32_to_be(u32_from_be(bytes)) =~= bytes.subrange(0, 4));
}

/// Reads the `u16` that stands at `at` in `bytes`.
pub fn read_u16(bytes: &[u8], at: usize) -> (v: u16)
    requires
        at + 2 <= bytes@.len(),
    ensures
        v == u16_from_be(bytes@.skip(at as int)),
{
    let hi: u16 = bytes[at] as u16;
    let lo: u16 = bytes[at + 1] as u16;
    hi * 0x100 + lo
}

/// Reads the `u32` that stands at `at` in `bytes`.
pub fn read_u32(bytes: &[u8], at: usize) -> (v: u32)
    requires
        at + 4 <= bytes@.len(),
    ensures
        v == u32_from_be(bytes@.skip(at as int)),
{
    let b0: u32 = bytes[at] as u32;
    let b1: u32 = bytes[at + 1] as u32;
    let b2: u32 = bytes[at + 2] as u32;
    let b3: u32 = bytes[at + 3] as u32;
    b0 * 0x100_0000 + b1 * 0x1_0000 + b2 * 0x100 + b3
}

/// Appends the two bytes of `v` to `out`.
pub fn write_u16(v: u16, out: &mut Vec<u8>)
    ensures
        final(out)@ == old(out)@ + u16_to_be(v),
{
    out.push((v / 0x100) as u8);
    out.push((v % 0x100) as u8);
    assert(out@ =~= old(out)@ + u16_to_be(v));
}

/// Appends the four bytes of `v` to `out`.
pub fn write_u32(v: u32, out: &mut Vec<u8>)
    ensures
        final(out)@ == old(out)@ + u32_to_be(v),
{
    out.push((v / 0x100_0000) as u8);
    out.push((v / 0x1_0000 % 0x100) as u8);
    out.push((v / 0x100 % 0x100) as u8);
    out.push((v % 0x100) as u8);
    assert(out@ =~= old(out)@ + u32_to_be(v));
}

} // verus!
