//! Types without invalid states: every pattern of bits of the right size is
//! a value of such a type, so a value of one can be taken for a value of
//! another of the same size.

use vstd::prelude::*;
use crate::bits::{
    i16_bits_as_u16, i16_to_u16, i32_bits_as_u32, i32_to_u32, i8_bits_as_u8, i8_to_u8,
    lemma_u16_be_round_trip, lemma_u32_be_round_trip, lemma_u64_be_round_trip, u16_be_bytes,
    u16_bits_as_i16, u16_of_be, u16_to_be, u16_to_i16, u32_be_bytes, u32_bits_as_i32, u32_of_be,
    u32_to_be, u32_to_i32, u64_be_bytes, u64_of_be, u64_to_be, u8_bits_as_i8, u8_to_i8,
};

verus! {

/// A type whose values are exactly the patterns of `SIZE` bytes.
pub trait NonInvalidatable<const SIZE: usize>: Sized {
    /// The bytes of the value, the most significant first.
    spec fn bits(self) -> Seq<u8>;

    /// The bytes of the value, the most significant first.
    fn to_bits(self) -> (bytes: [u8; SIZE])
        ensures
            bytes@ == self.bits(),
    ;

    /// The value with the given bytes.
    fn from_bits(bytes: [u8; SIZE]) -> (value: Self)
        ensures
            value.bits() == bytes@,
    ;
}

/// Takes a value of one type for the value of another type that has the
/// same bits.
pub fn transmute<Src: NonInvalidatable<SIZE>, Dst: NonInvalidatable<SIZE>, const SIZE: usize>(
    src: Src,
) -> (dst: Dst)
    ensures
        dst.bits() == src.bits(),
{
    Dst::from_bits(src.to_bits())
}

/// The signed 64-bit integer with the same bit pattern as `x`.
pub open spec fn u64_bits_as_i64(x: u64) -> i64 {
    if x >= 0x8000_0000_0000_0000 {
        (x - 0x1_0000_0000_0000_0000) as i64
    } else {
        x as i64
    }
}

/// The unsigned 64-bit integer with the same bit pattern as `x`.
pub open spec fn i64_bits_as_u64(x: i64) -> u64 {
    if x < 0 {
        (x + 0x1_0000_0000_0000_0000) as u64
    } else {
        x as u64
    }
}

impl NonInvalidatable<1> for u8 {
    open spec fn bits(self) -> Seq<u8> {
        seq![self]
    }

    fn to_bits(self) -> (bytes: [u8; 1]) {
        let bytes: [u8; 1] = [self];
        assert(bytes@ =~= seq![self]);
        bytes
    }

    fn from_bits(bytes: [u8; 1]) -> (value: u8) {
        assert(seq![bytes[0]] =~= bytes@);
        bytes[0]
    }
}

impl NonInvalidatable<1> for i8 {
    open spec fn bits(self) -> Seq<u8> {
        seq![i8_bits_as_u8(self)]
    }

    fn to_bits(self) -> (bytes: [u8; 1]) {
        let bytes: [u8; 1] = [i8_to_u8(self)];
        assert(bytes@ =~= seq![i8_bits_as_u8(self)]);
        bytes
    }

    fn from_bits(bytes: [u8; 1]) -> (value: i8) {
        assert(seq![i8_bits_as_u8(u8_bits_as_i8(bytes[0]))] =~= bytes@);
        u8_to_i8(bytes[0])
    }
}

impl NonInvalidatable<2> for u16 {
    open spec fn bits(self) -> Seq<u8> {
        u16_be_bytes(self)
    }

    fn to_bits(self) -> (bytes: [u8; 2]) {
        u16_to_be(self)
    }

    fn from_bits(bytes: [u8; 2]) -> (value: u16) {
        proof {
            lemma_u16_be_round_trip(0, bytes[0], bytes[1]);
            assert(seq![bytes[0], bytes[1]] =~= bytes@);
        }
        u16_of_be(bytes[0], bytes[1])
    }
}

impl NonInvalidatable<2> for i16 {
    open spec fn bits(self) -> Seq<u8> {
        u16_be_bytes(i16_bits_as_u16(self))
    }

    fn to_bits(self) -> (bytes: [u8; 2]) {
        u16_to_be(i16_to_u16(self))
    }

    fn from_bits(bytes: [u8; 2]) -> (value: i16) {
        proof {
            lemma_u16_be_round_trip(0, bytes[0], bytes[1]);
            assert(seq![bytes[0], bytes[1]] =~= bytes@);
        }
        u16_to_i16(u16_of_be(bytes[0], bytes[1]))
    }
}

impl NonInvalidatable<4> for u32 {
    open spec fn bits(self) -> Seq<u8> {
        u32_be_bytes(self)
    }

    fn to_bits(self) -> (bytes: [u8; 4]) {
        u32_to_be(self)
    }

    fn from_bits(bytes: [u8; 4]) -> (value: u32) {
        proof {
            lemma_u32_be_round_trip(0, bytes[0], bytes[1], bytes[2], bytes[3]);
            assert(seq![bytes[0], bytes[1], bytes[2], bytes[3]] =~= bytes@);
        }
        u32_of_be(bytes[0], bytes[1], bytes[2], bytes[3])
    }
}

impl NonInvalidatable<4> for i32 {
    open spec fn bits(self) -> Seq<u8> {
        u32_be_bytes(i32_bits_as_u32(self))
    }

    fn to_bits(self) -> (bytes: [u8; 4]) {
        u32_to_be(i32_to_u32(self))
    }

    fn from_bits(bytes: [u8; 4]) -> (value: i32) {
        proof {
            lemma_u32_be_round_trip(0, bytes[0], bytes[1], bytes[2], bytes[3]);
            assert(seq![bytes[0], bytes[1], bytes[2], bytes[3]] =~= bytes@);
        }
        u32_to_i32(u32_of_be(bytes[0], bytes[1], bytes[2], bytes[3]))
    }
}

impl NonInvalidatable<8> for u64 {
    open spec fn bits(self) -> Seq<u8> {
        u64_be_bytes(self)
    }

    fn to_bits(self) -> (bytes: [u8; 8]) {
        u64_to_be(self)
    }

    fn from_bits(bytes: [u8; 8]) -> (value: u64) {
        proof {
            lemma_u64_be_round_trip(0, bytes@);
        }
        u64_of_be(&bytes)
    }
}

impl NonInvalidatable<8> for i64 {
    open spec fn bits(self) -> Seq<u8> {
        u64_be_bytes(i64_bits_as_u64(self))
    }

    fn to_bits(self) -> (bytes: [u8; 8]) {
        let unsigned: u64 = if self < 0 {
            (self as i128 + 0x1_0000_0000_0000_0000) as u64
        } else {
            self as u64
        };
        u64_to_be(unsigned)
    }

    fn from_bits(bytes: [u8; 8]) -> (value: i64) {
        proof {
            lemma_u64_be_round_trip(0, bytes@);
        }
        let unsigned: u64 = u64_of_be(&bytes);
        if unsigned >= 0x8000_0000_0000_0000 {
            (unsigned as i128 - 0x1_0000_0000_0000_0000) as i64
        } else {
            unsigned as i64
        }
    }
}

/// The signed 128-bit integer with the same bit pattern as `x`.
pub open spec fn u128_bits_as_i128(x: u128) -> i128 {
    if x >= 0x8000_0000_0000_0000_0000_0000_0000_0000 {
        (x - 0x1_0000_0000_0000_0000_0000_0000_0000_0000) as i128
    } else {
        x as i128
    }
}

/// The unsigned 128-bit integer with the same bit pattern as `x`.
pub open spec fn i128_bits_as_u128(x: i128) -> u128 {
    if x < 0 {
        (x + 0x1_0000_0000_0000_0000_0000_0000_0000_0000) as u128
    } else {
        x as u128
    }
}

/// The big-endian bytes of a 128-bit value, most significant first: those
/// of its high half, then those of its low half.
pub open spec fn u128_be_bytes(x: u128) -> Seq<u8> {
    u64_be_bytes((x / 0x1_0000_0000_0000_0000) as u64) + u64_be_bytes(
        (x % 0x1_0000_0000_0000_0000) as u64,
    )
}

/// The 128-bit value whose big-endian bytes are `b`, which holds sixteen
/// bytes.
pub open spec fn u128_from_be(b: Seq<u8>) -> u128
    recommends
        b.len() == 16,
{
    (crate::bits::u64_from_be(b.take(8)) * 0x1_0000_0000_0000_0000 + crate::bits::u64_from_be(
        b.skip(8),
    )) as u128
}

/// Splitting a 128-bit value into big-endian bytes and composing them again
/// gives the value back, and the other way round.
pub proof fn lemma_u128_be_round_trip(x: u128, b: Seq<u8>)
    requires
        b.len() == 16,
    ensures
        u128_be_bytes(x).len() == 16,
        u128_from_be(u128_be_bytes(x)) == x,
        u128_be_bytes(u128_from_be(b)) == b,
{
    let high = (x / 0x1_0000_0000_0000_0000) as u64;
    let low = (x % 0x1_0000_0000_0000_0000) as u64;
    lemma_u64_be_round_trip(high, b.take(8));
    lemma_u64_be_round_trip(low, b.skip(8));
    assert(u128_be_bytes(x).take(8) =~= u64_be_bytes(high));
    assert(u128_be_bytes(x).skip(8) =~= u64_be_bytes(low));
    let h = crate::bits::u64_from_be(b.take(8));
    let l = crate::bits::u64_from_be(b.skip(8));
    let v = u128_from_be(b);
    assert(v == h * 0x1_0000_0000_0000_0000 + l);
    assert(v / 0x1_0000_0000_0000_0000 == h);
    assert(v % 0x1_0000_0000_0000_0000 == l);
    assert(u128_be_bytes(v) =~= b.take(8) + b.skip(8));
    assert(b.take(8) + b.skip(8) =~= b);
}

fn u128_to_be(x: u128) -> (bytes: [u8; 16])
    ensures
        bytes@ == u128_be_bytes(x),
{
    let high: [u8; 8] = u64_to_be((x / 0x1_0000_0000_0000_0000) as u64);
    let low: [u8; 8] = u64_to_be((x % 0x1_0000_0000_0000_0000) as u64);
    let bytes: [u8; 16] = [
        high[0],
        high[1],
        high[2],
        high[3],
        high[4],
        high[5],
        high[6],
        high[7],
        low[0],
        low[1],
        low[2],
        low[3],
        low[4],
        low[5],
        low[6],
        low[7],
    ];
    assert(bytes@ =~= high@ + low@);
    bytes
}

fn u128_of_be(bytes: &[u8; 16]) -> (x: u128)
    ensures
        x == u128_from_be(bytes@),
{
    let high: [u8; 8] = [
        bytes[0],
        bytes[1],
        bytes[2],
        bytes[3],
        bytes[4],
        bytes[5],
        bytes[6],
        bytes[7],
    ];
    let low: [u8; 8] = [
        bytes[8],
        bytes[9],
        bytes[10],
        bytes[11],
        bytes[12],
        bytes[13],
        bytes[14],
        bytes[15],
    ];
    assert(high@ =~= bytes@.take(8));
    assert(low@ =~= bytes@.skip(8));
    u64_of_be(&high) as u128 * 0x1_0000_0000_0000_0000 + u64_of_be(&low) as u128
}

impl NonInvalidatable<16> for u128 {
    open spec fn bits(self) -> Seq<u8> {
        u128_be_bytes(self)
    }

    fn to_bits(self) -> (bytes: [u8; 16]) {
        u128_to_be(self)
    }

    fn from_bits(bytes: [u8; 16]) -> (value: u128) {
        proof {
            lemma_u128_be_round_trip(0, bytes@);
        }
        u128_of_be(&bytes)
    }
}

impl NonInvalidatable<16> for i128 {
    open spec fn bits(self) -> Seq<u8> {
        u128_be_bytes(i128_bits_as_u128(self))
    }

    fn to_bits(self) -> (bytes: [u8; 16]) {
        let unsigned: u128 = if self < 0 {
            (self - i128::MIN) as u128 + 0x8000_0000_0000_0000_0000_0000_0000_0000
        } else {
            self as u128
        };
        u128_to_be(unsigned)
    }

    fn from_bits(bytes: [u8; 16]) -> (value: i128) {
        proof {
            lemma_u128_be_round_trip(0, bytes@);
        }
        let unsigned: u128 = u128_of_be(&bytes);
        if unsigned >= 0x8000_0000_0000_0000_0000_0000_0000_0000 {
            (unsigned - 0x8000_0000_0000_0000_0000_0000_0000_0000) as i128 + i128::MIN
        } else {
            unsigned as i128
        }
    }
}

/// What `transmute` does between the signed and the unsigned integers of a
/// size: two values have the same bits exactly if one is the other read
/// with the other sign.
pub proof fn lemma_same_bits(
    a: u8,
    b: i8,
    c: u16,
    d: i16,
    e: u32,
    f: i32,
    g: u64,
    h: i64,
    i: u128,
    j: i128,
)
    ensures
        a.bits() == b.bits() <==> b == u8_bits_as_i8(a),
        c.bits() == d.bits() <==> d == u16_bits_as_i16(c),
        e.bits() == f.bits() <==> f == u32_bits_as_i32(e),
        g.bits() == h.bits() <==> h == u64_bits_as_i64(g),
        i.bits() == j.bits() <==> j == u128_bits_as_i128(i),
{
    lemma_u128_be_round_trip(i, u128_be_bytes(0));
    lemma_u128_be_round_trip(i128_bits_as_u128(j), u128_be_bytes(0));
    lemma_u128_be_round_trip(0, u128_be_bytes(0));
    assert(a.bits() == b.bits() ==> a.bits()[0] == b.bits()[0]);
    lemma_be_bytes_tell_apart(c, i16_bits_as_u16(d), e, i32_bits_as_u32(f), g, i64_bits_as_u64(h));
}

/// Values with the same big-endian bytes are the same.
proof fn lemma_be_bytes_tell_apart(a: u16, b: u16, c: u32, d: u32, e: u64, f: u64)
    ensures
        u16_be_bytes(a) == u16_be_bytes(b) <==> a == b,
        u32_be_bytes(c) == u32_be_bytes(d) <==> c == d,
        u64_be_bytes(e) == u64_be_bytes(f) <==> e == f,
{
    lemma_u16_be_round_trip(a, 0, 0);
    lemma_u16_be_round_trip(b, 0, 0);
    lemma_u32_be_round_trip(c, 0, 0, 0, 0);
    lemma_u32_be_round_trip(d, 0, 0, 0, 0);
    lemma_u64_be_round_trip(e, seq![0u8, 0u8, 0u8, 0u8, 0u8, 0u8, 0u8, 0u8]);
    lemma_u64_be_round_trip(f, seq![0u8, 0u8, 0u8, 0u8, 0u8, 0u8, 0u8, 0u8]);
}

} // verus!
