//! Total bit-pattern conversions between integers of the same width, and
//! big-endian composition of integers from bytes.

use vstd::prelude::*;

verus! {

/// The signed byte with the same bit pattern as `x`.
pub open spec fn u8_bits_as_i8(x: u8) -> i8 {
    if x >= 0x80 {
        (x - 0x100) as i8
    } else {
        x as i8
    }
}

/// The unsigned byte with the same bit pattern as `x`.
pub open spec fn i8_bits_as_u8(x: i8) -> u8 {
    if x < 0 {
        (x + 0x100) as u8
    } else {
        x as u8
    }
}

/// The signed 16-bit integer with the same bit pattern as `x`.
pub open spec fn u16_bits_as_i16(x: u16) -> i16 {
    if x >= 0x8000 {
        (x - 0x1_0000) as i16
    } else {
        x as i16
    }
}

/// The unsigned 16-bit integer with the same bit pattern as `x`.
pub open spec fn i16_bits_as_u16(x: i16) -> u16 {
    if x < 0 {
        (x + 0x1_0000) as u16
    } else {
        x as u16
    }
}

/// The signed 32-bit integer with the same bit pattern as `x`.
pub open spec fn u32_bits_as_i32(x: u32) -> i32 {
    if x >= 0x8000_0000 {
        (x - 0x1_0000_0000) as i32
    } else {
        x as i32
    }
}

/// The unsigned 32-bit integer with the same bit pattern as `x`.
pub open spec fn i32_bits_as_u32(x: i32) -> u32 {
    if x < 0 {
        (x + 0x1_0000_0000) as u32
    } else {
        x as u32
    }
}

/// Reinterprets the bits of a `u8` as an `i8`.
pub fn u8_to_i8(x: u8) -> (r: i8)
    ensures
        r == u8_bits_as_i8(x),
{
    if x >= 0x80 {
        (x as i16 - 0x100) as i8
    } else {
        x as i8
    }
}

/// Reinterprets the bits of an `i8` as a `u8`.
pub fn i8_to_u8(x: i8) -> (r: u8)
    ensures
        r == i8_bits_as_u8(x),
{
    if x < 0 {
        (x as i16 + 0x100) as u8
    } else {
        x as u8
    }
}

/// Reinterprets the bits of a `u16` as an `i16`.
pub fn u16_to_i16(x: u16) -> (r: i16)
    ensures
        r == u16_bits_as_i16(x),
{
    if x >= 0x8000 {
        (x as i32 - 0x1_0000) as i16
    } else {
        x as i16
    }
}

/// Reinterprets the bits of an `i16` as a `u16`.
pub fn i16_to_u16(x: i16) -> (r: u16)
    ensures
        r == i16_bits_as_u16(x),
{
    if x < 0 {
        (x as i32 + 0x1_0000) as u16
    } else {
        x as u16
    }
}

/// Reinterprets the bits of a `u32` as an `i32`.
pub fn u32_to_i32(x: u32) -> (r: i32)
    ensures
        r == u32_bits_as_i32(x),
{
    if x >= 0x8000_0000 {
        (x as i64 - 0x1_0000_0000) as i32
    } else {
        x as i32
    }
}

/// Reinterprets the bits of an `i32` as a `u32`.
pub fn i32_to_u32(x: i32) -> (r: u32)
    ensures
        r == i32_bits_as_u32(x),
{
    if x < 0 {
        (x as i64 + 0x1_0000_0000) as u32
    } else {
        x as u32
    }
}

/// Reinterpreting a bit pattern as the other signedness and back gives the
/// value one started with, at every width and in both directions.
pub proof fn lemma_bit_patterns_round_trip(a: u8, b: i8, c: u16, d: i16, e: u32, f: i32)
    ensures
        i8_bits_as_u8(u8_bits_as_i8(a)) == a,
        u8_bits_as_i8(i8_bits_as_u8(b)) == b,
        i16_bits_as_u16(u16_bits_as_i16(c)) == c,
        u16_bits_as_i16(i16_bits_as_u16(d)) == d,
        i32_bits_as_u32(u32_bits_as_i32(e)) == e,
        u32_bits_as_i32(i32_bits_as_u32(f)) == f,
{
}

/// Whether `value` is the number of a character: a code point that is no
/// surrogate.
pub open spec fn is_scalar_value(value: u32) -> bool {
    value <= 0xD7FF || 0xE000 <= value <= 0x10_FFFF
}

/// The character with the given number, or `None` if there is none.
///
/// This is `char::from_u32` of the standard library, which is not verified
/// here. Its documentation says that it returns `None` exactly for the
/// numbers that are no `char`, which are the surrogates and the numbers
/// above 0x10FFFF, and the `char` with that number otherwise.
#[verifier::external_body]
pub(crate) fn char_from_u32(value: u32) -> (c: Option<char>)
    ensures
        c == if is_scalar_value(value) {
            Some(value as char)
        } else {
            None::<char>
        },
{
    char::from_u32(value)
}

/// The 16-bit value whose big-endian bytes are `b0 b1`.
pub open spec fn u16_from_be(b0: u8, b1: u8) -> u16 {
    (b0 * 0x100 + b1) as u16
}

/// The 32-bit value whose big-endian bytes are `b0 .. b3`.
pub open spec fn u32_from_be(b0: u8, b1: u8, b2: u8, b3: u8) -> u32 {
    (b0 * 0x100_0000 + b1 * 0x1_0000 + b2 * 0x100 + b3) as u32
}

/// The 64-bit value whose big-endian bytes are `b`, which holds eight bytes.
pub open spec fn u64_from_be(b: Seq<u8>) -> u64
    recommends
        b.len() == 8,
{
    (b[0] * 0x100_0000_0000_0000 + b[1] * 0x1_0000_0000_0000 + b[2] * 0x100_0000_0000 + b[3]
        * 0x1_0000_0000 + b[4] * 0x100_0000 + b[5] * 0x1_0000 + b[6] * 0x100 + b[7]) as u64
}

/// The big-endian bytes of a 16-bit value, most significant first.
pub open spec fn u16_be_bytes(x: u16) -> Seq<u8> {
    seq![(x / 0x100) as u8, (x % 0x100) as u8]
}

/// The big-endian bytes of a 32-bit value, most significant first.
pub open spec fn u32_be_bytes(x: u32) -> Seq<u8> {
    seq![
        (x / 0x100_0000) as u8,
        (x / 0x1_0000 % 0x100) as u8,
        (x / 0x100 % 0x100) as u8,
        (x % 0x100) as u8,
    ]
}

/// The big-endian bytes of a 64-bit value, most significant first.
pub open spec fn u64_be_bytes(x: u64) -> Seq<u8> {
    seq![
        (x / 0x100_0000_0000_0000) as u8,
        (x / 0x1_0000_0000_0000 % 0x100) as u8,
        (x / 0x100_0000_0000 % 0x100) as u8,
        (x / 0x1_0000_0000 % 0x100) as u8,
        (x / 0x100_0000 % 0x100) as u8,
        (x / 0x1_0000 % 0x100) as u8,
        (x / 0x100 % 0x100) as u8,
        (x % 0x100) as u8,
    ]
}

/// Composes a 16-bit value from its big-endian bytes.
pub fn u16_of_be(b0: u8, b1: u8) -> (r: u16)
    ensures
        r == u16_from_be(b0, b1),
{
    b0 as u16 * 0x100 + b1 as u16
}

/// Composes a 32-bit value from its big-endian bytes.
pub fn u32_of_be(b0: u8, b1: u8, b2: u8, b3: u8) -> (r: u32)
    ensures
        r == u32_from_be(b0, b1, b2, b3),
{
    b0 as u32 * 0x100_0000 + b1 as u32 * 0x1_0000 + b2 as u32 * 0x100 + b3 as u32
}

/// Composes a 64-bit value from its eight big-endian bytes.
pub fn u64_of_be(b: &[u8; 8]) -> (r: u64)
    ensures
        r == u64_from_be(b@),
{
    b[0] as u64 * 0x100_0000_0000_0000 + b[1] as u64 * 0x1_0000_0000_0000 + b[2] as u64
        * 0x100_0000_0000 + b[3] as u64 * 0x1_0000_0000 + b[4] as u64 * 0x100_0000 + b[5] as u64
        * 0x1_0000 + b[6] as u64 * 0x100 + b[7] as u64
}

/// Splits a 16-bit value into its big-endian bytes.
pub fn u16_to_be(x: u16) -> (r: [u8; 2])
    ensures
        r@ == u16_be_bytes(x),
{
    let r: [u8; 2] = [(x / 0x100) as u8, (x % 0x100) as u8];
    assert(r@ =~= u16_be_bytes(x));
    r
}

/// Splits a 32-bit value into its big-endian bytes.
pub fn u32_to_be(x: u32) -> (r: [u8; 4])
    ensures
        r@ == u32_be_bytes(x),
{
    let r: [u8; 4] = [
        (x / 0x100_0000) as u8,
        (x / 0x1_0000 % 0x100) as u8,
        (x / 0x100 % 0x100) as u8,
        (x % 0x100) as u8,
    ];
    assert(r@ =~= u32_be_bytes(x));
    r
}

/// Splits a 64-bit value into its big-endian bytes.
pub fn u64_to_be(x: u64) -> (r: [u8; 8])
    ensures
        r@ == u64_be_bytes(x),
{
    let r: [u8; 8] = [
        (x / 0x100_0000_0000_0000) as u8,
        (x / 0x1_0000_0000_0000 % 0x100) as u8,
        (x / 0x100_0000_0000 % 0x100) as u8,
        (x / 0x1_0000_0000 % 0x100) as u8,
        (x / 0x100_0000 % 0x100) as u8,
        (x / 0x1_0000 % 0x100) as u8,
        (x / 0x100 % 0x100) as u8,
        (x % 0x100) as u8,
    ];
    assert(r@ =~= u64_be_bytes(x));
    r
}

/// Splitting a 16-bit value into big-endian bytes and composing them again
/// gives the value back, and the other way round.
pub proof fn lemma_u16_be_round_trip(x: u16, b0: u8, b1: u8)
    ensures
        u16_be_bytes(x).len() == 2,
        u16_from_be(u16_be_bytes(x)[0], u16_be_bytes(x)[1]) == x,
        u16_be_bytes(u16_from_be(b0, b1)) == seq![b0, b1],
{
    assert(u16_be_bytes(u16_from_be(b0, b1)) =~= seq![b0, b1]);
}

/// Splitting a 32-bit value into big-endian bytes and composing them again
/// gives the value back, and the other way round.
pub proof fn lemma_u32_be_round_trip(x: u32, b0: u8, b1: u8, b2: u8, b3: u8)
    ensures
        u32_be_bytes(x).len() == 4,
        u32_from_be(u32_be_bytes(x)[0], u32_be_bytes(x)[1], u32_be_bytes(x)[2], u32_be_bytes(x)[3])
            == x,
        u32_be_bytes(u32_from_be(b0, b1, b2, b3)) == seq![b0, b1, b2, b3],
{
    assert(x == (x / 0x100_0000) * 0x100_0000 + (x / 0x1_0000 % 0x100) * 0x1_0000 + (x / 0x100
        % 0x100) * 0x100 + x % 0x100) by (bit_vector);
    let v: u32 = u32_from_be(b0, b1, b2, b3);
    assert(v == b0 * 0x100_0000 + b1 * 0x1_0000 + b2 * 0x100 + b3);
    assert(v == b0 * 0x100_0000 + b1 * 0x1_0000 + b2 * 0x100 + b3 ==> v / 0x100_0000 == b0 && v
        / 0x1_0000 % 0x100 == b1 && v / 0x100 % 0x100 == b2 && v % 0x100 == b3) by (bit_vector);
    assert(u32_be_bytes(v) =~= seq![b0, b1, b2, b3]);
}

/// Splitting a 64-bit value into big-endian bytes and composing them again
/// gives the value back, and the other way round.
pub proof fn lemma_u64_be_round_trip(x: u64, b: Seq<u8>)
    requires
        b.len() == 8,
    ensures
        u64_be_bytes(x).len() == 8,
        u64_from_be(u64_be_bytes(x)) == x,
        u64_be_bytes(u64_from_be(b)) == b,
{
    assert(x == (x / 0x100_0000_0000_0000) * 0x100_0000_0000_0000 + (x / 0x1_0000_0000_0000
        % 0x100) * 0x1_0000_0000_0000 + (x / 0x100_0000_0000 % 0x100) * 0x100_0000_0000 + (x
        / 0x1_0000_0000 % 0x100) * 0x1_0000_0000 + (x / 0x100_0000 % 0x100) * 0x100_0000 + (x
        / 0x1_0000 % 0x100) * 0x1_0000 + (x / 0x100 % 0x100) * 0x100 + x % 0x100)
        by (bit_vector);
    let (b0, b1, b2, b3, b4, b5, b6, b7) = (b[0], b[1], b[2], b[3], b[4], b[5], b[6], b[7]);
    let v: u64 = u64_from_be(b);
    assert(v == b0 * 0x100_0000_0000_0000 + b1 * 0x1_0000_0000_0000 + b2 * 0x100_0000_0000 + b3
        * 0x1_0000_0000 + b4 * 0x100_0000 + b5 * 0x1_0000 + b6 * 0x100 + b7);
    assert(v == b0 * 0x100_0000_0000_0000 + b1 * 0x1_0000_0000_0000 + b2 * 0x100_0000_0000 + b3
        * 0x1_0000_0000 + b4 * 0x100_0000 + b5 * 0x1_0000 + b6 * 0x100 + b7 ==> v
        / 0x100_0000_0000_0000 == b0 && v / 0x1_0000_0000_0000 % 0x100 == b1 && v
        / 0x100_0000_0000 % 0x100 == b2 && v / 0x1_0000_0000 % 0x100 == b3 && v / 0x100_0000
        % 0x100 == b4 && v / 0x1_0000 % 0x100 == b5 && v / 0x100 % 0x100 == b6 && v % 0x100
        == b7) by (bit_vector);
    assert(u64_be_bytes(v) =~= b);
}

} // verus!
