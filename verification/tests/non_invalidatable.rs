use esoteric_vm::non_invalidatable::{transmute, NonInvalidatable};

#[test]
fn transmuting_keeps_the_bits() {
    assert_eq!(transmute::<u8, i8, 1>(255), -1i8);
    assert_eq!(transmute::<i8, u8, 1>(-128), 128u8);
    assert_eq!(transmute::<i16, u16, 2>(-1), 0xFFFFu16);
    assert_eq!(transmute::<u16, i16, 2>(0x8000), i16::MIN);
    assert_eq!(transmute::<u32, i32, 4>(0xFFFF_FFFE), -2i32);
    assert_eq!(transmute::<i32, u32, 4>(i32::MIN), 0x8000_0000u32);
    assert_eq!(transmute::<u64, i64, 8>(u64::MAX), -1i64);
    assert_eq!(transmute::<i64, u64, 8>(i64::MIN), 0x8000_0000_0000_0000u64);
    assert_eq!(transmute::<u16, u16, 2>(0x1234), 0x1234u16);
}

#[test]
fn transmuting_is_what_a_cast_between_signs_does() {
    for x in 0..=u16::MAX {
        assert_eq!(transmute::<u16, i16, 2>(x), x as i16);
        assert_eq!(transmute::<i16, u16, 2>(x as i16), x);
    }
    for x in [0i64, 1, -1, i64::MIN, i64::MAX, -0x0123_4567_89AB_CDEF] {
        assert_eq!(transmute::<i64, u64, 8>(x), x as u64);
        assert_eq!(transmute::<u64, i64, 8>(x as u64), x);
    }
}

#[test]
fn bits_are_big_endian_bytes() {
    assert_eq!(0x1234u16.to_bits(), [0x12, 0x34]);
    assert_eq!((-2i16).to_bits(), [0xFF, 0xFE]);
    assert_eq!(0x0102_0304u32.to_bits(), [1, 2, 3, 4]);
    assert_eq!((-1i64).to_bits(), [0xFF; 8]);
    assert_eq!(<i8 as NonInvalidatable<1>>::from_bits([0x80]), i8::MIN);
    assert_eq!(<u64 as NonInvalidatable<8>>::from_bits([0, 0, 0, 0, 0, 0, 1, 0]), 256);
    assert_eq!(<i32 as NonInvalidatable<4>>::from_bits([0xFF, 0xFF, 0xFF, 0xFF]), -1);
}

#[test]
fn the_widest_integers_keep_their_bits_too() {
    assert_eq!(transmute::<u128, i128, 16>(u128::MAX), -1i128);
    assert_eq!(transmute::<i128, u128, 16>(i128::MIN), 1u128 << 127);
    assert_eq!(transmute::<i128, u128, 16>(-2), u128::MAX - 1);
    assert_eq!(transmute::<u128, u128, 16>(0x0102_0304), 0x0102_0304u128);
    let value: u128 = 0x0102_0304_0506_0708_090A_0B0C_0D0E_0F10;
    assert_eq!(value.to_bits(), [1, 2, 3, 4, 5, 6, 7, 8, 9, 10, 11, 12, 13, 14, 15, 16]);
    assert_eq!(value.to_bits(), value.to_be_bytes());
    assert_eq!(<u128 as NonInvalidatable<16>>::from_bits(value.to_be_bytes()), value);
    for x in [0i128, 1, -1, i128::MIN, i128::MAX, -0x0123_4567_89AB_CDEF_0123_4567] {
        assert_eq!(x.to_bits(), x.to_be_bytes());
        assert_eq!(<i128 as NonInvalidatable<16>>::from_bits(x.to_be_bytes()), x);
        assert_eq!(transmute::<i128, u128, 16>(x), x as u128);
        assert_eq!(transmute::<u128, i128, 16>(x as u128), x);
    }
}
