use esoteric_vm::bits::{
    i16_to_u16, i32_to_u32, i8_to_u8, u16_of_be, u16_to_be, u16_to_i16, u32_of_be, u32_to_be,
    u32_to_i32, u64_of_be, u64_to_be, u8_to_i8,
};

#[test]
fn bytes_keep_their_bits_across_signedness() {
    assert_eq!(u8_to_i8(0), 0);
    assert_eq!(u8_to_i8(127), 127);
    assert_eq!(u8_to_i8(128), -128);
    assert_eq!(u8_to_i8(255), -1);
    assert_eq!(i8_to_u8(-1), 255);
    assert_eq!(i8_to_u8(-128), 128);
    assert_eq!(i8_to_u8(127), 127);
    for x in 0..=u8::MAX {
        assert_eq!(u8_to_i8(x), x as i8);
        assert_eq!(i8_to_u8(u8_to_i8(x)), x);
    }
}

#[test]
fn words_keep_their_bits_across_signedness() {
    assert_eq!(u16_to_i16(0x8000), i16::MIN);
    assert_eq!(u16_to_i16(0xFFFF), -1);
    assert_eq!(u16_to_i16(0x7FFF), i16::MAX);
    assert_eq!(i16_to_u16(-1), 0xFFFF);
    assert_eq!(i16_to_u16(i16::MIN), 0x8000);
    for x in 0..=u16::MAX {
        assert_eq!(u16_to_i16(x), x as i16);
        assert_eq!(i16_to_u16(u16_to_i16(x)), x);
    }
}

#[test]
fn double_words_keep_their_bits_across_signedness() {
    assert_eq!(u32_to_i32(0x8000_0000), i32::MIN);
    assert_eq!(u32_to_i32(0xFFFF_FFFF), -1);
    assert_eq!(u32_to_i32(99), 99);
    assert_eq!(i32_to_u32(-1), 0xFFFF_FFFF);
    assert_eq!(i32_to_u32(i32::MIN), 0x8000_0000);
    assert_eq!(i32_to_u32(i32::MAX), 0x7FFF_FFFF);
    for x in [0u32, 1, 0x7FFF_FFFF, 0x8000_0000, 0x8000_0001, 0xDEAD_BEEF, u32::MAX] {
        assert_eq!(u32_to_i32(x), x as i32);
        assert_eq!(i32_to_u32(u32_to_i32(x)), x);
    }
}

#[test]
fn big_endian_bytes_are_those_of_the_standard_library() {
    assert_eq!(u16_to_be(0x1234), [0x12, 0x34]);
    assert_eq!(u32_to_be(0x1234_5678), [0x12, 0x34, 0x56, 0x78]);
    assert_eq!(
        u64_to_be(0x0102_0304_0506_0708),
        [0x01, 0x02, 0x03, 0x04, 0x05, 0x06, 0x07, 0x08]
    );
    for x in [0u64, 1, 0xFF, 0x100, 0xDEAD_BEEF_0BAD_F00D, u64::MAX] {
        assert_eq!(u64_to_be(x), x.to_be_bytes());
        assert_eq!(u32_to_be(x as u32), (x as u32).to_be_bytes());
        assert_eq!(u16_to_be(x as u16), (x as u16).to_be_bytes());
    }
}

#[test]
fn big_endian_values_are_those_of_the_standard_library() {
    assert_eq!(u16_of_be(0x12, 0x34), 0x1234);
    assert_eq!(u16_of_be(0xFF, 0xFF), 0xFFFF);
    assert_eq!(u32_of_be(0x12, 0x34, 0x56, 0x78), 0x1234_5678);
    assert_eq!(u32_of_be(0xFF, 0xFF, 0xFF, 0xFF), u32::MAX);
    assert_eq!(u64_of_be(&[1, 2, 3, 4, 5, 6, 7, 8]), 0x0102_0304_0506_0708);
    assert_eq!(u64_of_be(&[0xFF; 8]), u64::MAX);
    for x in [0u64, 1, 0xFF, 0x100, 0xDEAD_BEEF_0BAD_F00D, u64::MAX] {
        assert_eq!(u64_of_be(&u64_to_be(x)), x);
    }
}
