use esoteric_vm::memory::{
    index_u64, read_bytes, read_line, read_u16, write_bytes, zeroed_memory, MEMORY_SIZE,
};

#[test]
fn fresh_memory_is_65536_zero_bytes() {
    let memory = zeroed_memory();
    assert_eq!(MEMORY_SIZE, 65536);
    assert_eq!(memory.len(), 65536);
    assert!(memory.iter().all(|byte| *byte == 0));
}

#[test]
fn bytes_are_stored_in_order() {
    let mut memory = zeroed_memory();
    write_bytes(&mut memory, 10, &[1, 2, 3]);
    assert_eq!(&memory[9..14], &[0, 1, 2, 3, 0]);
    assert_eq!(read_bytes(&memory, 10, 3), vec![1, 2, 3]);
}

#[test]
fn storing_wraps_around_the_end_of_memory() {
    let mut memory = zeroed_memory();
    write_bytes(&mut memory, 65534, &[1, 2, 3, 4]);
    assert_eq!(memory[65534], 1);
    assert_eq!(memory[65535], 2);
    assert_eq!(memory[0], 3);
    assert_eq!(memory[1], 4);
    assert_eq!(memory[2], 0);
    assert_eq!(read_bytes(&memory, 65534, 4), vec![1, 2, 3, 4]);
}

#[test]
fn storing_more_than_memory_holds_keeps_the_later_bytes() {
    let mut memory = zeroed_memory();
    let mut bytes: Vec<u8> = vec![1; 65536];
    bytes.push(7);
    bytes.push(8);
    write_bytes(&mut memory, 100, &bytes);
    assert_eq!(memory[100], 7);
    assert_eq!(memory[101], 8);
    assert_eq!(memory[102], 1);
    assert_eq!(memory[99], 1);
}

#[test]
fn a_word_at_the_last_address_ends_at_address_zero() {
    let mut memory = zeroed_memory();
    memory[65535] = 0x12;
    memory[0] = 0x34;
    assert_eq!(read_u16(&memory, 65535), 0x1234);
    memory[7] = 0xAB;
    memory[8] = 0xCD;
    assert_eq!(read_u16(&memory, 7), 0xABCD);
}

#[test]
fn index_u64_is_big_endian() {
    let mut memory = zeroed_memory();
    write_bytes(&mut memory, 200, &[1, 2, 3, 4, 5, 6, 7, 8]);
    assert_eq!(index_u64(memory.as_slice(), 200), 0x0102_0304_0506_0708);
    assert_eq!(index_u64(&[1, 0, 0, 0, 0, 0, 0, 2], 0), 0x0100_0000_0000_0002);
    assert_eq!(index_u64(&[0xFF, 0, 0, 0, 0, 0, 0, 0], 0), 0xFF00_0000_0000_0000);
    assert_eq!(
        index_u64(&[9, 0x12, 0x34, 0x56, 0x78, 0x9A, 0xBC, 0xDE, 0xF0], 1),
        u64::from_be_bytes([0x12, 0x34, 0x56, 0x78, 0x9A, 0xBC, 0xDE, 0xF0])
    );
}

#[test]
fn index_u64_wraps_around_the_end_of_memory() {
    let mut memory = zeroed_memory();
    write_bytes(&mut memory, 65532, &[1, 2, 3, 4, 5, 6, 7, 8]);
    assert_eq!(index_u64(memory.as_slice(), 65532), 0x0102_0304_0506_0708);
    assert_eq!(index_u64(memory.as_slice(), 65535), 0x0405_0607_0800_0000);
}

#[test]
fn a_line_ends_before_its_zero_byte() {
    let mut memory = zeroed_memory();
    write_bytes(&mut memory, 50, b"hello\0world");
    assert_eq!(read_line(&memory, 50), b"hello".to_vec());
    assert_eq!(read_line(&memory, 56), b"world".to_vec());
    assert_eq!(read_line(&memory, 55), Vec::<u8>::new());
}

#[test]
fn a_line_wraps_around_the_end_of_memory() {
    let mut memory = zeroed_memory();
    write_bytes(&mut memory, 65534, b"abcd");
    assert_eq!(read_line(&memory, 65534), b"abcd".to_vec());
}

#[test]
fn a_line_without_a_zero_byte_is_all_of_memory_once() {
    let mut memory = zeroed_memory();
    let bytes: Vec<u8> = vec![b'x'; 65536];
    write_bytes(&mut memory, 0, &bytes);
    memory[3] = b'y';
    let line = read_line(&memory, 4);
    assert_eq!(line.len(), 65536);
    assert_eq!(line[65535], b'y');
    assert_eq!(line[0], b'x');
}
