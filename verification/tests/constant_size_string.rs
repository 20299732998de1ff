use esoteric_vm::constant_size_string::{ConstantSizeString, Overflow};

#[test]
fn a_string_is_made_of_bytes_that_fit() {
    let string = ConstantSizeString::new(b"abc".to_vec(), 3).unwrap();
    assert_eq!(string.as_slice(), b"abc");
    assert_eq!(string.to_vec(), b"abc".to_vec());
    assert_eq!(string.len(), 3);
    assert_eq!(string.total_space(), 3);
    assert!(!string.is_empty());
}

#[test]
fn a_string_is_not_made_of_bytes_that_do_not_fit() {
    assert!(matches!(ConstantSizeString::new(b"abcd".to_vec(), 3), Err(Overflow)));
}

#[test]
fn the_default_string_holds_nothing() {
    let mut string = ConstantSizeString::default();
    assert!(string.is_empty());
    assert_eq!(string.len(), 0);
    assert_eq!(string.total_space(), 0);
    assert_eq!(string.push_byte(b'a'), Err(Overflow));
}

#[test]
fn pushing_a_byte_stops_at_the_capacity() {
    let mut string = ConstantSizeString::with_capacity(2);
    assert!(string.is_empty());
    assert_eq!(string.push_byte(b'a'), Ok(()));
    assert_eq!(string.push_byte(b'b'), Ok(()));
    assert_eq!(string.push_byte(b'c'), Err(Overflow));
    assert_eq!(string.as_slice(), b"ab");
    assert_eq!(string.len(), 2);
}

#[test]
fn pushing_bytes_is_all_or_nothing() {
    let mut string = ConstantSizeString::with_capacity(5);
    assert_eq!(string.push_bytes(b"abc"), Ok(()));
    assert_eq!(string.push_bytes(b"def"), Err(Overflow));
    assert_eq!(string.as_slice(), b"abc");
    assert_eq!(string.push_bytes(b"de"), Ok(()));
    assert_eq!(string.as_slice(), b"abcde");
    assert_eq!(string.push_bytes(b""), Ok(()));
}

#[test]
fn popping_gives_the_last_byte() {
    let mut string = ConstantSizeString::new(b"ab".to_vec(), 4).unwrap();
    assert_eq!(string.pop_byte(), Some(b'b'));
    assert_eq!(string.pop_byte(), Some(b'a'));
    assert_eq!(string.pop_byte(), None);
    assert!(string.is_empty());
    assert_eq!(string.total_space(), 4);
}

#[test]
fn clearing_keeps_the_capacity() {
    let mut string = ConstantSizeString::new(b"abc".to_vec(), 4).unwrap();
    string.clear();
    assert!(string.is_empty());
    assert_eq!(string.total_space(), 4);
    assert_eq!(string.push_bytes(b"wxyz"), Ok(()));
}

#[test]
fn bytes_are_read_by_index() {
    let string = ConstantSizeString::new(b"abc".to_vec(), 8).unwrap();
    assert_eq!(string.get(0), Some(b'a'));
    assert_eq!(string.get(2), Some(b'c'));
    assert_eq!(string.get(3), None);
    assert_eq!(string.get(usize::MAX), None);
}

#[test]
fn bytes_are_replaced_by_index() {
    let mut string = ConstantSizeString::new(b"abc".to_vec(), 8).unwrap();
    assert_eq!(string.set(1, b'x'), Ok(()));
    assert_eq!(string.as_slice(), b"axc");
    assert_eq!(string.set(3, b'y'), Err(Overflow));
    assert_eq!(string.as_slice(), b"axc");
}

#[test]
fn a_cloned_string_is_a_string_of_its_own() {
    let string = ConstantSizeString::new(b"ab".to_vec(), 3).unwrap();
    let mut clone = string.clone();
    assert_eq!(clone.push_byte(b'c'), Ok(()));
    assert_eq!(string.as_slice(), b"ab");
    assert_eq!(clone.as_slice(), b"abc");
}

#[test]
fn overflow_names_itself() {
    assert_eq!(Overflow.message(), "Overflow");
    assert_eq!(Overflow, Overflow::default());
}
