use esoteric_vm::stack::{Stack, StackOverflow, DEFAULT_STACK_CAPACITY};

#[test]
fn default_stack_is_empty_and_holds_4095_bytes() {
    let stack = Stack::default();
    assert_eq!(DEFAULT_STACK_CAPACITY, 4095);
    assert_eq!(stack.total_space(), 4095);
    assert_eq!(stack.used_space(), 0);
    assert_eq!(stack.space_left(), 4095);
    assert_eq!(stack.as_slice(), &[] as &[u8]);
}

#[test]
fn bytes_come_off_in_reverse_order() {
    let mut stack = Stack::new(8);
    assert_eq!(stack.push_byte(1), Ok(()));
    assert_eq!(stack.push_byte(2), Ok(()));
    assert_eq!(stack.push_byte(3), Ok(()));
    assert_eq!(stack.used_space(), 3);
    assert_eq!(stack.space_left(), 5);
    assert_eq!(stack.pop_byte(), Some(3));
    assert_eq!(stack.pop_byte(), Some(2));
    assert_eq!(stack.pop_byte(), Some(1));
    assert_eq!(stack.pop_byte(), None);
}

#[test]
fn one_byte_more_than_the_capacity_overflows_on_the_last_push() {
    let capacity: usize = 5;
    let mut stack = Stack::new(capacity);
    for k in 0..capacity {
        assert_eq!(stack.push_byte(k as u8), Ok(()));
    }
    assert_eq!(stack.push_byte(99), Err(StackOverflow));
    assert_eq!(stack.used_space(), capacity);
    assert_eq!(stack.total_space(), capacity);
    assert_eq!(stack.as_slice(), &[0, 1, 2, 3, 4]);
}

#[test]
fn the_default_stack_overflows_at_its_4096th_byte() {
    let mut stack = Stack::default();
    for _ in 0..4095 {
        assert_eq!(stack.push_byte(7), Ok(()));
    }
    assert_eq!(stack.push_byte(7), Err(StackOverflow));
    assert_eq!(stack.used_space(), 4095);
}

#[test]
fn popping_an_empty_stack_changes_nothing() {
    let mut stack = Stack::new(3);
    assert_eq!(stack.pop_byte(), None);
    assert_eq!(stack.used_space(), 0);
    assert_eq!(stack.total_space(), 3);
    assert_eq!(stack.push_byte(0), Ok(()));
    assert_eq!(stack.pop_byte(), Some(0));
    assert_eq!(stack.pop_byte(), None);
}

#[test]
fn a_stack_without_capacity_takes_nothing() {
    let mut stack = Stack::new(0);
    assert_eq!(stack.push_byte(1), Err(StackOverflow));
    assert_eq!(stack.push_bytes(&[]), Ok(()));
    assert_eq!(stack.allocate(0), Ok(()));
    assert_eq!(stack.allocate(1), Err(StackOverflow));
    assert_eq!(stack.used_space(), 0);
}

#[test]
fn bytes_are_pushed_all_or_not_at_all() {
    let mut stack = Stack::new(4);
    assert_eq!(stack.push_bytes(&[1, 2, 3]), Ok(()));
    assert_eq!(stack.push_bytes(&[4, 5]), Err(StackOverflow));
    assert_eq!(stack.as_slice(), &[1, 2, 3]);
    assert_eq!(stack.push_bytes(&[4]), Ok(()));
    assert_eq!(stack.as_slice(), &[1, 2, 3, 4]);
    assert_eq!(stack.pop_byte(), Some(4));
}

#[test]
fn allocating_pushes_zero_bytes_all_or_not_at_all() {
    let mut stack = Stack::new(4);
    assert_eq!(stack.push_byte(9), Ok(()));
    assert_eq!(stack.allocate(4), Err(StackOverflow));
    assert_eq!(stack.as_slice(), &[9]);
    assert_eq!(stack.allocate(3), Ok(()));
    assert_eq!(stack.as_slice(), &[9, 0, 0, 0]);
    assert_eq!(stack.allocate(usize::MAX), Err(StackOverflow));
}

#[test]
fn deallocating_pops_all_or_not_at_all() {
    let mut stack = Stack::new(4);
    assert_eq!(stack.push_bytes(&[1, 2, 3]), Ok(()));
    assert_eq!(stack.dealloc(4), Err(StackOverflow));
    assert_eq!(stack.as_slice(), &[1, 2, 3]);
    assert_eq!(stack.dealloc(2), Ok(()));
    assert_eq!(stack.as_slice(), &[1]);
    assert_eq!(stack.dealloc(0), Ok(()));
    assert_eq!(stack.dealloc(1), Ok(()));
    assert_eq!(stack.used_space(), 0);
}

#[test]
fn multi_byte_values_are_popped_big_endian() {
    let mut stack = Stack::new(32);
    assert_eq!(stack.push_bytes(&[0x12, 0x34]), Ok(()));
    assert_eq!(stack.pop_u16(), Some(0x1234));
    assert_eq!(stack.push_bytes(&[0x12, 0x34, 0x56, 0x78]), Ok(()));
    assert_eq!(stack.pop_u32(), Some(0x1234_5678));
    assert_eq!(stack.push_bytes(&[1, 2, 3, 4, 5, 6, 7, 8]), Ok(()));
    assert_eq!(stack.pop_u64(), Some(0x0102_0304_0506_0708));
    assert_eq!(stack.used_space(), 0);
}

#[test]
fn multi_byte_pops_leave_the_bytes_below() {
    let mut stack = Stack::new(32);
    assert_eq!(stack.push_bytes(&[9, 8, 0xAB, 0xCD]), Ok(()));
    assert_eq!(stack.pop_u16(), Some(0xABCD));
    assert_eq!(stack.as_slice(), &[9, 8]);
}

#[test]
fn a_multi_byte_pop_that_underflows_pops_nothing() {
    let mut stack = Stack::new(32);
    assert_eq!(stack.push_byte(1), Ok(()));
    assert_eq!(stack.pop_u16(), None);
    assert_eq!(stack.as_slice(), &[1]);
    assert_eq!(stack.push_bytes(&[2, 3]), Ok(()));
    assert_eq!(stack.pop_u32(), None);
    assert_eq!(stack.as_slice(), &[1, 2, 3]);
    assert_eq!(stack.push_bytes(&[4, 5, 6, 7]), Ok(()));
    assert_eq!(stack.pop_u64(), None);
    assert_eq!(stack.as_slice(), &[1, 2, 3, 4, 5, 6, 7]);
}

#[test]
fn regions_are_counted_from_the_bottom() {
    let mut stack = Stack::new(8);
    assert_eq!(stack.push_bytes(&[10, 20, 30, 40]), Ok(()));
    assert_eq!(stack.region(1, 3), Some(vec![20, 30]));
    assert_eq!(stack.region(0, 4), Some(vec![10, 20, 30, 40]));
    assert_eq!(stack.region(2, 2), Some(vec![]));
    assert_eq!(stack.region(3, 2), None);
    assert_eq!(stack.region(0, 5), None);
}

#[test]
fn a_cloned_stack_is_a_stack_of_its_own() {
    let mut stack = Stack::new(3);
    assert_eq!(stack.push_byte(1), Ok(()));
    let mut clone = stack.clone();
    assert_eq!(clone.push_byte(2), Ok(()));
    assert_eq!(stack.as_slice(), &[1]);
    assert_eq!(clone.as_slice(), &[1, 2]);
    assert_eq!(clone.total_space(), 3);
}

#[test]
fn stack_overflow_names_itself() {
    assert_eq!(StackOverflow.message(), "Stack overflow");
    assert_eq!(StackOverflow, StackOverflow::default());
}
