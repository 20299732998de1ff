use esoteric_vm::array_debug::{ArrayDebug, DebugArray};

fn shown_entries(array: &[u8], first_elems: usize, last_elems: usize) -> Vec<Option<u8>> {
    array
        .into_debug_array(first_elems, last_elems)
        .entries()
        .into_iter()
        .map(|entry| entry.copied())
        .collect()
}

#[test]
fn a_long_array_shows_its_ends() {
    let array: Vec<u8> = (0..16).collect();
    assert_eq!(
        shown_entries(&array, 4, 4),
        vec![
            Some(0),
            Some(1),
            Some(2),
            Some(3),
            None,
            Some(12),
            Some(13),
            Some(14),
            Some(15)
        ]
    );
}

#[test]
fn a_short_array_is_shown_whole() {
    let array: [u8; 3] = [7, 8, 9];
    assert_eq!(shown_entries(&array, 3, 2), vec![Some(7), Some(8), Some(9)]);
    assert_eq!(shown_entries(&array, usize::MAX, 0), vec![Some(7), Some(8), Some(9)]);
    assert_eq!(shown_entries(&[], 0, 0), Vec::<Option<u8>>::new());
}

#[test]
fn without_last_elements_the_dots_end_the_list() {
    let array: [u8; 5] = [1, 2, 3, 4, 5];
    assert_eq!(shown_entries(&array, 2, 0), vec![Some(1), Some(2), None]);
    assert_eq!(shown_entries(&array, 0, 0), vec![None]);
}

#[test]
fn more_last_elements_than_there_are_count_as_none() {
    let array: [u8; 5] = [1, 2, 3, 4, 5];
    assert_eq!(shown_entries(&array, 2, 6), vec![Some(1), Some(2), None]);
    assert_eq!(
        shown_entries(&array, 1, 5),
        vec![Some(1), None, Some(1), Some(2), Some(3), Some(4), Some(5)]
    );
}

#[test]
fn the_parts_are_kept_as_they_were_given() {
    let first: [u8; 2] = [1, 2];
    let last: [u8; 1] = [9];
    let shown = DebugArray::debug(&first, false, Some(&last));
    assert_eq!(shown.inner().first(), &[1, 2]);
    assert!(!shown.inner().non_exhaustive());
    assert_eq!(shown.inner().continuation(), Some(&[9u8] as &[u8]));
    let entries: Vec<Option<u8>> =
        shown.inner().entries().into_iter().map(|entry| entry.copied()).collect();
    assert_eq!(entries, vec![Some(1), Some(2), None, Some(9)]);
    let whole = DebugArray::debug(&first, false, None);
    assert_eq!(whole.inner().entries().len(), 2);
    assert_eq!(whole.inner().continuation(), None);
    let cut = DebugArray::debug(&first, true, None);
    assert_eq!(cut.inner().entries().len(), 3);
}

#[test]
fn both_ways_of_showing_agree() {
    let array: Vec<u8> = (0..40).collect();
    let slice: &[u8] = &array;
    let one = slice.into_debug_array(16, 3);
    let other = slice.array_debug(16, 3);
    assert_eq!(one.first(), other.inner().first());
    assert_eq!(one.non_exhaustive(), other.inner().non_exhaustive());
    assert_eq!(one.continuation(), other.inner().continuation());
    assert_eq!(one.first().len(), 16);
    assert_eq!(one.continuation(), Some(&[37u8, 38, 39] as &[u8]));
}
