use ansiart::number::{push_digit, IntoNumberSequenceIter, NumberSequenceIterator};

fn plain(bytes: &[u8]) -> Vec<usize> {
    bytes.into_sequence_iter().collect()
}

fn with_default(bytes: &[u8], default: usize) -> Vec<usize> {
    bytes.into_sequence_iter_with_default(default).collect()
}

#[test]
fn digit_segments_read_as_decimal_numbers() {
    assert_eq!(plain(b"31;1"), vec![31, 1]);
    assert_eq!(plain(b"0;007;65535;"), vec![0, 7, 65535]);
    assert_eq!(plain(b"2;5"), vec![2, 5]);
    assert_eq!(plain(b"12"), vec![12]);
}

#[test]
fn other_segments_are_skipped_not_zero() {
    assert_eq!(plain(b"1;x;3"), vec![1, 3]);
    assert_eq!(plain(b"1;2a;3"), vec![1, 3]);
    assert_eq!(plain(b"1;a2;3"), vec![1, 3]);
    assert_eq!(plain(b"?25"), Vec::<usize>::new());
    assert_eq!(plain(b" 1;2 "), Vec::<usize>::new());
    assert_eq!(with_default(b"a;;b;4", 9), vec![9, 4]);
}

#[test]
fn empty_segments_yield_the_default_only_when_closed() {
    assert_eq!(plain(b""), Vec::<usize>::new());
    assert_eq!(plain(b";;"), Vec::<usize>::new());
    assert_eq!(plain(b";5;"), vec![5]);
    assert_eq!(with_default(b"", 1), Vec::<usize>::new());
    assert_eq!(with_default(b";", 1), vec![1]);
    assert_eq!(with_default(b";5", 1), vec![1, 5]);
    assert_eq!(with_default(b"5;", 1), vec![5]);
    assert_eq!(with_default(b";;7;;", 0), vec![0, 0, 7, 0]);
}

#[test]
fn numbers_stop_at_the_largest_value_a_usize_holds() {
    assert_eq!(
        plain(b"340282366920938463463374607431768211456;2"),
        vec![usize::MAX, 2]
    );
    assert_eq!(push_digit(12, b'3'), 123);
    assert_eq!(push_digit(usize::MAX / 10 + 1, b'0'), usize::MAX);
    assert_eq!(push_digit(usize::MAX / 10, b'9'), usize::MAX);
}

#[test]
fn the_reader_can_be_moved() {
    let bytes = b"10;20;30";
    let mut list = NumberSequenceIterator::new(bytes, None);
    assert_eq!(list.cursor(), 0);
    assert_eq!(list.next(), Some(10));
    assert_eq!(list.cursor(), 3);
    list.seek(6);
    assert_eq!(list.next(), Some(30));
    assert_eq!(list.next(), None);
    assert_eq!(list.cursor(), 8);
    list.seek(100);
    assert_eq!(list.cursor(), 8);
    list.seek(0);
    assert_eq!(list.collect(), vec![10, 20, 30]);
}

#[test]
fn runs_of_digits_read_the_same_with_any_default() {
    let list = b"31;1;007;65535;0";
    let expected = vec![31, 1, 7, 65535, 0];
    assert_eq!(plain(list), expected);
    assert_eq!(with_default(list, 0), expected);
    assert_eq!(with_default(list, 9), expected);
    assert_eq!(plain(b"5"), vec![5]);
    assert_eq!(with_default(b"5", 1), vec![5]);
}
