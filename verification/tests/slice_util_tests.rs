use bytebuf::slice_util::{append, copy_slice, delete_slice, insert_slice};
use bytebuf::ByteBufError;

#[test]
fn append_concatenates() {
    let r = append(&[1u8, 2], &[3u8, 4, 5]);
    assert_eq!(r, vec![1, 2, 3, 4, 5]);
    let empty = append::<u8>(&[], &[]);
    assert_eq!(empty, Vec::<u8>::new());
    let words = append(&[10u32, 20], &[30u32]);
    assert_eq!(words, vec![10, 20, 30]);
}

#[test]
fn insert_slice_splices_into_destination() {
    let src = [7u8, 8, 9];
    let dest = [1u8, 2, 3, 4];
    let r = insert_slice(&src, 1, 3, &dest, 2);
    assert_eq!(r, vec![1, 2, 8, 9, 3, 4]);
    let at_start = insert_slice(&src, 0, 1, &dest, 0);
    assert_eq!(at_start, vec![7, 1, 2, 3, 4]);
    let at_end = insert_slice(&src, 0, 3, &dest, 4);
    assert_eq!(at_end, vec![1, 2, 3, 4, 7, 8, 9]);
}

#[test]
fn delete_slice_removes_a_range() {
    let src = [1u8, 2, 3, 4, 5];
    assert_eq!(delete_slice(&src, 1, 2), vec![1, 4, 5]);
    assert_eq!(delete_slice(&src, 0, 5), Vec::<u8>::new());
    assert_eq!(delete_slice(&src, 4, 1), vec![1, 2, 3, 4]);
}

#[test]
fn copy_slice_takes_range_plus_tail() {
    let src = [1u8, 2, 3, 4];
    let dest = [9u8, 8, 7];
    assert_eq!(copy_slice(&src, 1, 3, &dest, 1), vec![2, 3, 8, 7]);
    assert_eq!(copy_slice(&src, 0, 0, &dest, 3), Vec::<u8>::new());
}

#[test]
fn error_carries_its_message() {
    let e = ByteBufError::new("something went wrong".to_string());
    assert_eq!(e.message, "something went wrong");
    let e2 = e.clone();
    assert_eq!(e, e2);
}
