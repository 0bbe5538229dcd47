use pavo_traits::{CloneFromSliceFlex, CopyFromSliceFlex};

#[derive(Debug, Clone, PartialEq, Eq, PartialOrd)]
struct Bar(usize);

#[test]
fn test_clone_from_slice_flex() {
    let mut a4 = [Bar(1), Bar(2), Bar(3), Bar(4)];
    a4.clone_from_slice_flex(&[]);
    assert_eq!(a4, [Bar(1), Bar(2), Bar(3), Bar(4)]);
    a4.clone_from_slice_flex(&[Bar(5)]);
    assert_eq!(a4, [Bar(5), Bar(2), Bar(3), Bar(4)]);
    a4.clone_from_slice_flex(&[Bar(5), Bar(6)]);
    assert_eq!(a4, [Bar(5), Bar(6), Bar(3), Bar(4)]);
    a4.clone_from_slice_flex(&[Bar(5), Bar(6), Bar(7)]);
    assert_eq!(a4, [Bar(5), Bar(6), Bar(7), Bar(4)]);
    a4.clone_from_slice_flex(&[Bar(5), Bar(6), Bar(7), Bar(8)]);
    assert_eq!(a4, [Bar(5), Bar(6), Bar(7), Bar(8)]);
    a4.clone_from_slice_flex(&[Bar(5), Bar(6), Bar(7), Bar(8), Bar(9)]);
    assert_eq!(a4, [Bar(5), Bar(6), Bar(7), Bar(8)]);
}

#[test]
fn test_copy_from_slice_flex() {
    let mut a4 = [1, 2, 3, 4];
    a4.copy_from_slice_flex(&[]);
    assert_eq!(a4, [1, 2, 3, 4]);
    a4.copy_from_slice_flex(&[5]);
    assert_eq!(a4, [5, 2, 3, 4]);
    a4.copy_from_slice_flex(&[5, 6]);
    assert_eq!(a4, [5, 6, 3, 4]);
    a4.copy_from_slice_flex(&[5, 6, 7]);
    assert_eq!(a4, [5, 6, 7, 4]);
    a4.copy_from_slice_flex(&[5, 6, 7, 8]);
    assert_eq!(a4, [5, 6, 7, 8]);
    a4.copy_from_slice_flex(&[5, 6, 7, 8, 9]);
    assert_eq!(a4, [5, 6, 7, 8]);
}

#[test]
fn test_flex_copy_empty_destination() {
    let mut empty: [i32; 0] = [];
    empty.copy_from_slice_flex(&[1, 2, 3]);
    assert_eq!(empty, []);
    let mut also_empty: [Bar; 0] = [];
    also_empty.clone_from_slice_flex(&[Bar(1)]);
    assert_eq!(also_empty, []);
}
