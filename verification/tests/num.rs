use pavo_traits::{AlignDownwards, AlignUpwards, Clamped, IsInRange};

#[test]
fn test_is_in_range() {
    for a in 0..1000000 {
        assert!(!a.is_in_range(a - 2, a - 1));
        assert!(a.is_in_range(a - 1, a));
        assert!(a.is_in_range(a, a));
        assert!(a.is_in_range(a, a + 1));
    }
}

#[test]
fn test_is_in_range_unsigned() {
    assert!(!8u64.is_in_range(6, 7));
    assert!(8u64.is_in_range(7, 8));
    assert!(8u64.is_in_range(8, 9));
    assert!(!8u64.is_in_range(9, 10));
}

#[test]
fn test_align_downwards() {
    assert_eq!(63u64.align_downwards(64), 0);
    assert_eq!(64u64.align_downwards(64), 64);
    assert_eq!(65u64.align_downwards(64), 64);
    assert_eq!(0u8.align_downwards(16), 0);
    assert_eq!((-5i32).align_downwards(4), -4);
    assert_eq!(5i32.align_downwards(-4), 4);
    assert_eq!((-8i16).align_downwards(4), -8);
}

#[test]
fn test_align_upwards() {
    assert_eq!(63u64.align_upwards(64), 64);
    assert_eq!(64u64.align_upwards(64), 64);
    assert_eq!(65u64.align_upwards(64), 128);
    assert_eq!(0u8.align_upwards(16), 0);
    assert_eq!((-5i32).align_upwards(4), 0);
    assert_eq!((-8i16).align_upwards(4), -8);
}

#[test]
fn test_clamped() {
    assert_eq!(8u64.clamped(6, 7), 7);
    assert_eq!(8u64.clamped(7, 8), 8);
    assert_eq!(8u64.clamped(8, 9), 8);
    assert_eq!(8u64.clamped(9, 10), 9);
    assert_eq!((-3i32).clamped(-2, 5), -2);
    assert_eq!(7i32.clamped(-2, 5), 5);
}
