use pavo_traits::{convert_tag, InnerCopy, InnerRefer, Mode, TagRepr, Wrapper};
use std::sync::Arc;

#[test]
fn test_inner_copy() {
    let f = Wrapper { inner: 123usize };
    let v: usize = InnerCopy::inner(&f);
    assert_eq!(v, f.inner);
}

#[test]
fn test_inner_refer() {
    let mut f = Wrapper { inner: Arc::new(123) };
    assert_eq!(&**f.inner(), &123usize);
    assert!(std::ptr::eq(f.inner(), &f.inner));
    *Arc::make_mut(f.inner_mut()) = 456;
    assert_eq!(&**f.inner(), &456usize);
}

#[test]
fn test_wrapper_round_trip() {
    let w = Wrapper::from_inner(5u64);
    assert_eq!(w.into_inner(), 5u64);
    let w2 = Wrapper::from_inner(String::from("abc"));
    assert_eq!(w2.into_inner(), "abc");
    let w3 = Wrapper::from(7i32);
    assert_eq!(w3.into_inner(), 7);
    let w4: Wrapper<u64> = 9u64.into();
    assert_eq!(w4.inner, 9);
}

#[test]
fn test_tag_round_trip() {
    for v in 0u32..3 {
        let m = Mode::from_ordinal(v).unwrap();
        assert_eq!(m.into_ordinal(), v);
    }
    assert_eq!(Mode::A.into_ordinal(), 0);
    assert_eq!(Mode::B.into_ordinal(), 1);
    assert_eq!(Mode::C.into_ordinal(), 2);
    assert!(Mode::from_ordinal(3).is_none());
    assert_eq!(Mode::from_ordinal(Mode::B.into_ordinal()), Some(Mode::B));
}

#[test]
fn test_convert_tag() {
    let m: Option<Mode> = convert_tag(Mode::C);
    assert_eq!(m, Some(Mode::C));
}
