use pavo_traits::{AsPtr, AsPtrMut, Wrapper};

fn read_ptr<T: AsPtr<Wrapper<usize>>>(t: T) -> usize {
    t.as_ptr().inner
}

fn read_ptr2<T: AsPtr<usize>>(t: T) -> usize {
    *t.as_ptr()
}

fn write_ptr_mut<T: AsPtrMut<Wrapper<usize>>>(t: &mut T) {
    t.as_ptr_mut().inner = 456;
}

#[test]
fn test_as_ptr() {
    let f = Wrapper { inner: 123usize };
    assert!(std::ptr::eq(AsPtr::<Wrapper<usize>>::as_ptr(&f), &f));
    assert!(std::ptr::eq(AsPtr::<usize>::as_ptr(&f), &f.inner));
    let v = *AsPtr::<usize>::as_ptr(&f);
    assert_eq!(v, f.inner);
    let v2 = read_ptr(&f);
    assert_eq!(v, v2);
    let v3 = read_ptr2(&f);
    assert_eq!(v2, v3);
    let v4 = read_ptr(f);
    assert_eq!(v3, v4);
}

#[test]
fn test_as_ptr_mut() {
    let mut f = Wrapper { inner: 123usize };
    *AsPtrMut::<usize>::as_ptr_mut(&mut f) = 321;
    assert_eq!(321, f.inner);
    write_ptr_mut(&mut f);
    assert_eq!(456, f.inner);
}

#[test]
fn test_mut_borrow_forwards_writes() {
    let mut f = Wrapper { inner: 1u64 };
    {
        let mut b = &mut f;
        *AsPtrMut::<u64>::as_ptr_mut(&mut b) = 2;
    }
    assert_eq!(f.inner, 2);
}

#[test]
fn test_borrow_forwards_same_address() {
    let w = Wrapper { inner: 7u64 };
    let direct = AsPtr::<u64>::as_ptr(&w);
    let borrowed = &w;
    let through = AsPtr::<u64>::as_ptr(&borrowed);
    assert!(std::ptr::eq(direct, through));
    assert_eq!(*direct, *through);
}
