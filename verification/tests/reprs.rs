use bayou_interner::interner::Interner;
use bayou_interner::istr::Istr;
use bayou_interner::nonzero::{NzU32, NzU64};

#[test]
fn interner_test_interner() {
    let mut interner = Interner::new();

    for n in 0u32..100 {
        let s = n.to_string();

        let a = interner.intern(&s);
        let b = interner.intern(&s);

        assert!(a == b);
        assert_eq!(interner.get_str(a), Some(s.as_str()));
    }
}

#[test]
fn default_repr_niche() {
    assert_eq!(
        std::mem::size_of::<Option<Istr>>(),
        std::mem::size_of::<Istr>(),
    );
    assert_eq!(std::mem::size_of::<Istr>(), std::mem::size_of::<usize>());
}

#[test]
fn u32_repr_interner() {
    let mut interner: Interner<u32> = Interner::with_istr_repr();
    let a = interner.intern("one");
    let b = interner.intern("two");
    let a2 = interner.intern("one");
    assert!(a == a2);
    assert!(a != b);
    assert_eq!(interner.get_str(a), Some("one"));
    assert_eq!(interner.get_str(b), Some("two"));
}

#[test]
fn u64_repr_interner() {
    let mut interner: Interner<u64> = Interner::with_istr_repr();
    let a = interner.intern("one");
    assert_eq!(interner.get_str(a), Some("one"));
    assert_eq!(a.to_index(), 0);
}

#[test]
fn usize_repr_interner() {
    let mut interner: Interner<usize> = Interner::with_istr_repr();
    let a = interner.intern("one");
    let b = interner.intern("two");
    assert_eq!(a.to_index(), 0);
    assert_eq!(b.to_index(), 1);
}

#[test]
fn nz_u32_repr_interner() {
    let mut interner: Interner<NzU32> = Interner::with_istr_repr();
    let a = interner.intern("one");
    let b = interner.intern("two");
    assert!(a == interner.intern("one"));
    assert!(a != b);
    assert_eq!(interner.get_str(a), Some("one"));
    assert_eq!(a.to_index(), 0);
    assert_eq!(b.to_index(), 1);
}

#[test]
fn nz_u64_repr_niche() {
    assert_eq!(
        std::mem::size_of::<Option<Istr<NzU64>>>(),
        std::mem::size_of::<Istr<NzU64>>(),
    );
    assert_eq!(std::mem::size_of::<Istr<NzU64>>(), std::mem::size_of::<u64>());
}

#[test]
fn repr_exhaustion_boundaries() {
    // the plain 32-bit representation accepts u32::MAX as an index ...
    assert!(Istr::<u32>::from_index(u32::MAX as usize).is_some());
    assert!(Istr::<u32>::from_index(u32::MAX as usize).unwrap().to_index() == u32::MAX as usize);
    // ... its non-zero sibling reserves the zero pattern and stops one
    // slot earlier, still resolving everything below the boundary
    assert!(Istr::<NzU32>::from_index((u32::MAX - 1) as usize).is_some());
    assert!(Istr::<NzU32>::from_index(u32::MAX as usize).is_none());
}

#[test]
fn generic_from_index_round_trip() {
    let id = Istr::<u64>::from_index(7).unwrap();
    assert_eq!(id.to_index(), 7);
    let id = Istr::<usize>::from_index(9).unwrap();
    assert_eq!(id.to_index(), 9);
    let id = Istr::<u32>::from_index(11).unwrap();
    assert_eq!(id.to_index(), 11);
}

#[test]
fn generic_get_interned() {
    let mut interner: Interner<u32> = Interner::with_istr_repr();
    assert!(interner.get_interned("pi").is_none());
    let pi = interner.intern("pi");
    assert!(interner.get_interned("pi").unwrap() == pi);
    assert!(interner.get_interned("tau").is_none());
}

#[test]
fn generic_try_intern() {
    let mut interner: Interner<u64> = Interner::with_istr_repr();
    let a = interner.try_intern("alpha").unwrap();
    let b = interner.try_intern("alpha").unwrap();
    assert!(a == b);
    assert_eq!(interner.get_str(a), Some("alpha"));
}

#[test]
fn generic_index_by() {
    let mut interner: Interner<usize> = Interner::with_istr_repr();
    let id = interner.intern("delta");
    assert_eq!(interner.index_by(id), "delta");
}

#[test]
fn default_interner_is_empty() {
    let interner: Interner = Interner::default();
    assert!(interner.get_interned("anything").is_none());
}
