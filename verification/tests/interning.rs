use bayou_interner::intern::{Interner, Istr};

#[test]
fn intern_test_interner() {
    let mut interner = Interner::new();

    for n in 0u32..100 {
        let s = n.to_string();

        let a = interner.intern(&s);
        let b = interner.intern(&s);

        assert!(a == b);
        assert_eq!(interner.get_str(a), Some(s.as_str()));
    }
}

#[test]
fn hello_world_scenario() {
    let mut interner = Interner::new();

    let hello = interner.intern("hello");
    let hello2 = interner.intern("hello");
    let world = interner.intern("world");

    assert!(hello == hello2);
    assert!(hello != world);
    assert!(hello2 != world);

    assert_eq!(interner.get_str(hello), Some("hello"));
    assert_eq!(interner.get_str(hello2), Some("hello"));
    assert_eq!(interner.get_str(world), Some("world"));
}

#[test]
fn hundred_strings_then_first_again() {
    let mut interner = Interner::new();

    let mut ids = Vec::new();
    for n in 0u32..100 {
        ids.push(interner.intern(&n.to_string()));
    }

    let zero_again = interner.intern("0");
    assert!(zero_again == ids[0]);
    assert_eq!(zero_again.to_index(), 0);
}

#[test]
fn round_trip() {
    let mut interner = Interner::new();
    let id = interner.intern("some string");
    assert_eq!(interner.get_str(id), Some("some string"));
}

#[test]
fn absent_before_insertion() {
    let mut interner = Interner::new();
    assert!(interner.get_interned("hello").is_none());

    let hello = interner.intern("hello");
    let looked_up = interner.get_interned("hello").unwrap();
    assert!(looked_up == hello);
    assert!(interner.get_interned("world").is_none());
}

#[test]
fn monotonic_slot_growth() {
    let mut interner = Interner::new();
    for n in 0u32..10 {
        let id = interner.intern(&format!("key-{}", n));
        assert_eq!(id.to_index(), n as usize);
    }
    // re-interning does not mint new slots
    let id = interner.intern("key-3");
    assert_eq!(id.to_index(), 3);
}

#[test]
fn try_intern_matches_intern() {
    let mut interner = Interner::new();
    let a = interner.try_intern("alpha").unwrap();
    let b = interner.intern("alpha");
    assert!(a == b);
}

#[test]
fn index_by_resolves() {
    let mut interner = Interner::new();
    let id = interner.intern("gamma");
    assert_eq!(interner.index_by(id), "gamma");
}

#[test]
fn empty_string_interns() {
    let mut interner = Interner::new();
    let empty = interner.intern("");
    let other = interner.intern("x");
    assert!(empty != other);
    assert_eq!(interner.get_str(empty), Some(""));
    assert!(empty == interner.intern(""));
}

#[test]
fn foreign_id_out_of_range_is_none() {
    let mut minter = Interner::new();
    for n in 0u32..5 {
        minter.intern(&n.to_string());
    }
    let foreign = minter.intern("5");

    let other = Interner::new();
    assert_eq!(other.get_str(foreign), None);
}

#[test]
fn niche_optimization() {
    assert_eq!(
        std::mem::size_of::<Option<Istr>>(),
        std::mem::size_of::<Istr>(),
    );
    assert_eq!(std::mem::size_of::<Istr>(), std::mem::size_of::<u32>());
}

#[test]
fn from_index_exhaustion_boundary() {
    // the last representable slot
    let last = Istr::from_index((u32::MAX - 1) as usize).unwrap();
    assert_eq!(last.to_index(), (u32::MAX - 1) as usize);
    // one past it: the identifier space is exhausted
    assert!(Istr::from_index(u32::MAX as usize).is_none());
}

#[test]
fn from_index_to_index_round_trip() {
    for index in [0usize, 1, 2, 41, 1_000_000] {
        let id = Istr::from_index(index).unwrap();
        assert_eq!(id.to_index(), index);
    }
}
