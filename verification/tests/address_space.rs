use vm_core::utils::address_space::AddressSpace;
use vm_core::utils::address_space::AddressSpaceError;
use vm_core::utils::address_space::Range;

#[test]
fn insert_and_lookup() {
    let mut space = AddressSpace::<&str>::default();
    assert!(space.is_empty());
    assert_eq!(space.try_insert(Range { start: 0x1000, len: 0x100 }, "a"), Ok(()));
    assert_eq!(space.try_insert(Range { start: 0x2000, len: 0x10 }, "b"), Ok(()));
    assert_eq!(space.len(), 2);
    assert!(!space.is_empty());

    let (range, value) = space.try_get_value_by_key(0x1000).unwrap();
    assert_eq!((range.start, range.len, *value), (0x1000, 0x100, "a"));
    let (range, value) = space.try_get_value_by_key(0x10ff).unwrap();
    assert_eq!((range.start, range.len, *value), (0x1000, 0x100, "a"));
    assert!(space.try_get_value_by_key(0x1100).is_none());
    assert!(space.try_get_value_by_key(0xfff).is_none());
    let (range, value) = space.try_get_value_by_key(0x200f).unwrap();
    assert_eq!((range.start, range.len, *value), (0x2000, 0x10, "b"));
    assert!(space.try_get_value_by_key(0x2010).is_none());
}

#[test]
fn refused_insertions() {
    let mut space = AddressSpace::<u32>::default();
    assert_eq!(space.try_insert(Range { start: 0x100, len: 0 }, 1), Err(AddressSpaceError::InvalidLen));
    assert_eq!(space.try_insert(Range { start: 0x100, len: 0x100 }, 1), Ok(()));
    // meets the start of the range
    assert_eq!(
        space.try_insert(Range { start: 0x80, len: 0x81 }, 2),
        Err(AddressSpaceError::RangeOverlap(0x80, 0x81))
    );
    // inside the range
    assert_eq!(
        space.try_insert(Range { start: 0x180, len: 1 }, 2),
        Err(AddressSpaceError::RangeOverlap(0x180, 1))
    );
    // same start
    assert_eq!(
        space.try_insert(Range { start: 0x100, len: 1 }, 2),
        Err(AddressSpaceError::RangeOverlap(0x100, 1))
    );
    // touching on either side is fine
    assert_eq!(space.try_insert(Range { start: 0x80, len: 0x80 }, 3), Ok(()));
    assert_eq!(space.try_insert(Range { start: 0x200, len: 0x80 }, 4), Ok(()));
    assert_eq!(space.len(), 3);
}

#[test]
fn is_overlap_cases() {
    let mut space = AddressSpace::<()>::default();
    assert!(!space.is_overlap(0, 10));
    space.try_insert(Range { start: 10, len: 10 }, ()).unwrap();
    assert!(!space.is_overlap(0, 10));
    assert!(space.is_overlap(0, 11));
    assert!(space.is_overlap(19, 1));
    assert!(!space.is_overlap(20, 5));
    assert!(space.is_overlap(10, 0));
    assert!(space.is_overlap(15, 0));
    assert!(!space.is_overlap(5, 0));
}

#[test]
fn iter_in_order() {
    let mut space = AddressSpace::<char>::default();
    space.try_insert(Range { start: 300, len: 1 }, 'c').unwrap();
    space.try_insert(Range { start: 100, len: 1 }, 'a').unwrap();
    space.try_insert(Range { start: 200, len: 1 }, 'b').unwrap();
    let got: Vec<(u64, usize, char)> = space.iter().map(|(s, (l, v))| (*s, *l, *v)).collect();
    assert_eq!(got, vec![(100, 1, 'a'), (200, 1, 'b'), (300, 1, 'c')]);
}

#[test]
fn insertions_count() {
    let mut space: AddressSpace<u8> = AddressSpace::default();
    assert_eq!(space.len(), 0);
    assert!(space.is_empty());
    assert_eq!(space.try_insert(Range { start: 0x10, len: 0x10 }, 1), Ok(()));
    assert_eq!(space.len(), 1);
    assert!(space.try_insert(Range { start: 0x18, len: 4 }, 2).is_err());
    assert_eq!(space.len(), 1);
    assert_eq!(space.try_insert(Range { start: 0x20, len: 1 }, 3), Ok(()));
    assert_eq!(space.len(), 2);
}
