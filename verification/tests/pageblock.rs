use pageblock::{PageBlock, PAGESIZE};

#[test]
fn basic_test() {
    let mut s = PageBlock::new();

    for x in s.slice().iter() {
        assert!(*x == 0);
    }
    for i in 0..PAGESIZE {
        s.write(i, i as u8);
    }
    let sl = s.slice();
    for i in 0..PAGESIZE {
        assert!(sl[i] == i as u8);
    }
}

#[test]
fn fresh_page_is_all_zero() {
    let b = PageBlock::new();
    let view = b.slice();
    assert_eq!(view.len(), PAGESIZE);
    for i in 0..PAGESIZE {
        assert_eq!(view[i], 0);
    }
}

#[test]
fn write_read_round_trip_single_offset() {
    let mut b = PageBlock::new();
    b.write(7, 0xAB);
    assert_eq!(b.read(7), 0xAB);
    assert_eq!(b.read(6), 0);
    assert_eq!(b.read(8), 0);
    b.write(0, 1);
    b.write(PAGESIZE - 1, 255);
    assert_eq!(b.read(0), 1);
    assert_eq!(b.read(PAGESIZE - 1), 255);
    assert_eq!(b.read(7), 0xAB);
}

#[test]
fn round_trip_through_mutable_view() {
    let mut b = PageBlock::new();
    let view = b.slice_mut();
    assert_eq!(view.len(), PAGESIZE);
    view[42] = 0x5A;
    assert_eq!(b.read(42), 0x5A);
    assert_eq!(b.slice()[42], 0x5A);
}

#[test]
fn address_is_never_null() {
    let mut b = PageBlock::new();
    let a = b.as_ptr();
    assert_ne!(a, 0);
    assert_eq!(b.as_ptr(), a);
    assert_eq!(b.as_mut_ptr(), a);
    b.write(0, 9);
    assert_eq!(b.as_ptr(), a);
}

#[test]
fn acquire_release_cycles_leave_no_residue() {
    for round in 0..512 {
        let mut b = PageBlock::new();
        assert_eq!(b.read(0), 0);
        b.write(0, round as u8);
        assert_eq!(b.read(0), round as u8);
        b.release();
    }
}

#[test]
fn two_instances_are_disjoint() {
    let mut a = PageBlock::new();
    let b = PageBlock::new();
    assert_ne!(a.as_ptr(), 0);
    assert_ne!(b.as_ptr(), 0);
    // Writing through one handle never shows through the other.
    a.write(0, 0xFF);
    assert_eq!(b.read(0), 0);
    assert_eq!(a.read(0), 0xFF);
    // No address-stability assumption: the two addresses may or may not
    // coincide across separate acquisitions, so nothing is asserted of them
    // beyond being non-null.
}

#[test]
fn scenario_full_lifecycle() {
    let mut b = PageBlock::new();
    let view = b.slice();
    assert_eq!(view.len(), PAGESIZE);
    assert!(view.iter().all(|x| *x == 0));
    for i in 0..PAGESIZE {
        b.write(i, (i % 256) as u8);
    }
    for i in 0..PAGESIZE {
        assert_eq!(b.read(i), (i % 256) as u8);
    }
    b.release();
    let again = PageBlock::new();
    let view = again.slice();
    assert_eq!(view.len(), PAGESIZE);
    assert!(view.iter().all(|x| *x == 0));
}
