use wiggle::Region;

#[test]
fn region_nonoverlapping() {
    let r1 = Region::new(0, 10);
    let r2 = Region::new(10, 10);
    assert!(!r1.overlaps(r2));

    let r1 = Region::new(10, 10);
    let r2 = Region::new(0, 10);
    assert!(!r1.overlaps(r2));
}

#[test]
fn region_overlapping() {
    let r1 = Region::new(0, 10);
    let r2 = Region::new(9, 10);
    assert!(r1.overlaps(r2));

    let r1 = Region::new(0, 10);
    let r2 = Region::new(2, 5);
    assert!(r1.overlaps(r2));

    let r1 = Region::new(9, 10);
    let r2 = Region::new(0, 10);
    assert!(r1.overlaps(r2));

    let r1 = Region::new(2, 5);
    let r2 = Region::new(0, 10);
    assert!(r1.overlaps(r2));
}

#[test]
fn region_new_keeps_fields() {
    let r = Region::new(7, 9);
    assert_eq!(r.start, 7);
    assert_eq!(r.len, 9);
    assert_eq!(r, Region { start: 7, len: 9 });
}

#[test]
fn region_of_one_byte_overlaps_itself() {
    let r = Region::new(0, 1);
    assert!(r.overlaps(r));
    let r = Region::new(u32::MAX, 1);
    assert!(r.overlaps(r));
}

#[test]
fn region_empty_overlaps_nothing() {
    let empty = Region::new(5, 0);
    let around = Region::new(0, 10);
    assert!(!empty.overlaps(around));
    assert!(!around.overlaps(empty));
    assert!(!empty.overlaps(empty));
}

#[test]
fn region_overlap_at_the_top_of_the_address_space() {
    let r1 = Region::new(u32::MAX - 1, u32::MAX);
    let r2 = Region::new(u32::MAX, u32::MAX);
    assert!(r1.overlaps(r2));
    let r3 = Region::new(0, u32::MAX - 1);
    assert!(!r3.overlaps(r1));
    let r4 = Region::new(0, u32::MAX);
    assert!(r4.overlaps(r1));
}

#[test]
fn region_overlap_is_symmetric() {
    let regions = [
        Region::new(0, 0),
        Region::new(0, 4),
        Region::new(3, 2),
        Region::new(4, 4),
        Region::new(8, 1),
        Region::new(u32::MAX, 8),
    ];
    for a in regions.iter() {
        for b in regions.iter() {
            assert_eq!(a.overlaps(*b), b.overlaps(*a));
        }
    }
}
