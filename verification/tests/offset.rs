use extender::offset::FieldOffset;
use extender::offset::Opaque;

#[test]
fn from_ptrs_computes_the_distance() {
    let f = FieldOffset::<u64, u32>::from_ptrs(1000, 64, 1024, 8);
    assert_eq!(f.offset(), 24);
}

#[test]
fn from_ptrs_then_to_outer_recovers_the_outer_address() {
    let f = FieldOffset::<u64, u32>::from_ptrs(1000, 64, 1024, 8);
    assert_eq!(f.to_outer(1024), 1000);
    let tight = FieldOffset::<u64, u32>::from_ptrs(4096, 12, 4104, 4);
    assert_eq!(tight.to_outer(4104), 4096);
}

#[test]
fn composition_matches_two_navigation_steps() {
    // outer at 2000, middle 16 bytes in, inner 8 bytes into the middle
    let a = FieldOffset::<u64, u32>::from_offset(16);
    let b = FieldOffset::<u32, u16>::from_offset(8);
    let inner_addr = 2000 + 16 + 8;
    let two_steps = a.to_outer(b.to_outer(inner_addr));
    let one_step = a.compose(b).to_outer(inner_addr);
    assert_eq!(one_step, two_steps);
    assert_eq!(one_step, 2000);
    assert_eq!(a.compose(b).offset(), 24);
}

#[test]
fn zero_distance_is_refused() {
    assert!(FieldOffset::<u64, u64>::try_from_offset(0).is_none());
    // inner at the very start of outer: distance zero
    assert!(FieldOffset::<u64, u64>::try_from_ptrs(1000, 8, 1000, 8).is_none());
}

#[test]
fn unsignable_distance_is_refused() {
    // a distance too large to carry a sign reads as negative
    let huge = (isize::MAX as usize) + 1;
    assert!(FieldOffset::<u64, u8>::try_from_offset(huge).is_none());
    assert!(FieldOffset::<u64, u8>::try_from_offset(isize::MAX as usize).is_some());
}

#[test]
fn inner_range_past_the_outer_range_is_refused() {
    // inner starts inside but its last byte lies past the outer's end
    assert!(FieldOffset::<u64, u64>::try_from_ptrs(1000, 12, 1008, 8).is_none());
    // inner fits exactly against the outer's end
    let f = FieldOffset::<u64, u32>::try_from_ptrs(1000, 12, 1008, 4);
    assert_eq!(f.unwrap().offset(), 8);
}

#[test]
fn accepted_inputs_round_trip_through_the_checked_forms() {
    let f = FieldOffset::<Opaque, u32>::try_from_offset(24).unwrap();
    assert_eq!(f.offset(), 24);
    let g = FieldOffset::<u64, u32>::try_from_ptrs(1000, 64, 1024, 8).unwrap();
    assert_eq!(g.offset(), 24);
}

#[test]
fn a_cloned_offset_keeps_its_distance() {
    let f = FieldOffset::<u64, u32>::from_offset(24);
    let g = f.clone();
    assert_eq!(g.offset(), 24);
    assert_eq!(g.to_outer(1024), f.to_outer(1024));
}

#[test]
fn shift_moves_an_address_both_ways() {
    assert_eq!(FieldOffset::<u64, u32>::shift(100, 8), 108);
    assert_eq!(FieldOffset::<u64, u32>::shift(100, -8), 92);
    assert_eq!(FieldOffset::<u64, u32>::shift(8, -8), 0);
}
