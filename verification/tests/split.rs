use range_partition::Split;
use std::ops::Range;

const A: Range<usize> = 0..5;
const B: Range<usize> = 4..10;
const C: Range<usize> = 6..8;

#[test]
fn a_le_b() {
    assert_eq!(A.split(&B), (Some(0..4), Some(4..5), None))
}

#[test]
fn b_ge_a() {
    assert_eq!(B.split(&A), (None, Some(4..5), Some(5..10)))
}

#[test]
fn a_lt_c() {
    assert_eq!(A.split(&C), (Some(0..5), None, None))
}

#[test]
fn a_eq_a() {
    assert_eq!(A.split(&A), (None, Some(0..5), None))
}

#[test]
fn b_contains_c() {
    assert_eq!(B.split(&C), (Some(4..6), Some(6..8), Some(8..10)))
}

#[test]
fn c_within_b() {
    assert_eq!(C.split(&B), (None, Some(6..8), None))
}

#[test]
fn c_gt_a() {
    assert_eq!(C.split(&A), (None, None, Some(6..8)))
}

#[test]
fn three_parts_of_a_wider_range() {
    let foo: Range<usize> = 0..10;
    let bar: Range<usize> = 3..6;
    assert_eq!(foo.split(&bar), (Some(0..3), Some(3..6), Some(6..10)));
}

#[test]
fn touching_below_shares_nothing() {
    let a: Range<u32> = 0..4;
    let b: Range<u32> = 4..9;
    assert_eq!(a.split(&b), (Some(0..4), None, None));
}

#[test]
fn touching_above_shares_nothing() {
    let a: Range<u32> = 4..9;
    let b: Range<u32> = 0..4;
    assert_eq!(a.split(&b), (None, None, Some(4..9)));
}

#[test]
fn same_start_longer_self() {
    let a: Range<u8> = 2..9;
    let b: Range<u8> = 2..5;
    assert_eq!(a.split(&b), (None, Some(2..5), Some(5..9)));
}

#[test]
fn same_start_shorter_self() {
    let a: Range<u8> = 2..5;
    let b: Range<u8> = 2..9;
    assert_eq!(a.split(&b), (None, Some(2..5), None));
}

#[test]
fn same_end_earlier_self() {
    let a: Range<u8> = 1..9;
    let b: Range<u8> = 4..9;
    assert_eq!(a.split(&b), (Some(1..4), Some(4..9), None));
}

#[test]
fn same_end_later_self() {
    let a: Range<u8> = 4..9;
    let b: Range<u8> = 1..9;
    assert_eq!(a.split(&b), (None, Some(4..9), None));
}

#[test]
fn negative_endpoints() {
    let a: Range<i32> = -10..3;
    let b: Range<i32> = -4..-1;
    assert_eq!(a.split(&b), (Some(-10..-4), Some(-4..-1), Some(-1..3)));
    assert_eq!(b.split(&a), (None, Some(-4..-1), None));
}

#[test]
fn extreme_endpoints() {
    let a: Range<u64> = 0..u64::MAX;
    let b: Range<u64> = 1..u64::MAX - 1;
    assert_eq!(
        a.split(&b),
        (Some(0..1), Some(1..u64::MAX - 1), Some(u64::MAX - 1..u64::MAX))
    );
}

#[test]
fn characters_as_endpoints() {
    let a: Range<char> = 'a'..'k';
    let b: Range<char> = 'f'..'z';
    assert_eq!(a.split(&b), (Some('a'..'f'), Some('f'..'k'), None));
    assert_eq!(b.split(&a), (None, Some('f'..'k'), Some('k'..'z')));
}

#[test]
fn pairs_as_endpoints() {
    let a: Range<(u8, u8)> = (0, 0)..(2, 0);
    let b: Range<(u8, u8)> = (1, 5)..(1, 9);
    assert_eq!(
        a.split(&b),
        (Some((0, 0)..(1, 5)), Some((1, 5)..(1, 9)), Some((1, 9)..(2, 0)))
    );
}

#[test]
fn empty_divisor_inside_self() {
    let a: Range<usize> = 0..10;
    let b: Range<usize> = 5..5;
    assert_eq!(a.split(&b), (Some(0..5), Some(5..5), Some(5..10)));
}

#[test]
fn empty_self_inside_divisor() {
    let a: Range<usize> = 2..2;
    let b: Range<usize> = 0..5;
    assert_eq!(a.split(&b), (None, Some(2..2), None));
}

#[test]
fn empty_self_below_divisor() {
    let a: Range<usize> = 0..0;
    let b: Range<usize> = 1..2;
    assert_eq!(a.split(&b), (Some(0..0), None, None));
}

#[test]
fn empty_self_at_end_of_divisor() {
    let a: Range<usize> = 5..5;
    let b: Range<usize> = 0..5;
    assert_eq!(a.split(&b), (None, None, Some(5..5)));
}

#[test]
fn empty_self_at_start_of_divisor() {
    let a: Range<usize> = 5..5;
    let b: Range<usize> = 5..8;
    assert_eq!(a.split(&b), (None, Some(5..5), None));
}

#[test]
fn inputs_are_left_as_they_were() {
    let a: Range<usize> = 4..10;
    let b: Range<usize> = 6..8;
    let first = a.split(&b);
    let second = a.split(&b);
    assert_eq!(first, second);
    assert_eq!(a, 4..10);
    assert_eq!(b, 6..8);
}

#[test]
fn divisor_that_ends_before_it_starts_is_not_refused() {
    let a: Range<usize> = 0..10;
    let b: Range<usize> = Range { start: 7, end: 3 };
    assert_eq!(
        a.split(&b),
        (
            Some(0..7),
            Some(Range { start: 7, end: 3 }),
            Some(3..10)
        )
    );
}

#[test]
fn self_that_ends_before_it_starts_has_no_points_in_its_parts() {
    let a: Range<usize> = Range { start: 5, end: 1 };
    let b: Range<usize> = 3..7;
    assert_eq!(a.split(&b), (None, Some(Range { start: 5, end: 1 }), None));
}
