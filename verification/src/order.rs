//! The order on the endpoints of a range, as the contracts speak of it.

use core::cmp::Ordering;
use vstd::prelude::*;
use vstd::std_specs::cmp::{OrdSpec, PartialOrdSpec};

verus! {

/// `a` comes strictly before `b`.
pub open spec fn lt<T: Ord>(a: T, b: T) -> bool {
    a.cmp_spec(&b) == Ordering::Less
}

/// `a` comes before `b` or ranks equal to it.
pub open spec fn le<T: Ord>(a: T, b: T) -> bool {
    a.cmp_spec(&b) != Ordering::Greater
}

/// The smaller of `a` and `b`; `a` itself where the two rank equal.
pub open spec fn lower<T: Ord>(a: T, b: T) -> T {
    if lt(b, a) {
        b
    } else {
        a
    }
}

/// The larger of `a` and `b`; `a` itself where the two rank equal.
pub open spec fn upper<T: Ord>(a: T, b: T) -> T {
    if lt(a, b) {
        b
    } else {
        a
    }
}

/// The comparisons of `T` compute what their specifications say, and those
/// specifications describe one total order.
pub open spec fn total_order<T: Ord>() -> bool {
    vstd::laws_cmp::obeys_cmp::<T>()
}

/// `T` is totally ordered, and two values that rank equal are the same value.
pub open spec fn exact_order<T: Ord>() -> bool {
    total_order::<T>() && vstd::laws_eq::obeys_concrete_eq::<T>()
}

/// What a total order gives, stated over `lt` and `le`.
pub proof fn lemma_total_order<T: Ord>()
    requires
        total_order::<T>(),
    ensures
        T::obeys_partial_cmp_spec(),
        T::obeys_cmp_spec(),
        forall|a: T, b: T| #[trigger] a.partial_cmp_spec(&b) == Some(a.cmp_spec(&b)),
        forall|a: T, b: T|
            #![trigger a.cmp_spec(&b)]
            a.cmp_spec(&b) == Ordering::Greater <==> lt(b, a),
        forall|a: T| !#[trigger] lt(a, a),
        forall|a: T, b: T| #[trigger] lt(a, b) <==> !le(b, a),
        forall|a: T, b: T| #[trigger] le(a, b) <==> !lt(b, a),
        forall|a: T, b: T| #[trigger] lt(a, b) ==> le(a, b),
        forall|a: T, b: T, c: T| #[trigger] lt(a, b) && #[trigger] lt(b, c) ==> lt(a, c),
        forall|a: T, b: T, c: T| #[trigger] lt(a, b) && #[trigger] le(b, c) ==> lt(a, c),
        forall|a: T, b: T, c: T| #[trigger] le(a, b) && #[trigger] lt(b, c) ==> lt(a, c),
        forall|a: T, b: T, c: T| #[trigger] le(a, b) && #[trigger] le(b, c) ==> le(a, c),
{
    reveal(vstd::laws_cmp::obeys_cmp_partial_ord);
    reveal(vstd::laws_cmp::obeys_cmp_ord);
    reveal(vstd::laws_cmp::obeys_partial_cmp_spec_properties);
    reveal(vstd::laws_eq::obeys_eq_spec_properties);
}

/// In an exact order, two values of which neither comes before the other are
/// one value.
pub proof fn lemma_exact_order<T: Ord>()
    requires
        exact_order::<T>(),
    ensures
        forall|a: T, b: T| #[trigger] le(a, b) && le(b, a) ==> a == b,
{
    reveal(vstd::laws_cmp::obeys_cmp_partial_ord);
    reveal(vstd::laws_cmp::obeys_cmp_ord);
    reveal(vstd::laws_cmp::obeys_partial_cmp_spec_properties);
    reveal(vstd::laws_eq::obeys_concrete_eq);
}

/// The primitive integers are exactly ordered.
pub proof fn lemma_integers_exact_order()
    ensures
        exact_order::<u8>(),
        exact_order::<u16>(),
        exact_order::<u32>(),
        exact_order::<u64>(),
        exact_order::<u128>(),
        exact_order::<usize>(),
        exact_order::<i8>(),
        exact_order::<i16>(),
        exact_order::<i32>(),
        exact_order::<i64>(),
        exact_order::<i128>(),
        exact_order::<isize>(),
{
    broadcast use vstd::laws_cmp::group_laws_cmp;
    broadcast use vstd::laws_eq::group_laws_eq;

}

} // verus!
