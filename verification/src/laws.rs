//! What holds of every split.

use crate::interval::{
    part_points, points, precedes, proper, proper_part, span, spans, well_formed,
};
use crate::order::{
    exact_order, le, lemma_exact_order, lemma_total_order, lower, lt, total_order, upper,
};
use crate::split::split_spec;
use core::ops::Range;
use vstd::prelude::*;

verus! {

/// What each part of `a` split by a well-formed `b` holds: the part below,
/// the points of `a` that come before the start of `b`; the shared part, the
/// points of `a` that are points of `b`; the part above, the points of `a`
/// at or after the end of `b`.
pub proof fn lemma_parts_by_position<T: Ord>(a: Range<T>, b: Range<T>)
    requires
        total_order::<T>(),
        well_formed(b),
    ensures
        part_points(split_spec(a, b).0) == points(a).filter(|x: T| lt(x, b.start)),
        part_points(split_spec(a, b).1) == points(a).intersect(points(b)),
        part_points(split_spec(a, b).2) == points(a).filter(|x: T| le(b.end, x)),
{
    lemma_total_order::<T>();
}

/// The parts of `a` split by a well-formed `b` hold, between them, exactly
/// the points of `a`; no point lies in two of them; and they stand in order:
/// every point of the part below comes before every point of the shared
/// part, and every point of either before every point of the part above.
pub proof fn lemma_split_partitions<T: Ord>(a: Range<T>, b: Range<T>)
    requires
        total_order::<T>(),
        well_formed(b),
    ensures
        part_points(split_spec(a, b).0).union(part_points(split_spec(a, b).1)).union(
            part_points(split_spec(a, b).2),
        ) == points(a),
        part_points(split_spec(a, b).0).disjoint(part_points(split_spec(a, b).1)),
        part_points(split_spec(a, b).0).disjoint(part_points(split_spec(a, b).2)),
        part_points(split_spec(a, b).1).disjoint(part_points(split_spec(a, b).2)),
        precedes(split_spec(a, b).0, split_spec(a, b).1),
        precedes(split_spec(a, b).0, split_spec(a, b).2),
        precedes(split_spec(a, b).1, split_spec(a, b).2),
{
    lemma_total_order::<T>();
}

/// Split by a well-formed `b`, `a` always has at least one part, and the
/// parts that are there run, in order, from the start of `a` to its end, each
/// starting where the one before it ended. A part below and a part above
/// never come without a shared part between them.
pub proof fn lemma_parts_adjoin<T: Ord>(a: Range<T>, b: Range<T>)
    requires
        total_order::<T>(),
        well_formed(b),
    ensures
        spans(split_spec(a, b), a),
        split_spec(a, b).0.is_some() && split_spec(a, b).2.is_some() ==> split_spec(
            a,
            b,
        ).1.is_some(),
{
    lemma_total_order::<T>();
}

/// Where both splits have a shared part, the part that `a` shares with `b`
/// is the part that `b` shares with `a`.
pub proof fn lemma_shared_part_symmetric<T: Ord>(a: Range<T>, b: Range<T>)
    requires
        exact_order::<T>(),
        split_spec(a, b).1.is_some(),
        split_spec(b, a).1.is_some(),
    ensures
        split_spec(a, b).1 == split_spec(b, a).1,
{
    lemma_total_order::<T>();
    lemma_exact_order::<T>();
}

/// Two well-formed ranges share the same points whichever of them is split
/// by the other, also where one split has a shared part and the other none.
pub proof fn lemma_shared_points_symmetric<T: Ord>(a: Range<T>, b: Range<T>)
    requires
        total_order::<T>(),
        well_formed(a),
        well_formed(b),
    ensures
        part_points(split_spec(a, b).1) == part_points(split_spec(b, a).1),
{
    lemma_parts_by_position(a, b);
    lemma_parts_by_position(b, a);
}

/// A proper range split by itself is its own shared part, with nothing below
/// and nothing above.
pub proof fn lemma_split_by_self<T: Ord>(a: Range<T>)
    requires
        total_order::<T>(),
        proper(a),
    ensures
        split_spec(a, a) == (None::<Range<T>>, Some(a), None::<Range<T>>),
{
    lemma_total_order::<T>();
}

/// A proper range that ends where a well-formed `b` starts, or earlier, lies
/// wholly below it.
pub proof fn lemma_split_before<T: Ord>(a: Range<T>, b: Range<T>)
    requires
        total_order::<T>(),
        proper(a),
        well_formed(b),
        le(a.end, b.start),
    ensures
        split_spec(a, b) == (Some(a), None::<Range<T>>, None::<Range<T>>),
{
    lemma_total_order::<T>();
}

/// A range that starts where a well-formed `b` ends, or later, lies wholly
/// above it.
pub proof fn lemma_split_after<T: Ord>(a: Range<T>, b: Range<T>)
    requires
        total_order::<T>(),
        well_formed(b),
        le(b.end, a.start),
    ensures
        split_spec(a, b) == (None::<Range<T>>, None::<Range<T>>, Some(a)),
{
    lemma_total_order::<T>();
}

/// A proper range that `b` contains is its own shared part, with nothing
/// below and nothing above.
pub proof fn lemma_split_contained<T: Ord>(a: Range<T>, b: Range<T>)
    requires
        total_order::<T>(),
        proper(a),
        le(b.start, a.start),
        le(a.end, b.end),
    ensures
        split_spec(a, b) == (None::<Range<T>>, Some(a), None::<Range<T>>),
{
    lemma_total_order::<T>();
}

/// The parts of a well-formed range split by a well-formed range are
/// well-formed.
pub proof fn lemma_well_formed_parts<T: Ord>(a: Range<T>, b: Range<T>)
    requires
        total_order::<T>(),
        well_formed(a),
        well_formed(b),
    ensures
        split_spec(a, b).0 matches Some(r) ==> well_formed(r),
        split_spec(a, b).1 matches Some(r) ==> well_formed(r),
        split_spec(a, b).2 matches Some(r) ==> well_formed(r),
{
    lemma_total_order::<T>();
}

/// Split by a proper range, a proper range has only proper parts, and they
/// are what is proper among three ranges: for the part below, from the start
/// of `a` to the earlier of its end and the start of `b`; for the shared
/// part, from the later start to the earlier end; for the part above, from
/// the later of the start of `a` and the end of `b` to the end of `a`.
pub proof fn lemma_proper_parts<T: Ord>(a: Range<T>, b: Range<T>)
    requires
        total_order::<T>(),
        proper(a),
        proper(b),
    ensures
        split_spec(a, b).0 == proper_part(span(a.start, lower(a.end, b.start))),
        split_spec(a, b).1 == proper_part(span(upper(a.start, b.start), lower(a.end, b.end))),
        split_spec(a, b).2 == proper_part(span(upper(a.start, b.end), a.end)),
{
    lemma_total_order::<T>();
}

} // verus!
