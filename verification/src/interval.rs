//! What a half-open range stands for: the points from `start` up to, and
//! without, `end`.

use crate::order::{le, lt};
use core::ops::Range;
use vstd::prelude::*;

verus! {

/// The range from `start` to `end`.
pub open spec fn span<T>(start: T, end: T) -> Range<T> {
    Range { start, end }
}

/// `r` does not end before it starts.
pub open spec fn well_formed<T: Ord>(r: Range<T>) -> bool {
    le(r.start, r.end)
}

/// `r` holds at least one point: it starts strictly before it ends.
pub open spec fn proper<T: Ord>(r: Range<T>) -> bool {
    lt(r.start, r.end)
}

/// `x` is a point of `r`.
pub open spec fn holds<T: Ord>(r: Range<T>, x: T) -> bool {
    le(r.start, x) && lt(x, r.end)
}

/// The points of `r`.
pub open spec fn points<T: Ord>(r: Range<T>) -> Set<T> {
    Set::new(|x: T| holds(r, x))
}

/// The points of a part that may be absent: none where it is.
pub open spec fn part_points<T: Ord>(part: Option<Range<T>>) -> Set<T> {
    match part {
        Some(r) => points(r),
        None => Set::empty(),
    }
}

/// Every point of `low` comes strictly before every point of `high`.
pub open spec fn precedes<T: Ord>(low: Option<Range<T>>, high: Option<Range<T>>) -> bool {
    forall|x: T, y: T|
        #![trigger part_points(low).contains(x), part_points(high).contains(y)]
        part_points(low).contains(x) && part_points(high).contains(y) ==> lt(x, y)
}

/// `r` as a part: there where it is proper, absent where it holds no point.
pub open spec fn proper_part<T: Ord>(r: Range<T>) -> Option<Range<T>> {
    if proper(r) {
        Some(r)
    } else {
        None
    }
}

/// Where the part `next` is there, it starts at `at`; where it is absent,
/// nothing is asked.
pub open spec fn starts_at<T>(next: Option<Range<T>>, at: T) -> bool {
    match next {
        Some(r) => r.start == at,
        None => true,
    }
}

/// The place that a walk has reached which stood at `at` and then went
/// through `part`: the end of `part`, or `at` still where `part` is absent.
pub open spec fn end_after<T>(part: Option<Range<T>>, at: T) -> T {
    match part {
        Some(r) => r.end,
        None => at,
    }
}

/// At least one of the three parts is there, and those that are there run
/// in order from the start of `whole` to its end, each starting where the
/// one before it ended.
pub open spec fn spans<T>(
    parts: (Option<Range<T>>, Option<Range<T>>, Option<Range<T>>),
    whole: Range<T>,
) -> bool {
    let after_first = end_after(parts.0, whole.start);
    let after_second = end_after(parts.1, after_first);
    &&& parts.0.is_some() || parts.1.is_some() || parts.2.is_some()
    &&& starts_at(parts.0, whole.start)
    &&& starts_at(parts.1, after_first)
    &&& starts_at(parts.2, after_second)
    &&& end_after(parts.2, after_second) == whole.end
}

} // verus!
