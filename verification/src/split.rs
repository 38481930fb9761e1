//! The `Split` trait, its implementation for `Range`, and the exact
//! description of the three parts.

use crate::interval::span;
use crate::order::{lemma_total_order, lower, lt, total_order};
use core::ops::Range;
use vstd::prelude::*;

verus! {

/// A value that can be split by another of its kind.
///
/// Named `split` and not `partition`, which ranges already have as an
/// iterator method.
pub trait Split {
    /// Split `self` by `other` into up to three parts:
    /// * `.0`: what of `self` lies below `other`
    /// * `.1`: what `self` and `other` share
    /// * `.2`: what of `self` lies above `other`
    fn split(&self, other: &Self) -> (Option<Self>, Option<Self>, Option<Self>) where Self: Sized;
}

/// The part of `a` below `b`: there exactly when `a` starts before `b` does,
/// and then it runs from the start of `a` to where `a` ends or `b` starts,
/// whichever comes first.
pub open spec fn below_part<T: Ord>(a: Range<T>, b: Range<T>) -> Option<Range<T>> {
    if lt(a.start, b.start) {
        Some(span(a.start, lower(a.end, b.start)))
    } else {
        None
    }
}

/// The part that `a` shares with `b`.
///
/// Where `a` starts before `b`, it starts with `b` and ends with `a` if `a`
/// ends inside `b`, it is `b` itself if `a` ends after `b`, and there is none
/// if `a` ends where `b` starts or earlier. Where `a` starts inside `b`, it
/// runs from the start of `a` to the earlier of the two ends. Where `a`
/// starts at or after the end of `b`, there is none.
pub open spec fn shared_part<T: Ord>(a: Range<T>, b: Range<T>) -> Option<Range<T>> {
    if lt(a.start, b.start) {
        if lt(b.end, a.end) {
            Some(b)
        } else if lt(b.start, a.end) {
            Some(span(b.start, a.end))
        } else {
            None
        }
    } else if lt(a.start, b.end) {
        Some(span(a.start, lower(a.end, b.end)))
    } else {
        None
    }
}

/// The part of `a` above `b`: all of `a` where `a` starts at or after the end
/// of `b` and not before its start; otherwise what of `a` lies past the end
/// of `b`, if `a` ends after `b` does.
pub open spec fn above_part<T: Ord>(a: Range<T>, b: Range<T>) -> Option<Range<T>> {
    if lt(a.start, b.start) || lt(a.start, b.end) {
        if lt(b.end, a.end) {
            Some(span(b.end, a.end))
        } else {
            None
        }
    } else {
        Some(a)
    }
}

/// What `a.split(&b)` returns: the parts of `a` below, within and above `b`.
pub open spec fn split_spec<T: Ord>(a: Range<T>, b: Range<T>) -> (
    Option<Range<T>>,
    Option<Range<T>>,
    Option<Range<T>>,
) {
    (below_part(a, b), shared_part(a, b), above_part(a, b))
}

impl<T: Ord + Copy> Split for Range<T> {
    /// Over a totally ordered `T` the three parts are exactly those that
    /// `split_spec` describes, whatever the two ranges are: a range that
    /// ends before it starts is taken as it comes, not refused.
    fn split(&self, other: &Self) -> (parts: (Option<Self>, Option<Self>, Option<Self>))
        ensures
            total_order::<T>() ==> parts == split_spec(*self, *other),
    {
        proof {
            if total_order::<T>() {
                lemma_total_order::<T>();
            }
        }
        let mut below = None;
        let mut inter = None;
        let mut above = None;
        if self.start < other.start {
            below = Some(self.start..self.end.min(other.start));
            if other.start < self.end && self.end <= other.end {
                inter = Some(other.start..self.end);
            }
            if other.end < self.end {
                inter = Some(other.start..other.end);
                above = Some(other.end..self.end);
            }
        } else if other.contains(&self.start) {
            inter = Some(self.start..self.end.min(other.end));
            if other.end < self.end {
                above = Some(other.end..self.end);
            }
        } else {
            above = Some(self.start..self.end);
        }
        (below, inter, above)
    }
}

} // verus!
