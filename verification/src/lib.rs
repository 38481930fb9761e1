//! Splitting one half-open range by another into the parts that lie below,
//! inside and above it.
//!
//! ```
//! use range_partition::Split;
//!
//! let foo = 0..10;
//! let bar = 3..6;
//! assert_eq!(foo.split(&bar), (Some(0..3), Some(3..6), Some(6..10)));
//! ```
//!
//! * `order` names the order on endpoints that the contracts speak of.
//! * `interval` gives a range its meaning: the set of points it holds.
//! * `split` holds the `Split` trait, its implementation for `Range` and the
//!   exact description of what it returns.
//! * `laws` proves what holds of every split.

pub mod interval;
pub mod laws;
pub mod order;
pub mod split;

pub use split::Split;
