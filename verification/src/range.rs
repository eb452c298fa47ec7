//! Half-open intervals over partially ordered values.
use vstd::prelude::*;

use core::cmp::Ordering;

use vstd::std_specs::cmp::PartialOrdSpec;

use crate::error::ErrorKind;

verus! {

/// A half-open interval: `low` inclusive, `high` exclusive.
#[derive(Debug, Clone, Copy)]
pub struct Range<T> {
    /// Inclusive lower bound.
    pub low: T,

    /// Exclusive upper bound.
    pub high: T,
}

impl<T: PartialOrd> Range<T> {
    /// Makes a range, after checking that `low` compares strictly below
    /// `high`.
    ///
    /// # Errors
    ///
    /// If `low.partial_cmp(&high)` is anything but `Some(Ordering::Less)`,
    /// an `ErrorKind::InvalidInput` error will be returned.
    pub fn new(low: T, high: T) -> (r: Result<Self, ErrorKind>)
        ensures
            T::obeys_partial_cmp_spec() ==> match r {
                Ok(rg) => rg.low == low && rg.high == high && low.partial_cmp_spec(&high) == Some(
                    Ordering::Less,
                ),
                Err(e) => e == ErrorKind::InvalidInput && low.partial_cmp_spec(&high) != Some(
                    Ordering::Less,
                ),
            },
    {
        match low.partial_cmp(&high) {
            Some(Ordering::Less) => Ok(Self { low, high }),
            _ => Err(ErrorKind::InvalidInput),
        }
    }

    /// Whether `x` lies in the interval: at or above the lower bound and
    /// strictly below the upper one.
    pub fn contains(&self, x: &T) -> (r: bool)
        ensures
            T::obeys_partial_cmp_spec() ==> r == {
                &&& (self.low.partial_cmp_spec(x) == Some(Ordering::Less)
                    || self.low.partial_cmp_spec(x) == Some(Ordering::Equal))
                &&& self.high.partial_cmp_spec(x) == Some(Ordering::Greater)
            },
    {
        match (self.low.partial_cmp(x), self.high.partial_cmp(x)) {
            (Some(Ordering::Equal), Some(Ordering::Greater)) => true,
            (Some(Ordering::Less), Some(Ordering::Greater)) => true,
            _ => false,
        }
    }
}

} // verus!
