//! The "close to zero" test that lets a slowing actor come to rest.

use crate::fixed::Fixed;
use crate::geometry::Vector2D;
use vstd::prelude::*;

verus! {

/// Whether the raw value `v` lies strictly between `-precision` and
/// `precision`.
pub open spec fn near_zero(v: int, precision: int) -> bool {
    -precision < v < precision
}

/// Values that can be tested for lying within a margin of zero.
pub trait CloseToZero<T> where T: Ord + PartialOrd {
    /// The margins that the test accepts.
    spec fn margin_ok(precision: T) -> bool;

    /// What the test decides.
    spec fn is_close_to_zero(&self, precision: T) -> bool;

    /// Whether the value lies strictly within `precision` of zero, on every
    /// axis it has.
    fn close_to_zero(&self, precision: T) -> (r: bool)
        requires
            Self::margin_ok(precision),
        ensures
            r == self.is_close_to_zero(precision),
    ;
}

impl CloseToZero<Fixed> for Fixed {
    /// The margin must have a negation.
    open spec fn margin_ok(precision: Fixed) -> bool {
        precision@ > i32::MIN
    }

    open spec fn is_close_to_zero(&self, precision: Fixed) -> bool {
        near_zero(self@, precision@)
    }

    fn close_to_zero(&self, precision: Fixed) -> (r: bool) {
        self.less_than(precision) && self.greater_than(precision.negated())
    }
}

impl CloseToZero<Fixed> for Vector2D<Fixed> {
    /// The margin must have a negation.
    open spec fn margin_ok(precision: Fixed) -> bool {
        precision@ > i32::MIN
    }

    open spec fn is_close_to_zero(&self, precision: Fixed) -> bool {
        near_zero(self@.x, precision@) && near_zero(self@.y, precision@)
    }

    fn close_to_zero(&self, precision: Fixed) -> (r: bool) {
        self.x.less_than(precision) && self.x.greater_than(precision.negated())
            && self.y.less_than(precision) && self.y.greater_than(precision.negated())
    }
}

} // verus!
