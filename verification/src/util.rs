//! Numeric helpers shared by the behaviors and the camera.

use crate::fixed::{fits, mul_raw, Fixed};
use vstd::prelude::*;

verus! {

/// Linear interpolation on raw values: `a` weighted by `1 - t` plus `b`
/// weighted by `t`, each product rounded toward negative infinity.
pub open spec fn lerp_raw(a: int, b: int, t: int) -> int {
    mul_raw(a, 256 - t) + mul_raw(b, t)
}

/// Whether every intermediate value of the interpolation fits the machine
/// word.
pub open spec fn lerp_fits(a: int, b: int, t: int) -> bool {
    &&& fits(256 - t)
    &&& fits(mul_raw(a, 256 - t))
    &&& fits(mul_raw(b, t))
    &&& fits(lerp_raw(a, b, t))
}

/// Linear interpolation from `a` (at `t = 0`) to `b` (at `t = 1`).
pub fn lerp(a: Fixed, b: Fixed, t: Fixed) -> (r: Fixed)
    requires
        lerp_fits(a@, b@, t@),
    ensures
        r@ == lerp_raw(a@, b@, t@),
{
    let one = Fixed::from_int(1);
    a.times(one.minus(t)).plus(b.times(t))
}

} // verus!
