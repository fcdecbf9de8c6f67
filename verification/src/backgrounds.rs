//! The arithmetic of the tiled backgrounds: which tile of a layer shows at
//! a tile position, and where the two background layers scroll to.

use crate::fixed::{fits, quotient_toward_zero, Fixed};
use crate::geometry::Vector2D;
use agb_fixnum::Num;
use vstd::prelude::*;

verus! {

/// `agb_fixnum`'s multiplication of a `Num<i32, 8>` by an `i32`, on the raw
/// value: the raw word times the integer. The product must fit.
#[verifier::external_body]
fn num_scale(a: i32, factor: i32) -> (r: i32)
    requires
        fits(a * factor),
    ensures
        r == a * factor,
{
    (Num::<i32, 8>::from_raw(a) * factor).to_raw()
}

/// `agb_fixnum`'s division of a `Num<i32, 8>` by an `i32`, on the raw
/// value: the raw word divided by the integer, rounding toward zero. The
/// divisor is positive, which leaves out the division by zero and the one
/// quotient that does not fit.
#[verifier::external_body]
fn num_shrink(a: i32, divisor: i32) -> (r: i32)
    requires
        divisor > 0,
    ensures
        r == quotient_toward_zero(a as int, divisor as int),
{
    (Num::<i32, 8>::from_raw(a) / divisor).to_raw()
}

/// The index into a layer of `len` tiles, laid out row by row in rows of
/// `width`, for the tile at column `x` and row `y`; the first tile stands in
/// for every position outside the layer.
pub open spec fn tile_index_for(width: u32, x: i32, y: i32, len: usize) -> int {
    let index = x + width * y;
    if 0 <= index < len {
        index
    } else {
        0
    }
}

/// The index into a layer of `len` tiles for the tile at column `x` and row
/// `y` of a level that is `width` tiles wide.
pub fn tile_index(width: u32, x: i32, y: i32, len: usize) -> (r: usize)
    requires
        len > 0,
    ensures
        r == tile_index_for(width, x, y, len),
        r < len,
{
    assert(-0x8000_0000_0000_0000 <= width * y <= 0x8000_0000_0000_0000) by (nonlinear_arith)
        requires
            0 <= width <= 0xffff_ffff,
            -0x8000_0000 <= y <= 0x7fff_ffff,
    ;
    let index: i128 = x as i128 + (width as i128) * (y as i128);
    if 0 <= index && index < len as i128 {
        index as usize
    } else {
        0
    }
}

/// Where the near layer scrolls to: opposite to the camera.
pub open spec fn near_layer_position(scroll: Vector2D<int>) -> Vector2D<int> {
    Vector2D { x: -scroll.x, y: -scroll.y }
}

/// Where the far layer scrolls to: opposite to the camera, by six tenths of
/// its horizontal and eight tenths of its vertical offset.
pub open spec fn far_layer_position(scroll: Vector2D<int>) -> Vector2D<int> {
    Vector2D {
        x: -quotient_toward_zero(scroll.x * 6, 10),
        y: -quotient_toward_zero(scroll.y * 8, 10),
    }
}

/// Whether the positions of the layers can be computed in the machine
/// word.
pub open spec fn layers_fit(scroll: Vector2D<int>) -> bool {
    &&& scroll.x > i32::MIN
    &&& scroll.y > i32::MIN
    &&& fits(scroll.x * 6)
    &&& fits(scroll.y * 8)
}

/// Whether the positions of the layers can be computed for a camera at
/// `scroll`.
pub fn layers_can_scroll(scroll: Vector2D<Fixed>) -> (r: bool)
    ensures
        r == layers_fit(scroll@),
{
    scroll.x.raw > i32::MIN && scroll.y.raw > i32::MIN && scroll.x.raw.checked_mul(6).is_some()
        && scroll.y.raw.checked_mul(8).is_some()
}

/// The positions of the near and of the far background layer for a camera
/// at `scroll`.
pub fn layer_positions(scroll: Vector2D<Fixed>) -> (r: (Vector2D<Fixed>, Vector2D<Fixed>))
    requires
        layers_fit(scroll@),
    ensures
        r.0@ == near_layer_position(scroll@),
        r.1@ == far_layer_position(scroll@),
{
    let near = Vector2D { x: scroll.x.negated(), y: scroll.y.negated() };
    let far_x = Fixed { raw: num_shrink(num_scale(scroll.x.raw, 6), 10) };
    let far_y = Fixed { raw: num_shrink(num_scale(scroll.y.raw, 8), 10) };
    (near, Vector2D { x: far_x.negated(), y: far_y.negated() })
}

} // verus!
