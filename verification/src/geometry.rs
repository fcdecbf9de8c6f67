//! Vectors and axis-aligned rectangles, over fixed-point numbers and over
//! whole pixels.
//!
//! The point-in-rectangle and overlap tests are those of `agb_fixnum`; their
//! contracts state the comparisons that the outside functions make.

use crate::fixed::{fits, within, Fixed};
use agb_fixnum::Num;
use vstd::prelude::*;

verus! {

/// A pair of coordinates.
#[derive(PartialEq, Eq, Structural, Hash, Debug)]
pub struct Vector2D<T> {
    pub x: T,
    pub y: T,
}

/// An axis-aligned rectangle: the corner with the smallest coordinates, and
/// the extent from there.
#[derive(PartialEq, Eq, Structural, Hash, Debug)]
pub struct Rect<T> {
    pub position: Vector2D<T>,
    pub size: Vector2D<T>,
}

impl<T: Copy> Clone for Vector2D<T> {
    fn clone(&self) -> (r: Self)
        ensures
            r == *self,
    {
        *self
    }
}

impl<T: Copy> Copy for Vector2D<T> {

}

impl<T: Copy> Clone for Rect<T> {
    fn clone(&self) -> (r: Self)
        ensures
            r == *self,
    {
        *self
    }
}

impl<T: Copy> Copy for Rect<T> {

}

impl<T: View> View for Vector2D<T> {
    type V = Vector2D<T::V>;

    open spec fn view(&self) -> Vector2D<T::V> {
        Vector2D { x: self.x@, y: self.y@ }
    }
}

impl<T: View> View for Rect<T> {
    type V = Rect<T::V>;

    open spec fn view(&self) -> Rect<T::V> {
        Rect { position: self.position@, size: self.size@ }
    }
}

/// The sum of two vectors.
pub open spec fn vec_add(a: Vector2D<int>, b: Vector2D<int>) -> Vector2D<int> {
    Vector2D { x: a.x + b.x, y: a.y + b.y }
}

/// Whether both coordinates of `v` have magnitude at most `limit`.
pub open spec fn vec_within(v: Vector2D<int>, limit: int) -> bool {
    within(v.x, limit) && within(v.y, limit)
}

/// Whether position and size of `r` have coordinates of magnitude at most
/// `limit`.
pub open spec fn rect_within(r: Rect<int>, limit: int) -> bool {
    vec_within(r.position, limit) && vec_within(r.size, limit)
}

/// Whether the point lies in the rectangle. The boundary belongs to the
/// rectangle.
pub open spec fn contains_point(r: Rect<int>, p: Vector2D<int>) -> bool {
    &&& r.position.x <= p.x <= r.position.x + r.size.x
    &&& r.position.y <= p.y <= r.position.y + r.size.y
}

/// Whether the two rectangles overlap in an area: sharing only an edge or a
/// corner does not count.
pub open spec fn touches(a: Rect<int>, b: Rect<int>) -> bool {
    &&& a.position.x < b.position.x + b.size.x
    &&& a.position.x + a.size.x > b.position.x
    &&& a.position.y < b.position.y + b.size.y
    &&& a.position.y + a.size.y > b.position.y
}

/// The fixed-point vector that a whole-pixel vector stands for.
pub open spec fn pixels_to_fixed(v: Vector2D<i32>) -> Vector2D<int> {
    Vector2D { x: v.x * 256, y: v.y * 256 }
}

/// The fixed-point rectangle that a whole-pixel rectangle stands for.
pub open spec fn pixel_rect_to_fixed(r: Rect<i32>) -> Rect<int> {
    Rect { position: pixels_to_fixed(r.position), size: pixels_to_fixed(r.size) }
}

/// Whether both coordinates of a whole-pixel vector can be written in
/// fixed point.
pub open spec fn pixels_fit(v: Vector2D<i32>) -> bool {
    fits(v.x * 256) && fits(v.y * 256)
}

/// Whether a whole-pixel rectangle, and its far corner, can be written in
/// fixed point.
pub open spec fn pixel_rect_fits(r: Rect<i32>) -> bool {
    &&& pixels_fit(r.position)
    &&& pixels_fit(r.size)
    &&& fits((r.position.x + r.size.x) * 256)
    &&& fits((r.position.y + r.size.y) * 256)
}

/// Whether every rectangle of the sequence can be written in fixed point.
pub open spec fn pixel_rects_fit(rects: Seq<Rect<i32>>) -> bool {
    forall|i: int| 0 <= i < rects.len() ==> pixel_rect_fits(#[trigger] rects[i])
}

/// `agb_fixnum`'s addition of two `Vector2D<Num<i32, 8>>`, which adds
/// coordinate by coordinate. Both sums must fit.
#[verifier::external_body]
fn vector_add(a: Vector2D<Fixed>, b: Vector2D<Fixed>) -> (r: Vector2D<Fixed>)
    requires
        fits(a@.x + b@.x),
        fits(a@.y + b@.y),
    ensures
        r@ == vec_add(a@, b@),
{
    let n = Num::<i32, 8>::from_raw;
    let sum = agb_fixnum::Vector2D::new(n(a.x.raw), n(a.y.raw))
        + agb_fixnum::Vector2D::new(n(b.x.raw), n(b.y.raw));
    Vector2D { x: Fixed { raw: sum.x.to_raw() }, y: Fixed { raw: sum.y.to_raw() } }
}

/// `agb_fixnum`'s truncation of a `Vector2D<Num<i32, 8>>` to whole numbers,
/// which rounds each coordinate toward zero.
#[verifier::external_body]
fn vector_trunc(a: Vector2D<Fixed>) -> (r: Vector2D<i32>)
    ensures
        r.x == crate::fixed::trunc_raw(a@.x),
        r.y == crate::fixed::trunc_raw(a@.y),
{
    let n = Num::<i32, 8>::from_raw;
    let whole = agb_fixnum::Vector2D::new(n(a.x.raw), n(a.y.raw)).trunc();
    Vector2D { x: whole.x, y: whole.y }
}

/// `agb_fixnum`'s conversion of a `Vector2D<i32>` into a
/// `Vector2D<Num<i32, 8>>`, which shifts each coordinate left by eight bits.
/// The contract admits only coordinates that lose no bit in the shift.
#[verifier::external_body]
fn vector_from_pixels(v: Vector2D<i32>) -> (r: Vector2D<Fixed>)
    requires
        fits(v.x * 256),
        fits(v.y * 256),
    ensures
        r@ == pixels_to_fixed(v),
{
    let fixed: agb_fixnum::Vector2D<Num<i32, 8>> = agb_fixnum::Vector2D::new(v.x, v.y).into();
    Vector2D { x: Fixed { raw: fixed.x.to_raw() }, y: Fixed { raw: fixed.y.to_raw() } }
}

/// `agb_fixnum`'s `Rect::contains_point` on `Num<i32, 8>`: the point is at or
/// after the position and at or before position plus size, on both axes. The
/// two sums must fit.
#[verifier::external_body]
fn rect_contains_point(rect: Rect<Fixed>, point: Vector2D<Fixed>) -> (r: bool)
    requires
        fits(rect@.position.x + rect@.size.x),
        fits(rect@.position.y + rect@.size.y),
    ensures
        r == contains_point(rect@, point@),
{
    let n = Num::<i32, 8>::from_raw;
    agb_fixnum::Rect::new(
        agb_fixnum::Vector2D::new(n(rect.position.x.raw), n(rect.position.y.raw)),
        agb_fixnum::Vector2D::new(n(rect.size.x.raw), n(rect.size.y.raw)),
    ).contains_point(agb_fixnum::Vector2D::new(n(point.x.raw), n(point.y.raw)))
}

/// `agb_fixnum`'s `Rect::touches` on `Num<i32, 8>`: each rectangle starts
/// strictly before the other ends, on both axes. The four sums of a position
/// and a size must fit.
#[verifier::external_body]
fn rect_touches(a: Rect<Fixed>, b: Rect<Fixed>) -> (r: bool)
    requires
        fits(a@.position.x + a@.size.x),
        fits(a@.position.y + a@.size.y),
        fits(b@.position.x + b@.size.x),
        fits(b@.position.y + b@.size.y),
    ensures
        r == touches(a@, b@),
{
    let n = Num::<i32, 8>::from_raw;
    let v = agb_fixnum::Vector2D::new;
    agb_fixnum::Rect::new(
        v(n(a.position.x.raw), n(a.position.y.raw)),
        v(n(a.size.x.raw), n(a.size.y.raw)),
    )
        .touches(agb_fixnum::Rect::new(
            v(n(b.position.x.raw), n(b.position.y.raw)),
            v(n(b.size.x.raw), n(b.size.y.raw)),
        ))
}

impl Vector2D<Fixed> {
    /// The vector with the given coordinates.
    pub fn new(x: Fixed, y: Fixed) -> (r: Vector2D<Fixed>)
        ensures
            r@ == (Vector2D::<int> { x: x@, y: y@ }),
    {
        Vector2D { x, y }
    }

    /// The zero vector.
    pub fn zero() -> (r: Vector2D<Fixed>)
        ensures
            r@ == (Vector2D::<int> { x: 0, y: 0 }),
    {
        Vector2D { x: Fixed::zero(), y: Fixed::zero() }
    }

    /// The sum of two vectors.
    pub fn plus(self, rhs: Vector2D<Fixed>) -> (r: Vector2D<Fixed>)
        requires
            fits(self@.x + rhs@.x),
            fits(self@.y + rhs@.y),
        ensures
            r@ == vec_add(self@, rhs@),
    {
        vector_add(self, rhs)
    }

    /// The whole-number parts of the coordinates, rounded toward zero.
    pub fn trunc(self) -> (r: Vector2D<i32>)
        ensures
            r.x == crate::fixed::trunc_raw(self@.x),
            r.y == crate::fixed::trunc_raw(self@.y),
    {
        vector_trunc(self)
    }

    /// Whether both coordinates have magnitude at most `limit` (raw).
    pub fn is_within(self, limit: i32) -> (r: bool)
        requires
            limit >= 0,
        ensures
            r == vec_within(self@, limit as int),
    {
        self.x.is_within(limit) && self.y.is_within(limit)
    }
}

impl Vector2D<i32> {
    /// Whether both coordinates can be written in fixed point.
    pub fn fits(&self) -> (r: bool)
        ensures
            r == pixels_fit(*self),
    {
        -0x80_0000 <= self.x && self.x < 0x80_0000 && -0x80_0000 <= self.y && self.y < 0x80_0000
    }

    /// The fixed-point vector for a vector of whole pixels.
    pub fn to_fixed(self) -> (r: Vector2D<Fixed>)
        requires
            pixels_fit(self),
        ensures
            r@ == pixels_to_fixed(self),
    {
        vector_from_pixels(self)
    }
}

impl Rect<Fixed> {
    /// The rectangle at `position` with the given `size`.
    pub fn new(position: Vector2D<Fixed>, size: Vector2D<Fixed>) -> (r: Rect<Fixed>)
        ensures
            r@ == (Rect::<int> { position: position@, size: size@ }),
    {
        Rect { position, size }
    }

    /// Whether `point` lies in the rectangle, boundary included.
    pub fn contains_point(&self, point: Vector2D<Fixed>) -> (r: bool)
        requires
            fits(self@.position.x + self@.size.x),
            fits(self@.position.y + self@.size.y),
        ensures
            r == contains_point(self@, point@),
    {
        rect_contains_point(*self, point)
    }

    /// Whether the rectangle and `other` overlap in an area.
    pub fn touches(&self, other: Rect<Fixed>) -> (r: bool)
        requires
            fits(self@.position.x + self@.size.x),
            fits(self@.position.y + self@.size.y),
            fits(other@.position.x + other@.size.x),
            fits(other@.position.y + other@.size.y),
        ensures
            r == touches(self@, other@),
    {
        rect_touches(*self, other)
    }

    /// Whether position and size have coordinates of magnitude at most
    /// `limit` (raw).
    pub fn is_within(&self, limit: i32) -> (r: bool)
        requires
            limit >= 0,
        ensures
            r == rect_within(self@, limit as int),
    {
        self.position.is_within(limit) && self.size.is_within(limit)
    }
}

impl Rect<i32> {
    /// Whether the rectangle, and its far corner, can be written in fixed
    /// point.
    pub fn fits(&self) -> (r: bool)
        ensures
            r == pixel_rect_fits(*self),
    {
        let far_x: i64 = self.position.x as i64 + self.size.x as i64;
        let far_y: i64 = self.position.y as i64 + self.size.y as i64;
        self.position.fits() && self.size.fits() && -0x80_0000 <= far_x && far_x < 0x80_0000
            && -0x80_0000 <= far_y && far_y < 0x80_0000
    }

    /// The fixed-point rectangle for a rectangle of whole pixels; its far
    /// corner fits the machine word.
    pub fn to_fixed(&self) -> (r: Rect<Fixed>)
        requires
            pixel_rect_fits(*self),
        ensures
            r@ == pixel_rect_to_fixed(*self),
            fits(r@.position.x + r@.size.x),
            fits(r@.position.y + r@.size.y),
    {
        Rect { position: self.position.to_fixed(), size: self.size.to_fixed() }
    }
}

/// Whether every rectangle of the slice can be written in fixed point.
pub fn rects_fit(rects: &[Rect<i32>]) -> (r: bool)
    ensures
        r == pixel_rects_fit(rects@),
{
    let mut i: usize = 0;
    while i < rects.len()
        invariant
            i <= rects.len(),
            forall|j: int| 0 <= j < i ==> pixel_rect_fits(#[trigger] rects@[j]),
        decreases rects.len() - i,
    {
        if !rects[i].fits() {
            return false;
        }
        i += 1;
    }
    true
}

} // verus!
