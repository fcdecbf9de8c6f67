//! The input the simulation sees during one tick.

use vstd::prelude::*;

verus! {

/// The reading of one axis: toward negative coordinates, at rest, or toward
/// positive coordinates.
#[derive(Clone, Copy, PartialEq, Eq, Structural, Hash, Debug)]
pub enum Tri {
    Negative,
    Zero,
    Positive,
}

/// What the controls report for one tick. It is read once, before the tick,
/// and every behavior of the tick sees the same values.
#[derive(Clone, Copy, PartialEq, Eq, Structural, Hash, Debug)]
pub struct InputSnapshot {
    /// The horizontal direction held.
    pub x_tri: Tri,
    /// The vertical direction held.
    pub y_tri: Tri,
    /// Whether the jump button went down since the previous tick.
    pub jump_just_pressed: bool,
    /// Whether the jump button went up since the previous tick.
    pub jump_just_released: bool,
}

impl InputSnapshot {
    /// The snapshot of untouched controls.
    pub fn idle() -> (r: InputSnapshot)
        ensures
            r == (InputSnapshot {
                x_tri: Tri::Zero,
                y_tri: Tri::Zero,
                jump_just_pressed: false,
                jump_just_released: false,
            }),
    {
        InputSnapshot {
            x_tri: Tri::Zero,
            y_tri: Tri::Zero,
            jump_just_pressed: false,
            jump_just_released: false,
        }
    }
}

} // verus!
