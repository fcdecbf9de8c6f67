//! Names of the animations that the sprite sheets define.

use vstd::prelude::*;

verus! {

/// One tagged animation of the sprite sheets.
#[derive(Clone, Copy, PartialEq, Eq, Structural, Hash, Debug)]
pub enum SpriteTag {
    /// The player character standing.
    WIdle,
    /// The player character running.
    WRun,
    /// The player character in the air.
    WJump,
    /// The bat.
    Bat,
    /// The door.
    Door,
}

} // verus!
