//! The sounds that the simulation asks for, and the choice among the
//! variants of a sound.

use vstd::prelude::*;

verus! {

/// A sound that a behavior asks to be played.
#[derive(Clone, Copy, PartialEq, Eq, Structural, Hash, Debug)]
pub enum SoundEffect {
    /// The wing beat of a flying enemy.
    BatFlap,
    /// The jump of the player.
    Jump,
}

/// One of the three recordings of the jump sound.
#[derive(Clone, Copy, PartialEq, Eq, Structural, Hash, Debug)]
pub enum JumpSample {
    First,
    Second,
    Third,
}

/// The remainder of `a` on division by a positive `d`, for a division that
/// rounds toward zero: it has the sign of `a`.
pub open spec fn remainder_toward_zero(a: int, d: int) -> int {
    if a >= 0 {
        a % d
    } else {
        -((-a) % d)
    }
}

/// The recording that a random number selects: the first for a remainder of
/// zero on division by three, the second for a remainder of one, the third
/// for every other remainder, the negative ones too.
pub open spec fn jump_sample_for(random: i32) -> JumpSample {
    let remainder = remainder_toward_zero(random as int, 3);
    if remainder == 0 {
        JumpSample::First
    } else if remainder == 1 {
        JumpSample::Second
    } else {
        JumpSample::Third
    }
}

/// Picks the recording of the jump sound from a random number.
pub fn jump_sample(random: i32) -> (r: JumpSample)
    ensures
        r == jump_sample_for(random),
{
    if random >= 0 {
        let remainder = random % 3;
        if remainder == 0 {
            JumpSample::First
        } else if remainder == 1 {
            JumpSample::Second
        } else {
            JumpSample::Third
        }
    } else if random == i32::MIN {
        // -2^31 leaves the remainder -2.
        assert((-(i32::MIN as int)) % 3 == 2);
        JumpSample::Third
    } else {
        let remainder = (-random) % 3;
        if remainder == 0 {
            JumpSample::First
        } else {
            JumpSample::Third
        }
    }
}

} // verus!
