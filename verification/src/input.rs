//! The player's intents for one tick.

use vstd::prelude::*;

verus! {

/// What the player asks for during one tick.
#[derive(Clone, Copy, Debug, PartialEq, Eq, Structural)]
pub struct InputState {
    /// The left key is down.
    pub left: bool,
    /// The right key is down.
    pub right: bool,
    /// The jump key is down.
    pub jump_held: bool,
    /// The jump key went down on this tick: it is down now and was up on the
    /// tick before.
    pub jump_just_pressed: bool,
}

/// The intents that follow from the state of the keys on this tick and from
/// whether the jump key was down on the tick before.
pub open spec fn sampled(left: bool, right: bool, jump_held: bool, jump_was_held: bool)
    -> InputState {
    InputState { left, right, jump_held, jump_just_pressed: jump_held && !jump_was_held }
}

/// Samples the keys for one tick. The directions and `jump_held` follow the
/// keys as they are; `jump_just_pressed` marks the one tick on which the jump
/// key goes from up to down, however long it is held afterwards.
pub fn sample_input(left: bool, right: bool, jump_held: bool, jump_was_held: bool) -> (s:
    InputState)
    ensures
        s == sampled(left, right, jump_held, jump_was_held),
{
    InputState { left, right, jump_held, jump_just_pressed: jump_held && !jump_was_held }
}

} // verus!
