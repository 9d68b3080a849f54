//! Decision kernel of the rotary-encoder task: which event one detent
//! produces.

use vstd::prelude::*;

use crate::common::Events;

verus! {

/// The event one encoder detent sends: counter-clockwise decrements unless
/// the encoder is mounted flipped, in which case the directions swap.
pub fn encoder_event(counter_clockwise: bool, flip_direction: bool) -> (r: Events)
    ensures
        counter_clockwise ==> r == Events::EncoderTurn(flip_direction),
        !counter_clockwise ==> r == Events::EncoderTurn(!flip_direction),
{
    if counter_clockwise {
        Events::EncoderTurn(flip_direction)
    } else {
        Events::EncoderTurn(!flip_direction)
    }
}

} // verus!
