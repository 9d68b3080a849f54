//! Decision kernel of the on/off-switch task: which event a settled level
//! produces.

use vstd::prelude::*;

use crate::common::Events;

verus! {

/// The event a debounced switch level sends: the switch is a pull-up, so a
/// low level means the lamp is switched on.
pub fn switch_event(level_low: bool) -> (r: Events)
    ensures
        r == Events::SwitchToggle(level_low),
{
    Events::SwitchToggle(level_low)
}

} // verus!
