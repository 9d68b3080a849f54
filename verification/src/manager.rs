//! The manager: consumes events from the bus, cycles the edit focus, mutates
//! the shared store, and fans out commands to the timeout and save
//! coordinators.

use vstd::prelude::*;

use crate::common::Events;
use crate::store::{
    reset_state, spec_update_brightness, spec_wrap_increment, update_brightness, update_color,
    update_on, update_value, SharedStore,
};
use crate::color::COLOR_MAX;
use crate::walker::WALKER_INTENSITY_MAX;

verus! {

/// Which configuration field encoder turns currently edit.
#[derive(PartialEq, Eq, Structural, Clone, Copy, Debug)]
pub enum ManagerStates {
    Brightness,
    Mode,
    Color,
}

/// The strict edit-focus cycle a short press advances:
/// Brightness → Mode → Color → Brightness.
pub open spec fn spec_transition(s: ManagerStates) -> ManagerStates {
    match s {
        ManagerStates::Brightness => ManagerStates::Mode,
        ManagerStates::Mode => ManagerStates::Color,
        ManagerStates::Color => ManagerStates::Brightness,
    }
}

/// Advance the edit focus one step along its cycle.
pub fn transition_manager_state(current_state: ManagerStates) -> (r: ManagerStates)
    ensures
        r == spec_transition(current_state),
{
    match current_state {
        ManagerStates::Brightness => ManagerStates::Mode,
        ManagerStates::Mode => ManagerStates::Color,
        ManagerStates::Color => ManagerStates::Brightness,
    }
}

/// Edit-focus cycle closure: three consecutive short presses return the edit
/// focus to whatever state it started in.
pub proof fn lemma_manager_cycle(s: ManagerStates)
    ensures
        spec_transition(spec_transition(spec_transition(s))) == s,
{
}

/// Commands the manager sends the timeout coordinator.
#[derive(PartialEq, Eq, Structural, Clone, Copy, Debug)]
pub enum ModeCommands {
    Start,
    Reset,
    Stop,
}

/// Commands the manager sends the save coordinator.
#[derive(PartialEq, Eq, Structural, Clone, Copy, Debug)]
pub enum SaveCommands {
    Save,
}

/// What one processed event asks the surrounding tasks to do: which command
/// to signal each coordinator, and whether to write the store to flash now.
#[derive(PartialEq, Eq, Clone, Copy, Debug)]
pub struct ManagerEffects {
    pub mode_command: Option<ModeCommands>,
    pub save_command: Option<SaveCommands>,
    pub write_requested: bool,
}

/// The effects of an event that signals nothing and writes nothing.
pub open spec fn spec_no_effects() -> ManagerEffects {
    ManagerEffects { mode_command: None, save_command: None, write_requested: false }
}

/// Dispatch one event: advance or reset the edit focus, mutate the store
/// field the focus selects, and report which coordinator signals and writes
/// the caller must perform.
pub fn handle_event(state: ManagerStates, store: &mut SharedStore, event: Events) -> (r: (
    ManagerStates,
    ManagerEffects,
))
    requires
        old(store).wf(),
    ensures
        final(store).wf(),
        match event {
            Events::SaveStore => {
                &&& r.0 == state
                &&& *final(store) == *old(store)
                &&& r.1 == (ManagerEffects {
                    mode_command: None,
                    save_command: None,
                    write_requested: true,
                })
            },
            Events::ModeTimeout => {
                &&& r.0 == ManagerStates::Brightness
                &&& *final(store) == *old(store)
                &&& r.1 == spec_no_effects()
            },
            Events::ButtonPress(is_long) => {
                if is_long {
                    &&& r.0 == ManagerStates::Brightness
                    &&& *final(store) == SharedStore::spec_default()
                    &&& r.1 == (ManagerEffects {
                        mode_command: Some(ModeCommands::Stop),
                        save_command: Some(SaveCommands::Save),
                        write_requested: false,
                    })
                } else {
                    &&& r.0 == spec_transition(state)
                    &&& *final(store) == *old(store)
                    &&& r.1 == (ManagerEffects {
                        mode_command: Some(ModeCommands::Start),
                        save_command: None,
                        write_requested: false,
                    })
                }
            },
            Events::EncoderTurn(is_increment) => {
                &&& r.0 == state
                &&& r.1 == (ManagerEffects {
                    mode_command: Some(ModeCommands::Reset),
                    save_command: Some(SaveCommands::Save),
                    write_requested: false,
                })
                &&& final(store).is_on == old(store).is_on
                &&& match state {
                    ManagerStates::Brightness => *final(store) == (SharedStore {
                        brightness: spec_update_brightness(old(store).brightness, is_increment),
                        ..*old(store)
                    }),
                    ManagerStates::Mode => *final(store) == (SharedStore {
                        value: spec_wrap_increment(
                            old(store).value,
                            WALKER_INTENSITY_MAX,
                            is_increment,
                        ),
                        ..*old(store)
                    }),
                    ManagerStates::Color => *final(store) == (SharedStore {
                        color: spec_wrap_increment(old(store).color, COLOR_MAX, is_increment),
                        ..*old(store)
                    }),
                }
            },
            Events::SwitchToggle(is_on) => {
                &&& r.0 == state
                &&& *final(store) == (SharedStore { is_on, ..*old(store) })
                &&& r.1 == spec_no_effects()
            },
        },
{
    let mut effects = ManagerEffects {
        mode_command: None,
        save_command: None,
        write_requested: false,
    };
    let new_state = match event {
        Events::SaveStore => {
            effects.write_requested = true;
            state
        },
        Events::ModeTimeout => ManagerStates::Brightness,
        Events::ButtonPress(true) => {
            effects.mode_command = Some(ModeCommands::Stop);
            effects.save_command = Some(SaveCommands::Save);
            reset_state(store);
            ManagerStates::Brightness
        },
        Events::ButtonPress(false) => {
            effects.mode_command = Some(ModeCommands::Start);
            transition_manager_state(state)
        },
        Events::EncoderTurn(is_increment) => {
            effects.mode_command = Some(ModeCommands::Reset);
            effects.save_command = Some(SaveCommands::Save);
            match state {
                ManagerStates::Brightness => update_brightness(store, is_increment),
                ManagerStates::Mode => update_value(store, is_increment),
                ManagerStates::Color => update_color(store, is_increment),
            }
            state
        },
        Events::SwitchToggle(is_on) => {
            update_on(store, is_on);
            state
        },
    };
    (new_state, effects)
}

} // verus!
