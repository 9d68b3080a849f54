//! The two race-against-a-timer coordinators: one auto-reverts the edit
//! focus after inactivity, the other debounces flash writes so a burst of
//! edits produces a single save.

use vstd::prelude::*;

use crate::manager::ModeCommands;

verus! {

/// Inactivity window after which the edit focus reverts, in seconds.
pub const MODE_TIMEOUT_IN_SECONDS: u64 = 60 * 3 + 30;

/// Inactivity window after which the edit focus reverts, in milliseconds.
pub const MODE_TIMEOUT_MILLIS: u64 = MODE_TIMEOUT_IN_SECONDS * 1000;

/// Debounce window of the save coordinator, in milliseconds.
pub const SAVE_TIMEOUT_IN_MILLISECONDS: u64 = 1000;

/// A coordinator either waits for a first command or races a timer deadline
/// against further commands.
#[derive(PartialEq, Eq, Structural, Clone, Copy, Debug)]
pub enum CoordinatorState {
    Idle,
    Armed { deadline: u64 },
}

/// What a poll of the racing timer does: at or past the deadline the race is
/// lost to the timer — the coordinator emits its event and disarms; before
/// the deadline nothing happens. An idle coordinator never emits.
pub open spec fn spec_poll(s: CoordinatorState, now: u64) -> (CoordinatorState, bool) {
    match s {
        CoordinatorState::Idle => (CoordinatorState::Idle, false),
        CoordinatorState::Armed { deadline } => {
            if now >= deadline {
                (CoordinatorState::Idle, true)
            } else {
                (s, false)
            }
        },
    }
}

/// Auto-reverts the edit focus: armed by `Start`, re-armed by any further
/// command but `Stop`, and emits a mode timeout when the timer wins.
#[derive(PartialEq, Eq, Structural, Clone, Copy, Debug)]
pub struct TimeoutCoordinator {
    pub state: CoordinatorState,
}

/// The timeout coordinator state one manager command leads to: while idle
/// only `Start` arms it; while armed, `Stop` disarms it and anything else
/// restarts the race with a fresh deadline.
pub open spec fn spec_timeout_on_command(
    s: CoordinatorState,
    cmd: ModeCommands,
    now: u64,
) -> CoordinatorState {
    match s {
        CoordinatorState::Idle => {
            if cmd == ModeCommands::Start {
                CoordinatorState::Armed { deadline: (now + MODE_TIMEOUT_MILLIS) as u64 }
            } else {
                CoordinatorState::Idle
            }
        },
        CoordinatorState::Armed { .. } => {
            if cmd == ModeCommands::Stop {
                CoordinatorState::Idle
            } else {
                CoordinatorState::Armed { deadline: (now + MODE_TIMEOUT_MILLIS) as u64 }
            }
        },
    }
}

impl TimeoutCoordinator {
    /// A coordinator that waits for its first command.
    pub fn new() -> (r: Self)
        ensures
            r.state == CoordinatorState::Idle,
    {
        TimeoutCoordinator { state: CoordinatorState::Idle }
    }

    /// React to a command written into the coordinator's mailbox.
    pub fn on_command(&mut self, cmd: ModeCommands, now: u64)
        requires
            now + MODE_TIMEOUT_MILLIS <= u64::MAX,
        ensures
            final(self).state == spec_timeout_on_command(old(self).state, cmd, now),
    {
        self.state = match self.state {
            CoordinatorState::Idle => {
                if cmd == ModeCommands::Start {
                    CoordinatorState::Armed { deadline: now + MODE_TIMEOUT_MILLIS }
                } else {
                    CoordinatorState::Idle
                }
            },
            CoordinatorState::Armed { .. } => {
                if cmd == ModeCommands::Stop {
                    CoordinatorState::Idle
                } else {
                    CoordinatorState::Armed { deadline: now + MODE_TIMEOUT_MILLIS }
                }
            },
        };
    }

    /// Poll the racing timer; a `true` result asks the caller to put a
    /// `ModeTimeout` event on the bus.
    pub fn on_timer(&mut self, now: u64) -> (emit: bool)
        ensures
            (final(self).state, emit) == spec_poll(old(self).state, now),
    {
        match self.state {
            CoordinatorState::Idle => false,
            CoordinatorState::Armed { deadline } => {
                if now >= deadline {
                    self.state = CoordinatorState::Idle;
                    true
                } else {
                    false
                }
            },
        }
    }
}

/// Debounces persistence: any dirty signal (re)arms a short window, and only
/// when the window passes without another signal is one save emitted.
#[derive(PartialEq, Eq, Structural, Clone, Copy, Debug)]
pub struct SaveCoordinator {
    pub state: CoordinatorState,
}

impl SaveCoordinator {
    /// A coordinator that waits for its first dirty signal.
    pub fn new() -> (r: Self)
        ensures
            r.state == CoordinatorState::Idle,
    {
        SaveCoordinator { state: CoordinatorState::Idle }
    }

    /// React to a dirty signal: whatever the state, restart the debounce
    /// window from now.
    pub fn on_signal(&mut self, now: u64)
        requires
            now + SAVE_TIMEOUT_IN_MILLISECONDS <= u64::MAX,
        ensures
            final(self).state == (CoordinatorState::Armed {
                deadline: (now + SAVE_TIMEOUT_IN_MILLISECONDS) as u64,
            }),
    {
        self.state = CoordinatorState::Armed { deadline: now + SAVE_TIMEOUT_IN_MILLISECONDS };
    }

    /// Poll the racing timer; a `true` result asks the caller to put a
    /// `SaveStore` event on the bus.
    pub fn on_timer(&mut self, now: u64) -> (emit: bool)
        ensures
            (final(self).state, emit) == spec_poll(old(self).state, now),
    {
        match self.state {
            CoordinatorState::Idle => false,
            CoordinatorState::Armed { deadline } => {
                if now >= deadline {
                    self.state = CoordinatorState::Idle;
                    true
                } else {
                    false
                }
            },
        }
    }
}

/// The save coordinator state a burst of dirty signals leaves behind,
/// processed in order.
pub open spec fn spec_after_signals(s: CoordinatorState, sigs: Seq<u64>) -> CoordinatorState
    decreases sigs.len(),
{
    if sigs.len() == 0 {
        s
    } else {
        spec_after_signals(
            CoordinatorState::Armed { deadline: (sigs[0] + SAVE_TIMEOUT_IN_MILLISECONDS) as u64 },
            sigs.drop_first(),
        )
    }
}

/// Coalescing of saves: however many dirty signals arrive, the coordinator
/// ends up armed for exactly one deadline — the debounce window after the
/// last signal. Every poll before that deadline emits nothing and changes
/// nothing, the first poll at or past it emits exactly one save request and
/// disarms, and once idle no further poll emits anything.
pub proof fn lemma_save_coalescing(
    s: CoordinatorState,
    sigs: Seq<u64>,
    now_early: u64,
    now_late: u64,
)
    requires
        sigs.len() >= 1,
        forall|i: int| 0 <= i < sigs.len() ==> #[trigger] sigs[i] + SAVE_TIMEOUT_IN_MILLISECONDS
            <= u64::MAX,
        now_early < sigs.last() + SAVE_TIMEOUT_IN_MILLISECONDS,
        now_late >= sigs.last() + SAVE_TIMEOUT_IN_MILLISECONDS,
    ensures
        spec_after_signals(s, sigs) == (CoordinatorState::Armed {
            deadline: (sigs.last() + SAVE_TIMEOUT_IN_MILLISECONDS) as u64,
        }),
        spec_poll(spec_after_signals(s, sigs), now_early) == (spec_after_signals(s, sigs), false),
        spec_poll(spec_after_signals(s, sigs), now_late) == (CoordinatorState::Idle, true),
        spec_poll(CoordinatorState::Idle, now_late) == (CoordinatorState::Idle, false),
    decreases sigs.len(),
{
    if sigs.len() == 1 {
        let armed = CoordinatorState::Armed {
            deadline: (sigs[0] + SAVE_TIMEOUT_IN_MILLISECONDS) as u64,
        };
        assert(sigs.drop_first().len() == 0);
        assert(spec_after_signals(armed, sigs.drop_first()) == armed);
    } else {
        assert(sigs.drop_first().last() == sigs.last());
        lemma_save_coalescing(
            CoordinatorState::Armed { deadline: (sigs[0] + SAVE_TIMEOUT_IN_MILLISECONDS) as u64 },
            sigs.drop_first(),
            now_early,
            now_late,
        );
    }
}

/// One thing the save coordinator sees, with its millisecond timestamp: a
/// dirty signal from the manager, or a poll of the racing timer.
pub enum SaveInput {
    Dirty(u64),
    Poll(u64),
}

/// The timestamp of an input.
pub open spec fn spec_input_time(input: SaveInput) -> u64 {
    match input {
        SaveInput::Dirty(t) => t,
        SaveInput::Poll(t) => t,
    }
}

/// The run of the save coordinator over a sequence of inputs: the state it
/// ends in, and how many save requests it emitted along the way.
pub open spec fn spec_run(s: CoordinatorState, inputs: Seq<SaveInput>) -> (CoordinatorState, nat)
    decreases inputs.len(),
{
    if inputs.len() == 0 {
        (s, 0)
    } else {
        match inputs[0] {
            SaveInput::Dirty(t) => spec_run(
                CoordinatorState::Armed { deadline: (t + SAVE_TIMEOUT_IN_MILLISECONDS) as u64 },
                inputs.drop_first(),
            ),
            SaveInput::Poll(t) => {
                let polled = spec_poll(s, t);
                let rest = spec_run(polled.0, inputs.drop_first());
                (rest.0, rest.1 + if polled.1 { 1nat } else { 0nat })
            },
        }
    }
}

/// An idle coordinator polled any number of times emits nothing.
proof fn lemma_idle_polls(polls: Seq<SaveInput>)
    requires
        forall|j: int| 0 <= j < polls.len() ==> (#[trigger] polls[j]) is Poll,
    ensures
        spec_run(CoordinatorState::Idle, polls) == (CoordinatorState::Idle, 0nat),
    decreases polls.len(),
{
    if polls.len() > 0 {
        assert(forall|j: int|
            0 <= j < polls.drop_first().len() ==> #[trigger] polls.drop_first()[j] == polls[j + 1]);
        lemma_idle_polls(polls.drop_first());
    }
}

/// An armed coordinator run through polls with nondecreasing times, at
/// least one of which reaches the deadline, emits exactly once and ends
/// idle.
proof fn lemma_armed_polls(deadline: u64, polls: Seq<SaveInput>)
    requires
        forall|j: int| 0 <= j < polls.len() ==> (#[trigger] polls[j]) is Poll,
        forall|i: int, j: int|
            0 <= i < j < polls.len() ==> spec_input_time(#[trigger] polls[i]) <= spec_input_time(
                #[trigger] polls[j],
            ),
        exists|j: int|
            0 <= j < polls.len() && spec_input_time(#[trigger] polls[j]) >= deadline,
    ensures
        spec_run(CoordinatorState::Armed { deadline }, polls) == (CoordinatorState::Idle, 1nat),
    decreases polls.len(),
{
    let rest = polls.drop_first();
    assert(forall|j: int| 0 <= j < rest.len() ==> #[trigger] rest[j] == polls[j + 1]);
    let t0 = spec_input_time(polls[0]);
    if t0 >= deadline {
        lemma_idle_polls(rest);
    } else {
        let w = choose|j: int|
            0 <= j < polls.len() && spec_input_time(#[trigger] polls[j]) >= deadline;
        assert(w != 0);
        assert(rest[w - 1] == polls[w] && spec_input_time(rest[w - 1]) >= deadline);
        lemma_armed_polls(deadline, rest);
    }
}

/// Coalescing over a whole interleaved trace: a burst of dirty signals that
/// all fall within one debounce window, mixed with timer polls in time
/// order and followed by polls that eventually pass the window, makes the
/// coordinator emit exactly one save request — and it ends idle. The
/// emitting poll can only be one at or past the window after the last
/// signal, since `spec_poll` emits at its deadline alone.
pub proof fn lemma_save_coalescing_trace(
    s: CoordinatorState,
    inputs: Seq<SaveInput>,
    last_dirty: int,
)
    requires
        0 <= last_dirty < inputs.len(),
        inputs[last_dirty] is Dirty,
        forall|j: int| last_dirty < j < inputs.len() ==> (#[trigger] inputs[j]) is Poll,
        forall|i: int, j: int|
            0 <= i < j < inputs.len() ==> spec_input_time(#[trigger] inputs[i]) <= spec_input_time(
                #[trigger] inputs[j],
            ),
        forall|i: int|
            0 <= i < inputs.len() && (#[trigger] inputs[i]) is Dirty ==> spec_input_time(
                inputs[i],
            ) + SAVE_TIMEOUT_IN_MILLISECONDS <= u64::MAX,
        // the whole burst spans less than the debounce window
        forall|i: int|
            0 <= i < inputs.len() && (#[trigger] inputs[i]) is Dirty ==> spec_input_time(
                inputs[last_dirty],
            ) < spec_input_time(inputs[i]) + SAVE_TIMEOUT_IN_MILLISECONDS,
        // some poll after the burst reaches the window
        exists|j: int|
            last_dirty < j < inputs.len() && spec_input_time(#[trigger] inputs[j])
                >= spec_input_time(inputs[last_dirty]) + SAVE_TIMEOUT_IN_MILLISECONDS,
        // before the burst the coordinator is idle, or armed past the burst
        s is Idle || (s matches CoordinatorState::Armed { deadline } && deadline
            > spec_input_time(inputs[last_dirty])),
    ensures
        spec_run(s, inputs) == (CoordinatorState::Idle, 1nat),
    decreases inputs.len(),
{
    let rest = inputs.drop_first();
    assert(forall|j: int| 0 <= j < rest.len() ==> #[trigger] rest[j] == inputs[j + 1]);
    let t_last = spec_input_time(inputs[last_dirty]);
    match inputs[0] {
        SaveInput::Dirty(t0) => {
            let armed = CoordinatorState::Armed {
                deadline: (t0 + SAVE_TIMEOUT_IN_MILLISECONDS) as u64,
            };
            if last_dirty == 0 {
                let w = choose|j: int|
                    last_dirty < j < inputs.len() && spec_input_time(#[trigger] inputs[j])
                        >= t_last + SAVE_TIMEOUT_IN_MILLISECONDS;
                assert(rest[w - 1] == inputs[w]);
                lemma_armed_polls((t0 + SAVE_TIMEOUT_IN_MILLISECONDS) as u64, rest);
            } else {
                let w = choose|j: int|
                    last_dirty < j < inputs.len() && spec_input_time(#[trigger] inputs[j])
                        >= t_last + SAVE_TIMEOUT_IN_MILLISECONDS;
                assert(rest[w - 1] == inputs[w]);
                lemma_save_coalescing_trace(armed, rest, last_dirty - 1);
            }
        },
        SaveInput::Poll(t0) => {
            assert(last_dirty > 0);
            assert(t0 <= t_last);
            let polled = spec_poll(s, t0);
            assert(polled == (s, false));
            let w = choose|j: int|
                last_dirty < j < inputs.len() && spec_input_time(#[trigger] inputs[j]) >= t_last
                    + SAVE_TIMEOUT_IN_MILLISECONDS;
            assert(rest[w - 1] == inputs[w]);
            lemma_save_coalescing_trace(s, rest, last_dirty - 1);
        },
    }
}

} // verus!
