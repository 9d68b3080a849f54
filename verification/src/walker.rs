//! Per-pixel stochastic animation engine: every LED runs a small state
//! machine that drifts between a hold value and randomly chosen extremes,
//! producing an organic shimmer.

use vstd::prelude::*;

use crate::color::{spec_fade_from, spec_lerp8, Rgba8};
use crate::rng::{rng_next_u8, rng_range_u64, rng_range_u8};

verus! {

/// Largest legal animation intensity level.
pub const WALKER_INTENSITY_MAX: u8 = 2;

/// How much of the cross-fade completes per tick after an intensity change.
pub const WALKER_FADE_IN_STEP: u8 = 8;

/// An animation intensity level, always within `[0, WALKER_INTENSITY_MAX]`.
#[derive(PartialEq, Eq, Structural, Clone, Copy, Debug)]
pub struct WalkerIntensity(pub u8);

/// The intensity a raw byte clamps to: anything above the maximum becomes
/// the maximum.
pub open spec fn spec_intensity_from(item: u8) -> WalkerIntensity {
    if item >= WALKER_INTENSITY_MAX {
        WalkerIntensity(WALKER_INTENSITY_MAX)
    } else {
        WalkerIntensity(item)
    }
}

impl WalkerIntensity {
    /// A constructed intensity never leaves the legal range.
    pub open spec fn wf(self) -> bool {
        self.0 <= WALKER_INTENSITY_MAX
    }

    /// The level as an index into the per-intensity configuration table.
    pub fn to_usize(&self) -> (r: usize)
        ensures
            r == self.0 as usize,
    {
        self.0 as usize
    }
}

impl From<u8> for WalkerIntensity {
    fn from(item: u8) -> Self {
        if item >= WALKER_INTENSITY_MAX {
            Self(WALKER_INTENSITY_MAX)
        } else {
            Self(item)
        }
    }
}

impl vstd::std_specs::convert::FromSpecImpl<u8> for WalkerIntensity {
    open spec fn obeys_from_spec() -> bool {
        true
    }

    open spec fn from_spec(v: u8) -> Self {
        spec_intensity_from(v)
    }
}

/// The animation intensity together with the progress of the cross-fade that
/// an intensity change starts; a `pct` of 255 means the fade is complete.
#[derive(PartialEq, Eq, Structural, Clone, Copy, Debug)]
pub struct WalkerSetting {
    pub intensity: WalkerIntensity,
    pub pct: u8,
}

/// The phase a walker is in: holding its rest value, fading toward an
/// extreme, pausing there, or fading back.
#[derive(PartialEq, Eq, Structural, Clone, Copy, Debug)]
pub enum WalkerState {
    Holding,
    FadingInLow,
    Low,
    FadingOutLow,
    FadingInHigh,
    High,
    FadingOutHigh,
}

impl WalkerState {
    /// Whether the phase belongs to the high extreme.
    pub open spec fn spec_is_high(self) -> bool {
        match self {
            WalkerState::FadingInHigh | WalkerState::High | WalkerState::FadingOutHigh => true,
            _ => false,
        }
    }

    /// Whether the phase belongs to the high extreme.
    pub fn is_high(&self) -> (r: bool)
        ensures
            r == self.spec_is_high(),
    {
        match self {
            WalkerState::FadingInHigh | WalkerState::High | WalkerState::FadingOutHigh => true,
            _ => false,
        }
    }

    /// The phase a uniformly drawn index stands for; drawing over `0 ..= 6`
    /// makes every phase an equally likely random starting point.
    pub fn from_index(i: u8) -> (r: Self)
        requires
            i <= 6,
        ensures
            r == (match i {
                0 => WalkerState::Holding,
                1 => WalkerState::FadingInLow,
                2 => WalkerState::Low,
                3 => WalkerState::FadingOutLow,
                4 => WalkerState::FadingInHigh,
                5 => WalkerState::High,
                _ => WalkerState::FadingOutHigh,
            }),
    {
        match i {
            0 => WalkerState::Holding,
            1 => WalkerState::FadingInLow,
            2 => WalkerState::Low,
            3 => WalkerState::FadingOutLow,
            4 => WalkerState::FadingInHigh,
            5 => WalkerState::High,
            _ => WalkerState::FadingOutHigh,
        }
    }
}

/// Value ranges, dwell-time ranges and the extreme-choice weight governing
/// one animation intensity level.
#[derive(PartialEq, Eq, Structural, Clone, Copy, Debug)]
pub struct HoldConfig {
    pub hold_value: u8,
    pub min_low_value: u8,
    pub max_low_value: u8,
    pub min_high_value: u8,
    pub max_high_value: u8,
    pub min_hold_millis: u64,
    pub max_hold_millis: u64,
    pub min_transition_in_millis: u64,
    pub max_transition_in_millis: u64,
    pub min_pause_millis: u64,
    pub max_pause_millis: u64,
    pub min_transition_out_millis: u64,
    pub max_transition_out_millis: u64,
    pub weight_choose_high: u8,
}

impl HoldConfig {
    /// Every value range is non-empty and every dwell range starts at a
    /// millisecond or more, so a drawn dwell is never zero.
    pub open spec fn wf(self) -> bool {
        &&& self.min_low_value <= self.max_low_value
        &&& self.min_high_value <= self.max_high_value
        &&& 1 <= self.min_hold_millis <= self.max_hold_millis
        &&& 1 <= self.min_transition_in_millis <= self.max_transition_in_millis
        &&& 1 <= self.min_pause_millis <= self.max_pause_millis
        &&& 1 <= self.min_transition_out_millis <= self.max_transition_out_millis
    }
}

/// The compile-time table entry for an intensity level: 0 is a steady solid,
/// 1 a slow calm shimmer, 2 an erratic flicker.
pub open spec fn spec_hold_config(level: u8) -> HoldConfig {
    if level == 0 {
        HoldConfig {
            hold_value: 255,
            min_low_value: 255,
            max_low_value: 255,
            min_high_value: 255,
            max_high_value: 255,
            min_hold_millis: 1000,
            max_hold_millis: 1000,
            min_transition_in_millis: 1000,
            max_transition_in_millis: 1000,
            min_pause_millis: 1000,
            max_pause_millis: 1000,
            min_transition_out_millis: 1000,
            max_transition_out_millis: 1000,
            weight_choose_high: 128,
        }
    } else if level == 1 {
        HoldConfig {
            hold_value: 160,
            min_low_value: 32,
            max_low_value: 96,
            min_high_value: 192,
            max_high_value: 255,
            min_hold_millis: 2000,
            max_hold_millis: 3000,
            min_transition_in_millis: 1750,
            max_transition_in_millis: 2500,
            min_pause_millis: 2250,
            max_pause_millis: 2750,
            min_transition_out_millis: 1750,
            max_transition_out_millis: 2500,
            weight_choose_high: 128,
        }
    } else {
        HoldConfig {
            hold_value: 128,
            min_low_value: 0,
            max_low_value: 64,
            min_high_value: 192,
            max_high_value: 255,
            min_hold_millis: 200,
            max_hold_millis: 350,
            min_transition_in_millis: 750,
            max_transition_in_millis: 1000,
            min_pause_millis: 100,
            max_pause_millis: 200,
            min_transition_out_millis: 600,
            max_transition_out_millis: 1000,
            weight_choose_high: 128,
        }
    }
}

/// Look up the table entry for an intensity level.
pub fn hold_config_for(intensity: &WalkerIntensity) -> (r: HoldConfig)
    requires
        intensity.wf(),
    ensures
        r == spec_hold_config(intensity.0),
        r.wf(),
{
    if intensity.0 == 0 {
        HoldConfig {
            hold_value: 255,
            min_low_value: 255,
            max_low_value: 255,
            min_high_value: 255,
            max_high_value: 255,
            min_hold_millis: 1000,
            max_hold_millis: 1000,
            min_transition_in_millis: 1000,
            max_transition_in_millis: 1000,
            min_pause_millis: 1000,
            max_pause_millis: 1000,
            min_transition_out_millis: 1000,
            max_transition_out_millis: 1000,
            weight_choose_high: 128,
        }
    } else if intensity.0 == 1 {
        HoldConfig {
            hold_value: 160,
            min_low_value: 32,
            max_low_value: 96,
            min_high_value: 192,
            max_high_value: 255,
            min_hold_millis: 2000,
            max_hold_millis: 3000,
            min_transition_in_millis: 1750,
            max_transition_in_millis: 2500,
            min_pause_millis: 2250,
            max_pause_millis: 2750,
            min_transition_out_millis: 1750,
            max_transition_out_millis: 2500,
            weight_choose_high: 128,
        }
    } else {
        HoldConfig {
            hold_value: 128,
            min_low_value: 0,
            max_low_value: 64,
            min_high_value: 192,
            max_high_value: 255,
            min_hold_millis: 200,
            max_hold_millis: 350,
            min_transition_in_millis: 750,
            max_transition_in_millis: 1000,
            min_pause_millis: 100,
            max_pause_millis: 200,
            min_transition_out_millis: 600,
            max_transition_out_millis: 1000,
            weight_choose_high: 128,
        }
    }
}

/// The dwell range drawn when entering a phase: fading in, pausing, fading
/// out and holding each draw from their own configured range.
pub open spec fn spec_dwell_bounds(c: HoldConfig, entered: WalkerState) -> (u64, u64) {
    match entered {
        WalkerState::FadingInLow | WalkerState::FadingInHigh => (
            c.min_transition_in_millis,
            c.max_transition_in_millis,
        ),
        WalkerState::Low | WalkerState::High => (c.min_pause_millis, c.max_pause_millis),
        WalkerState::FadingOutLow | WalkerState::FadingOutHigh => (
            c.min_transition_out_millis,
            c.max_transition_out_millis,
        ),
        WalkerState::Holding => (c.min_hold_millis, c.max_hold_millis),
    }
}

/// One LED's animation state: its current phase, when it last changed
/// phase, the dwell planned for that phase, the randomly chosen target of
/// the current extreme, and the active intensity table entry.
#[derive(Clone, Copy, Debug)]
pub struct Walker {
    pub state: WalkerState,
    pub last_time: u64,
    pub time_in_state: u64,
    pub pause_value: u8,
    pub hold_config: HoldConfig,
}

/// The elapsed fraction of the current dwell as a byte: 0 right after a
/// phase change, 255 once the dwell has fully elapsed.
pub open spec fn spec_pct(w: Walker, now: u64) -> int {
    let e = now - w.last_time;
    if e >= w.time_in_state {
        255
    } else if 255 * e / (w.time_in_state as int) > 255 {
        255
    } else {
        255 * e / (w.time_in_state as int)
    }
}

/// The fade scalar a walker emits: the hold value while holding, the pause
/// target while paused at an extreme, and a linear interpolation between the
/// two while fading.
pub open spec fn spec_scalar(w: Walker, now: u64) -> int {
    match w.state {
        WalkerState::Holding => w.hold_config.hold_value as int,
        WalkerState::FadingInLow | WalkerState::FadingInHigh => spec_lerp8(
            w.hold_config.hold_value,
            w.pause_value,
            spec_pct(w, now) as u8,
        ),
        WalkerState::FadingOutLow | WalkerState::FadingOutHigh => spec_lerp8(
            w.pause_value,
            w.hold_config.hold_value,
            spec_pct(w, now) as u8,
        ),
        WalkerState::Low | WalkerState::High => w.pause_value as int,
    }
}

/// Bound invariant of the animation: whatever phase a well-formed walker is
/// in and whatever tick it is asked about, the fade scalar it emits lies
/// within `[0, 255]` — and while it holds, the scalar is exactly the table
/// entry's hold value.
pub proof fn lemma_walker_scalar_bounded(w: Walker, now: u64)
    requires
        w.wf(),
    ensures
        0 <= spec_scalar(w, now) <= 255,
        w.state == WalkerState::Holding ==> spec_scalar(w, now) == w.hold_config.hold_value,
{
    match w.state {
        WalkerState::FadingInLow | WalkerState::FadingInHigh => {
            crate::color::lemma_lerp8_bounds(
                w.hold_config.hold_value,
                w.pause_value,
                spec_pct(w, now) as u8,
            );
        },
        WalkerState::FadingOutLow | WalkerState::FadingOutHigh => {
            crate::color::lemma_lerp8_bounds(
                w.pause_value,
                w.hold_config.hold_value,
                spec_pct(w, now) as u8,
            );
        },
        _ => {},
    }
}

impl Walker {
    /// A well-formed walker has a well-formed table entry and a non-zero
    /// planned dwell.
    pub open spec fn wf(self) -> bool {
        &&& self.hold_config.wf()
        &&& 1 <= self.time_in_state
    }

    /// A walker before its first seeding: holding, with no dwell planned.
    fn new(now: u64) -> (r: Self)
        ensures
            r.state == WalkerState::Holding,
            r.last_time == now,
            r.hold_config == spec_hold_config(0),
    {
        Walker {
            state: WalkerState::Holding,
            last_time: now,
            time_in_state: 0,
            pause_value: 0,
            hold_config: hold_config_for(&WalkerIntensity(0)),
        }
    }

    /// Draw a fresh target value for the current extreme from the range the
    /// table entry configures for it.
    fn set_pause_value(&mut self, rng: &mut rand::rngs::SmallRng)
        requires
            old(self).hold_config.wf(),
        ensures
            final(self).state == old(self).state,
            final(self).last_time == old(self).last_time,
            final(self).time_in_state == old(self).time_in_state,
            final(self).hold_config == old(self).hold_config,
            old(self).state.spec_is_high() ==> old(self).hold_config.min_high_value <= final(self).pause_value <= old(self).hold_config.max_high_value,
            !old(self).state.spec_is_high() ==> old(self).hold_config.min_low_value <= final(self).pause_value <= old(self).hold_config.max_low_value,
    {
        let (lo, hi) = if self.state.is_high() {
            (self.hold_config.min_high_value, self.hold_config.max_high_value)
        } else {
            (self.hold_config.min_low_value, self.hold_config.max_low_value)
        };
        self.pause_value = rng_range_u8(rng, lo, hi);
    }

    /// Advance to the next phase of the cycle Holding → fade in → extreme →
    /// fade out → Holding; leaving Holding picks the high extreme with the
    /// configured weight and draws a fresh pause target, and every
    /// transition draws a new dwell from the entered phase's range.
    pub fn transition_state(&mut self, rng: &mut rand::rngs::SmallRng, now: u64)
        requires
            old(self).hold_config.wf(),
        ensures
            final(self).hold_config == old(self).hold_config,
            final(self).last_time == now,
            final(self).wf(),
            match old(self).state {
                WalkerState::Holding => final(self).state == WalkerState::FadingInHigh || final(self).state == WalkerState::FadingInLow,
                WalkerState::FadingInLow => final(self).state == WalkerState::Low,
                WalkerState::FadingInHigh => final(self).state == WalkerState::High,
                WalkerState::Low => final(self).state == WalkerState::FadingOutLow,
                WalkerState::High => final(self).state == WalkerState::FadingOutHigh,
                WalkerState::FadingOutLow | WalkerState::FadingOutHigh => final(self).state
                    == WalkerState::Holding,
            },
            ({
                let bounds = spec_dwell_bounds(old(self).hold_config, final(self).state);
                bounds.0 <= final(self).time_in_state <= bounds.1
            }),
            old(self).state != WalkerState::Holding ==> final(self).pause_value == old(self).pause_value,
            old(self).state == WalkerState::Holding ==> (if final(self).state.spec_is_high() {
                old(self).hold_config.min_high_value <= final(self).pause_value <= old(self).hold_config.max_high_value
            } else {
                old(self).hold_config.min_low_value <= final(self).pause_value <= old(self).hold_config.max_low_value
            }),
    {
        let config = self.hold_config;
        let min_millis: u64;
        let max_millis: u64;
        match self.state {
            WalkerState::Holding => {
                let draw = rng_next_u8(rng);
                self.state = if draw >= config.weight_choose_high {
                    WalkerState::FadingInHigh
                } else {
                    WalkerState::FadingInLow
                };
                self.set_pause_value(rng);
                min_millis = config.min_transition_in_millis;
                max_millis = config.max_transition_in_millis;
            },
            WalkerState::FadingInLow => {
                self.state = WalkerState::Low;
                min_millis = config.min_pause_millis;
                max_millis = config.max_pause_millis;
            },
            WalkerState::FadingInHigh => {
                self.state = WalkerState::High;
                min_millis = config.min_pause_millis;
                max_millis = config.max_pause_millis;
            },
            WalkerState::Low => {
                self.state = WalkerState::FadingOutLow;
                min_millis = config.min_transition_out_millis;
                max_millis = config.max_transition_out_millis;
            },
            WalkerState::High => {
                self.state = WalkerState::FadingOutHigh;
                min_millis = config.min_transition_out_millis;
                max_millis = config.max_transition_out_millis;
            },
            WalkerState::FadingOutLow | WalkerState::FadingOutHigh => {
                self.state = WalkerState::Holding;
                min_millis = config.min_hold_millis;
                max_millis = config.max_hold_millis;
            },
        }
        self.time_in_state = rng_range_u64(rng, min_millis, max_millis);
        self.last_time = now;
    }

    /// Re-seed one walker for a new intensity: adopt the intensity's table
    /// entry, restart pixel 0 deterministically on the fade-toward-low path
    /// and every other pixel in an independently random phase, then take the
    /// first transition so a fresh dwell is planned.
    pub fn update_walker(
        &mut self,
        intensity: &WalkerIntensity,
        rng: &mut rand::rngs::SmallRng,
        idx: usize,
        now: u64,
    )
        requires
            intensity.wf(),
        ensures
            final(self).wf(),
            final(self).hold_config == spec_hold_config(intensity.0),
            final(self).last_time == now,
            idx == 0 ==> final(self).state == WalkerState::Low,
    {
        self.hold_config = hold_config_for(intensity);
        self.state = if idx == 0 {
            WalkerState::FadingInLow
        } else {
            WalkerState::from_index(rng_range_u8(rng, 0, 6))
        };
        self.set_pause_value(rng);
        self.transition_state(rng, now);
    }

    /// How far the current dwell has elapsed, as a byte fraction.
    pub fn get_current_pct(&self, now: u64) -> (r: u8)
        requires
            self.wf(),
            now >= self.last_time,
        ensures
            r == spec_pct(*self, now),
    {
        let elapsed = now - self.last_time;
        if elapsed >= self.time_in_state {
            return 255;
        }
        let scaled: u128 = 255u128 * (elapsed as u128) / (self.time_in_state as u128);
        if scaled > 255 {
            255
        } else {
            scaled as u8
        }
    }

    /// Advance one tick: take the planned transition if the dwell has
    /// elapsed, then overwrite the LED with the target color faded by the
    /// emitted scalar. While the walker holds, the scalar is exactly the
    /// table entry's hold value.
    pub fn run_walker(
        &mut self,
        led: &mut Rgba8,
        color: &Rgba8,
        rng: &mut rand::rngs::SmallRng,
        now: u64,
    )
        requires
            old(self).wf(),
            now >= old(self).last_time,
        ensures
            final(self).wf(),
            final(self).hold_config == old(self).hold_config,
            now >= final(self).last_time,
            now - old(self).last_time <= old(self).time_in_state ==> *final(self) == *old(self),
            *final(led) == spec_fade_from(*color, spec_scalar(*final(self), now) as u8),
            final(self).state == WalkerState::Holding ==> *final(led) == spec_fade_from(
                *color,
                final(self).hold_config.hold_value,
            ),
    {
        if now - self.last_time > self.time_in_state {
            self.transition_state(rng, now);
        }
        let fade_pct = self.get_current_pct(now);
        let pct = match self.state {
            WalkerState::Holding => self.hold_config.hold_value,
            WalkerState::FadingInLow | WalkerState::FadingInHigh => crate::color::lerp8(
                self.hold_config.hold_value,
                self.pause_value,
                fade_pct,
            ),
            WalkerState::FadingOutLow | WalkerState::FadingOutHigh => crate::color::lerp8(
                self.pause_value,
                self.hold_config.hold_value,
                fade_pct,
            ),
            WalkerState::Low | WalkerState::High => self.pause_value,
        };
        led.fade_from(color, pct);
    }

    /// Create one walker per LED, all seeded for the given intensity;
    /// pixel 0 starts deterministically on the fade-toward-low path so the
    /// strip never lights up in lockstep.
    pub fn new_walkers(
        count: usize,
        intensity: &WalkerIntensity,
        rng: &mut rand::rngs::SmallRng,
        now: u64,
    ) -> (walkers: Vec<Walker>)
        requires
            intensity.wf(),
        ensures
            walkers@.len() == count,
            forall|i: int|
                0 <= i < count ==> {
                    &&& (#[trigger] walkers@[i]).wf()
                    &&& walkers@[i].hold_config == spec_hold_config(intensity.0)
                    &&& walkers@[i].last_time == now
                },
            count > 0 ==> walkers@[0].state == WalkerState::Low,
    {
        let mut walkers: Vec<Walker> = Vec::new();
        let mut i: usize = 0;
        while i < count
            invariant
                i <= count,
                walkers@.len() == i,
            decreases count - i,
        {
            walkers.push(Walker::new(now));
            i = i + 1;
        }
        Walker::update_walkers(&mut walkers, intensity, rng, now);
        walkers
    }

    /// Re-seed every walker for a new intensity.
    pub fn update_walkers(
        walkers: &mut Vec<Walker>,
        intensity: &WalkerIntensity,
        rng: &mut rand::rngs::SmallRng,
        now: u64,
    )
        requires
            intensity.wf(),
        ensures
            final(walkers)@.len() == old(walkers)@.len(),
            forall|i: int|
                0 <= i < final(walkers)@.len() ==> {
                    &&& (#[trigger] final(walkers)@[i]).wf()
                    &&& final(walkers)@[i].hold_config == spec_hold_config(intensity.0)
                    &&& final(walkers)@[i].last_time == now
                },
            final(walkers)@.len() > 0 ==> final(walkers)@[0].state == WalkerState::Low,
    {
        let mut idx: usize = 0;
        while idx < walkers.len()
            invariant
                idx <= walkers@.len(),
                walkers@.len() == old(walkers)@.len(),
                intensity.wf(),
                forall|i: int|
                    0 <= i < idx ==> {
                        &&& (#[trigger] walkers@[i]).wf()
                        &&& walkers@[i].hold_config == spec_hold_config(intensity.0)
                        &&& walkers@[i].last_time == now
                    },
                walkers@.len() > 0 && idx > 0 ==> walkers@[0].state == WalkerState::Low,
            decreases walkers.len() - idx,
        {
            let mut w = walkers[idx];
            w.update_walker(intensity, rng, idx, now);
            walkers[idx] = w;
            idx = idx + 1;
        }
    }

    /// Advance every walker one tick, writing each LED of the frame.
    pub fn run_walkers(
        data: &mut Vec<Rgba8>,
        walkers: &mut Vec<Walker>,
        color: &Rgba8,
        rng: &mut rand::rngs::SmallRng,
        now: u64,
    )
        requires
            old(data)@.len() == old(walkers)@.len(),
            forall|i: int|
                0 <= i < old(walkers)@.len() ==> (#[trigger] old(walkers)@[i]).wf() && now >= old(walkers)@[i].last_time,
        ensures
            final(data)@.len() == old(data)@.len(),
            final(walkers)@.len() == old(walkers)@.len(),
            forall|i: int|
                0 <= i < final(walkers)@.len() ==> {
                    &&& (#[trigger] final(walkers)@[i]).wf()
                    &&& now >= final(walkers)@[i].last_time
                    &&& final(walkers)@[i].hold_config == old(walkers)@[i].hold_config
                },
            forall|i: int|
                0 <= i < final(data)@.len() ==> #[trigger] final(data)@[i] == spec_fade_from(
                    *color,
                    spec_scalar(final(walkers)@[i], now) as u8,
                ),
    {
        let n = walkers.len();
        let mut idx: usize = 0;
        while idx < n
            invariant
                idx <= n,
                n == walkers@.len(),
                walkers@.len() == old(walkers)@.len(),
                data@.len() == old(data)@.len(),
                data@.len() == walkers@.len(),
                forall|i: int|
                    idx <= i < walkers@.len() ==> (#[trigger] walkers@[i]).wf()
                        && now >= walkers@[i].last_time && walkers@[i] == old(walkers)@[i],
                forall|i: int|
                    0 <= i < idx ==> {
                        &&& (#[trigger] walkers@[i]).wf()
                        &&& now >= walkers@[i].last_time
                        &&& walkers@[i].hold_config == old(walkers)@[i].hold_config
                    },
                forall|i: int|
                    0 <= i < idx ==> #[trigger] data@[i] == spec_fade_from(
                        *color,
                        spec_scalar(walkers@[i], now) as u8,
                    ),
            decreases n - idx,
        {
            let mut w = walkers[idx];
            let mut led = data[idx];
            w.run_walker(&mut led, color, rng, now);
            walkers[idx] = w;
            data[idx] = led;
            idx = idx + 1;
        }
    }
}

} // verus!
