//! The shared configuration store: the independently updated fields the
//! manager mutates, the fixed-width record they persist to, and the eased
//! snapshot the render loop displays.

use vstd::prelude::*;

use crate::color::{
    spec_color_of_index, spec_walk_toward, Rgba8, COLOR_MAX,
};
use crate::walker::{
    spec_intensity_from, WalkerIntensity, WalkerSetting, WALKER_FADE_IN_STEP,
    WALKER_INTENSITY_MAX,
};

verus! {

/// How far one encoder detent moves the brightness.
pub const BRIGHTNESS_INCREMENT: u8 = 16;

/// Divisor of the remaining distance used when easing the brightness.
pub const BRIGHTNESS_EASE_STEP: u8 = 16;

/// Width in bytes of the persisted record.
pub const STORE_RECORD_LEN: usize = 3;

/// The process-wide configuration fields. Each field is updated on its own;
/// a reader may see a mix of old and new fields for one frame, which is an
/// accepted trade-off of the design.
#[derive(PartialEq, Eq, Structural, Clone, Copy, Debug)]
pub struct SharedStore {
    pub brightness: u8,
    pub color: u8,
    pub value: u8,
    pub is_on: bool,
}

impl SharedStore {
    /// The bounded fields stay within their legal domains.
    pub open spec fn wf(self) -> bool {
        self.color <= COLOR_MAX && self.value <= WALKER_INTENSITY_MAX
    }

    /// The factory defaults: full brightness, warm white, solid animation,
    /// switched on.
    pub open spec fn spec_default() -> SharedStore {
        SharedStore { brightness: 255, color: 0, value: 0, is_on: true }
    }
}

impl Default for SharedStore {
    /// The factory defaults.
    fn default() -> (r: Self)
        ensures
            r == SharedStore::spec_default(),
            r.wf(),
    {
        SharedStore { brightness: 255, color: 0, value: 0, is_on: true }
    }
}

/// Put every field back to its factory default.
pub fn reset_state(store: &mut SharedStore)
    ensures
        *final(store) == SharedStore::spec_default(),
        final(store).wf(),
{
    store.brightness = 255;
    store.color = 0;
    store.value = 0;
    store.is_on = true;
}

/// The brightness one detent yields: a fixed step up or down, saturating at
/// the ends of the byte range instead of wrapping.
pub open spec fn spec_update_brightness(b: u8, is_increment: bool) -> u8 {
    if is_increment {
        if b + BRIGHTNESS_INCREMENT > 255 {
            255u8
        } else {
            (b + BRIGHTNESS_INCREMENT) as u8
        }
    } else {
        if b < BRIGHTNESS_INCREMENT {
            0u8
        } else {
            (b - BRIGHTNESS_INCREMENT) as u8
        }
    }
}

/// The index one detent yields for a field that wraps within `[0, max]`:
/// stepping up from `max` lands on 0, stepping down from 0 lands on `max`.
pub open spec fn spec_wrap_increment(v: u8, max: u8, is_increment: bool) -> u8 {
    if is_increment {
        if v >= max {
            0u8
        } else {
            (v + 1) as u8
        }
    } else {
        if v == 0 {
            max
        } else {
            (v - 1) as u8
        }
    }
}

/// Step the brightness by one detent, saturating at 0 and 255.
pub fn update_brightness(store: &mut SharedStore, is_increment: bool)
    ensures
        final(store).brightness == spec_update_brightness(old(store).brightness, is_increment),
        final(store).color == old(store).color,
        final(store).value == old(store).value,
        final(store).is_on == old(store).is_on,
{
    let brightness = store.brightness;
    store.brightness = if is_increment {
        brightness.saturating_add(BRIGHTNESS_INCREMENT)
    } else {
        brightness.saturating_sub(BRIGHTNESS_INCREMENT)
    };
}

/// Step the color index by one detent, wrapping within `[0, COLOR_MAX]`.
pub fn update_color(store: &mut SharedStore, is_increment: bool)
    requires
        old(store).wf(),
    ensures
        final(store).color == spec_wrap_increment(old(store).color, COLOR_MAX, is_increment),
        final(store).brightness == old(store).brightness,
        final(store).value == old(store).value,
        final(store).is_on == old(store).is_on,
        final(store).wf(),
{
    let old_color = store.color;
    store.color = if is_increment {
        if old_color >= COLOR_MAX {
            0
        } else {
            old_color + 1
        }
    } else {
        if old_color == 0 {
            COLOR_MAX
        } else {
            old_color - 1
        }
    };
}

/// Step the animation value by one detent, wrapping within
/// `[0, WALKER_INTENSITY_MAX]`.
pub fn update_value(store: &mut SharedStore, is_increment: bool)
    requires
        old(store).wf(),
    ensures
        final(store).value == spec_wrap_increment(
            old(store).value,
            WALKER_INTENSITY_MAX,
            is_increment,
        ),
        final(store).brightness == old(store).brightness,
        final(store).color == old(store).color,
        final(store).is_on == old(store).is_on,
        final(store).wf(),
{
    let old_value = store.value;
    store.value = if is_increment {
        if old_value >= WALKER_INTENSITY_MAX {
            0
        } else {
            old_value + 1
        }
    } else {
        if old_value == 0 {
            WALKER_INTENSITY_MAX
        } else {
            old_value - 1
        }
    };
}

/// Record the position the on/off switch settled at.
pub fn update_on(store: &mut SharedStore, is_on: bool)
    ensures
        final(store).is_on == is_on,
        final(store).brightness == old(store).brightness,
        final(store).color == old(store).color,
        final(store).value == old(store).value,
{
    store.is_on = is_on;
}

/// The fixed-width record the store serializes to:
/// `[brightness, color index, animation value]`.
pub open spec fn spec_encode(s: SharedStore) -> Seq<u8> {
    seq![s.brightness, s.color, s.value]
}

/// Serialize the persisted fields into the fixed-width record.
pub fn to_vec(store: &SharedStore) -> (out: Vec<u8>)
    ensures
        out@ == spec_encode(*store),
        out@.len() == STORE_RECORD_LEN,
{
    let mut out: Vec<u8> = Vec::new();
    out.push(store.brightness);
    out.push(store.color);
    out.push(store.value);
    proof {
        assert(out@ =~= spec_encode(*store));
    }
    out
}

/// A byte clamped into `[0, max]`.
pub open spec fn spec_clamp(v: u8, max: u8) -> u8 {
    if v > max {
        max
    } else {
        v
    }
}

/// The store a well-formed record decodes to: the brightness byte is taken
/// as is, the bounded fields are clamped into their domains, and the
/// unpersisted switch flag keeps its previous value.
pub open spec fn spec_decode(s: SharedStore, data: Seq<u8>) -> SharedStore {
    SharedStore {
        brightness: data[0],
        color: spec_clamp(data[1], COLOR_MAX),
        value: spec_clamp(data[2], WALKER_INTENSITY_MAX),
        is_on: s.is_on,
    }
}

/// Decode a record into the store, clamping each bounded field so that a
/// corrupted-but-plausible byte can never push a field out of its domain.
pub fn from_bytes(store: &mut SharedStore, data: &Vec<u8>)
    requires
        data@.len() == STORE_RECORD_LEN,
    ensures
        *final(store) == spec_decode(*old(store), data@),
        final(store).wf(),
{
    store.brightness = data[0];
    store.color = if data[1] > COLOR_MAX {
        COLOR_MAX
    } else {
        data[1]
    };
    store.value = if data[2] > WALKER_INTENSITY_MAX {
        WALKER_INTENSITY_MAX
    } else {
        data[2]
    };
}

/// What the log store handed back for the record key.
#[derive(Debug)]
pub enum FetchOutcome {
    /// A record was present; it may still have the wrong length.
    Present(Vec<u8>),
    /// No record was stored under the key.
    Missing,
    /// The backing storage failed or the record could not be read.
    ReadError,
}

/// Interpret a fetched persisted record. A well-formed record is decoded
/// into the store; an absent, corrupt or wrong-length record resets the
/// store to factory defaults, and the returned flag asks the caller to erase
/// the backing region.
pub fn load_store(store: &mut SharedStore, fetched: &FetchOutcome) -> (erase: bool)
    ensures
        match fetched {
            FetchOutcome::Present(data) => {
                if data@.len() == STORE_RECORD_LEN {
                    !erase && *final(store) == spec_decode(*old(store), data@)
                } else {
                    erase && *final(store) == SharedStore::spec_default()
                }
            },
            _ => erase && *final(store) == SharedStore::spec_default(),
        },
        final(store).wf(),
{
    match fetched {
        FetchOutcome::Present(data) => {
            if data.len() == STORE_RECORD_LEN {
                from_bytes(store, data);
                return false;
            }
        },
        _ => {},
    }
    reset_state(store);
    true
}

/// Round trip of the persistence format: a store whose fields are within
/// their domains decodes from its own record bit-identically, whatever store
/// the record is decoded over.
pub proof fn lemma_store_roundtrip(s: SharedStore, over: SharedStore)
    requires
        s.wf(),
        over.is_on == s.is_on,
    ensures
        spec_decode(over, spec_encode(s)) == s,
{
}

/// An owned snapshot of the configuration: the brightness, the decoded
/// color, and the animation setting with its cross-fade progress.
#[derive(PartialEq, Eq, Structural, Clone, Copy, Debug)]
pub struct Store {
    pub brightness: u8,
    pub color: Rgba8,
    pub value: WalkerSetting,
}

impl Store {
    /// The intensity of a snapshot stays within its legal range.
    pub open spec fn wf(self) -> bool {
        self.value.intensity.wf()
    }
}

/// Read a fresh snapshot of the shared fields, decoding the color index and
/// marking the cross-fade as complete.
pub fn get_store(shared: &SharedStore) -> (r: Store)
    requires
        shared.wf(),
    ensures
        r.brightness == shared.brightness,
        r.color == spec_color_of_index(shared.color),
        r.value.intensity == spec_intensity_from(shared.value),
        r.value.pct == 255,
        r.wf(),
{
    let mut color = Rgba8 { r: 0, b: 0, g: 0, a: 0 };
    color.from_u16(shared.color);
    let value = WalkerSetting { intensity: WalkerIntensity::from(shared.value), pct: 255 };
    Store { brightness: shared.brightness, color, value }
}

/// Refresh a target snapshot from the shared fields, leaving its cross-fade
/// progress untouched.
pub fn update_store(shared: &SharedStore, store: &mut Store)
    requires
        shared.wf(),
    ensures
        final(store).brightness == shared.brightness,
        final(store).color == spec_color_of_index(shared.color),
        final(store).value.intensity == spec_intensity_from(shared.value),
        final(store).value.pct == old(store).value.pct,
        final(store).wf(),
{
    store.brightness = shared.brightness;
    store.color.from_u16(shared.color);
    store.value.intensity = WalkerIntensity::from(shared.value);
}

/// Move the displayed snapshot one tick toward the target: brightness and
/// color by an eased step, the animation setting immediately — an intensity
/// change restarts the cross-fade and is reported to the caller so the
/// walkers can be re-seeded.
pub fn step_toward_store(target_store: &Store, local_store: &mut Store) -> (mode_changed: bool)
    ensures
        mode_changed == (target_store.value.intensity != old(local_store).value.intensity),
        final(local_store).brightness == (if target_store.brightness != old(
            local_store,
        ).brightness {
            crate::color::spec_eased_step(
                old(local_store).brightness,
                target_store.brightness,
                BRIGHTNESS_EASE_STEP,
            ) as u8
        } else {
            old(local_store).brightness
        }),
        final(local_store).color == (if target_store.color != old(local_store).color {
            spec_walk_toward(old(local_store).color, target_store.color)
        } else {
            old(local_store).color
        }),
        final(local_store).value == (if mode_changed {
            WalkerSetting { intensity: target_store.value.intensity, pct: WALKER_FADE_IN_STEP }
        } else if old(local_store).value.pct < 255 {
            WalkerSetting {
                intensity: old(local_store).value.intensity,
                pct: old(local_store).value.pct.saturating_add(WALKER_FADE_IN_STEP),
            }
        } else {
            old(local_store).value
        }),
{
    if target_store.brightness != local_store.brightness {
        let new_brightness = crate::color::eased_step(
            local_store.brightness,
            target_store.brightness,
            BRIGHTNESS_EASE_STEP,
        );
        local_store.brightness = new_brightness;
    }
    if target_store.color != local_store.color {
        local_store.color.walk_toward(&target_store.color);
    }
    if target_store.value.intensity != local_store.value.intensity {
        local_store.value.intensity = target_store.value.intensity;
        local_store.value.pct = WALKER_FADE_IN_STEP;
        return true;
    } else if local_store.value.pct < 255 {
        local_store.value.pct = local_store.value.pct.saturating_add(WALKER_FADE_IN_STEP);
    }
    false
}

} // verus!
