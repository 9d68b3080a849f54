//! The per-tick render pipeline: refresh the target snapshot, ease the
//! displayed snapshot toward it, run the walkers, cross-fade after a mode
//! change, and scale and gamma-correct the finished frame.

use vstd::prelude::*;

use crate::color::{spec_lerp_from, spec_post_process, Rgba8};
use crate::store::{step_toward_store, update_store, SharedStore, Store};
use crate::walker::{spec_hold_config, Walker};

verus! {

/// Number of LEDs on the strip.
pub const LED_COUNT: usize = 5;

/// Milliseconds between two render ticks.
pub const TICK_RATE_IN_MS: u64 = 10;

/// Turn every pixel of the frame off.
pub fn set_off(data: &mut Vec<Rgba8>)
    ensures
        final(data)@.len() == old(data)@.len(),
        forall|i: int|
            0 <= i < final(data)@.len() ==> #[trigger] final(data)@[i] == (Rgba8 {
                r: 0,
                g: 0,
                b: 0,
                a: 0,
            }),
{
    let n = data.len();
    let mut i: usize = 0;
    while i < n
        invariant
            i <= n,
            n == data@.len(),
            data@.len() == old(data)@.len(),
            forall|j: int|
                0 <= j < i ==> #[trigger] data@[j] == (Rgba8 { r: 0, g: 0, b: 0, a: 0 }),
        decreases n - i,
    {
        data[i] = Rgba8 { r: 0, g: 0, b: 0, a: 0 };
        i = i + 1;
    }
}

/// Blend the previous frame into the new one: at a low cross-fade progress
/// the old frame still dominates, at 255 the new frame stands alone.
pub fn lerp_with_last(pct: u8, data: &mut Vec<Rgba8>, last_data: &Vec<Rgba8>)
    requires
        old(data)@.len() == last_data@.len(),
    ensures
        final(data)@.len() == old(data)@.len(),
        forall|i: int|
            0 <= i < final(data)@.len() ==> #[trigger] final(data)@[i] == spec_lerp_from(
                old(data)@[i],
                last_data@[i],
                pct,
            ),
{
    let n = data.len();
    let mut i: usize = 0;
    while i < n
        invariant
            i <= n,
            n == data@.len(),
            data@.len() == old(data)@.len(),
            data@.len() == last_data@.len(),
            forall|j: int| i <= j < data@.len() ==> #[trigger] data@[j] == old(data)@[j],
            forall|j: int|
                0 <= j < i ==> #[trigger] data@[j] == spec_lerp_from(
                    old(data)@[j],
                    last_data@[j],
                    pct,
                ),
        decreases n - i,
    {
        let mut current = data[i];
        current.lerp_from(&last_data[i], pct);
        data[i] = current;
        i = i + 1;
    }
}

/// The fixed gamma lookup table applied to every channel before a frame is
/// emitted.
pub fn gamma8() -> [u8; 256] {
    [
        0, 0, 0, 0, 0, 0, 0, 0, 0, 0, 0, 0, 0, 0, 0, 0, 0, 0, 0, 0, 0, 0, 0, 0, 0, 0, 0, 0, 1, 1,
        1, 1, 1, 1, 1, 1, 1, 1, 1, 1, 1, 2, 2, 2, 2, 2, 2, 2, 2, 3, 3, 3, 3, 3, 3, 3, 4, 4, 4, 4,
        4, 5, 5, 5, 5, 6, 6, 6, 6, 7, 7, 7, 7, 8, 8, 8, 9, 9, 9, 10, 10, 10, 11, 11, 11, 12, 12,
        13, 13, 13, 14, 14, 15, 15, 16, 16, 17, 17, 18, 18, 19, 19, 20, 20, 21, 21, 22, 22, 23,
        24, 24, 25, 25, 26, 27, 27, 28, 29, 29, 30, 31, 32, 32, 33, 34, 35, 35, 36, 37, 38, 39,
        39, 40, 41, 42, 43, 44, 45, 46, 47, 48, 49, 50, 50, 51, 52, 54, 55, 56, 57, 58, 59, 60,
        61, 62, 63, 64, 66, 67, 68, 69, 70, 72, 73, 74, 75, 77, 78, 79, 81, 82, 83, 85, 86, 87,
        89, 90, 92, 93, 95, 96, 98, 99, 101, 102, 104, 105, 107, 109, 110, 112, 114, 115, 117,
        119, 120, 122, 124, 126, 127, 129, 131, 133, 135, 137, 138, 140, 142, 144, 146, 148, 150,
        152, 154, 156, 158, 160, 162, 164, 167, 169, 171, 173, 175, 177, 180, 182, 184, 186, 189,
        191, 193, 196, 198, 200, 203, 205, 208, 210, 213, 215, 218, 220, 223, 225, 228, 231, 233,
        236, 239, 241, 244, 247, 249, 252, 255,
    ]
}

/// Scale the finished frame by the displayed brightness and gamma-correct
/// it into the output buffer.
pub fn post_process(
    frame_buffer: &mut Vec<Rgba8>,
    data_buffer: &Vec<Rgba8>,
    brightness: u8,
    gamma: &[u8; 256],
)
    requires
        old(frame_buffer)@.len() == data_buffer@.len(),
    ensures
        final(frame_buffer)@.len() == old(frame_buffer)@.len(),
        forall|i: int|
            0 <= i < final(frame_buffer)@.len() ==> #[trigger] final(frame_buffer)@[i]
                == spec_post_process(data_buffer@[i], brightness, gamma@),
{
    let n = frame_buffer.len();
    let mut i: usize = 0;
    while i < n
        invariant
            i <= n,
            n == frame_buffer@.len(),
            frame_buffer@.len() == old(frame_buffer)@.len(),
            frame_buffer@.len() == data_buffer@.len(),
            forall|j: int|
                0 <= j < i ==> #[trigger] frame_buffer@[j] == spec_post_process(
                    data_buffer@[j],
                    brightness,
                    gamma@,
                ),
        decreases n - i,
    {
        let mut out_led = frame_buffer[i];
        out_led.post_process(&data_buffer[i], brightness, gamma);
        frame_buffer[i] = out_led;
        i = i + 1;
    }
}

/// Remember the outgoing frame so a mode change can cross-fade out of it.
fn copy_frame(dst: &mut Vec<Rgba8>, src: &Vec<Rgba8>)
    requires
        old(dst)@.len() == src@.len(),
    ensures
        final(dst)@ == src@,
{
    let n = dst.len();
    let mut i: usize = 0;
    while i < n
        invariant
            i <= n,
            n == dst@.len(),
            dst@.len() == src@.len(),
            forall|j: int| 0 <= j < i ==> #[trigger] dst@[j] == src@[j],
        decreases n - i,
    {
        dst[i] = src[i];
        i = i + 1;
    }
    proof {
        assert(dst@ =~= src@);
    }
}

/// One render tick: read the shared fields into the target snapshot, ease
/// the displayed snapshot toward it — re-seeding the walkers and saving the
/// outgoing frame when the intensity changed — then run every walker,
/// cross-fade with the previous frame while a mode fade is under way, and
/// scale and gamma-correct the result into the output buffer.
pub fn render_tick(
    shared: &SharedStore,
    target_store: &mut Store,
    local_store: &mut Store,
    walkers: &mut Vec<Walker>,
    data: &mut Vec<Rgba8>,
    last_data: &mut Vec<Rgba8>,
    frame: &mut Vec<Rgba8>,
    gamma: &[u8; 256],
    rng: &mut rand::rngs::SmallRng,
    now: u64,
) -> (mode_changed: bool)
    requires
        shared.wf(),
        old(local_store).wf(),
        old(data)@.len() == old(walkers)@.len(),
        old(last_data)@.len() == old(data)@.len(),
        old(frame)@.len() == old(data)@.len(),
        forall|i: int|
            0 <= i < old(walkers)@.len() ==> (#[trigger] old(walkers)@[i]).wf() && now >= old(
                walkers,
            )@[i].last_time,
    ensures
        final(local_store).wf(),
        final(data)@.len() == old(data)@.len(),
        final(last_data)@.len() == old(last_data)@.len(),
        final(frame)@.len() == old(frame)@.len(),
        final(walkers)@.len() == old(walkers)@.len(),
        forall|i: int|
            0 <= i < final(walkers)@.len() ==> (#[trigger] final(walkers)@[i]).wf() && now
                >= final(walkers)@[i].last_time,
        mode_changed == (crate::walker::spec_intensity_from(shared.value) != old(
            local_store,
        ).value.intensity),
        mode_changed ==> final(local_store).value.intensity
            == crate::walker::spec_intensity_from(shared.value),
        mode_changed ==> forall|i: int|
            0 <= i < final(walkers)@.len() ==> (#[trigger] final(walkers)@[i]).hold_config
                == spec_hold_config(final(local_store).value.intensity.0),
        !mode_changed ==> forall|i: int|
            0 <= i < final(walkers)@.len() ==> (#[trigger] final(walkers)@[i]).hold_config
                == old(walkers)@[i].hold_config,
        final(local_store).value.pct == 255 ==> forall|i: int|
            0 <= i < final(data)@.len() ==> #[trigger] final(data)@[i]
                == crate::color::spec_fade_from(
                final(local_store).color,
                crate::walker::spec_scalar(final(walkers)@[i], now) as u8,
            ),
        forall|i: int|
            0 <= i < final(frame)@.len() ==> #[trigger] final(frame)@[i] == spec_post_process(
                final(data)@[i],
                final(local_store).brightness,
                gamma@,
            ),
{
    update_store(shared, target_store);
    let mut mode_changed = false;
    if *target_store != *local_store {
        if step_toward_store(target_store, local_store) {
            mode_changed = true;
            Walker::update_walkers(walkers, &local_store.value.intensity, rng, now);
            copy_frame(last_data, data);
        }
    }
    Walker::run_walkers(data, walkers, &local_store.color, rng, now);
    if local_store.value.pct < 255 {
        lerp_with_last(local_store.value.pct, data, last_data);
    }
    post_process(frame, data, local_store.brightness, gamma);
    mode_changed
}

} // verus!
