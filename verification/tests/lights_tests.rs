use rand::rngs::SmallRng;
use rand::SeedableRng;

use lamp::color::Rgba8;
use lamp::lights::{
    gamma8, lerp_with_last, post_process, render_tick, set_off, LED_COUNT, TICK_RATE_IN_MS,
};
use lamp::store::{get_store, SharedStore};
use lamp::walker::{Walker, WalkerIntensity, WALKER_FADE_IN_STEP};

#[test]
fn set_off_clears_every_pixel() {
    let mut data = vec![Rgba8 { r: 9, g: 9, b: 9, a: 9 }; LED_COUNT];
    set_off(&mut data);
    for led in &data {
        assert_eq!(*led, Rgba8 { r: 0, g: 0, b: 0, a: 0 });
    }
}

#[test]
fn gamma_table_endpoints() {
    let g = gamma8();
    assert_eq!(g[0], 0);
    assert_eq!(g[100], 19);
    assert_eq!(g[255], 255);
}

#[test]
fn cross_fade_blends_frames() {
    let last = vec![Rgba8 { r: 100, g: 0, b: 200, a: 0 }; 3];
    let mut data = vec![Rgba8 { r: 0, g: 50, b: 200, a: 255 }; 3];
    lerp_with_last(0, &mut data, &last);
    assert_eq!(data, last);
    let mut data = vec![Rgba8 { r: 0, g: 50, b: 200, a: 255 }; 3];
    lerp_with_last(255, &mut data, &last);
    assert_eq!(data, vec![Rgba8 { r: 0, g: 50, b: 200, a: 255 }; 3]);
}

#[test]
fn post_process_scales_then_gamma_corrects() {
    let g = gamma8();
    let data = vec![Rgba8 { r: 255, g: 100, b: 0, a: 255 }; 2];
    let mut frame = vec![Rgba8 { r: 1, g: 1, b: 1, a: 1 }; 2];
    post_process(&mut frame, &data, 255, &g);
    // full brightness keeps the channels, then the table corrects them
    assert_eq!(frame[0], Rgba8 { r: 255, g: 19, b: 0, a: 255 });
    let mut frame = vec![Rgba8 { r: 1, g: 1, b: 1, a: 1 }; 2];
    post_process(&mut frame, &data, 0, &g);
    assert_eq!(frame[0], Rgba8 { r: 0, g: 0, b: 0, a: 0 });
}

#[test]
fn render_tick_steady_state_solid_white() {
    // intensity 0 holds every walker at full scale, so the frame is the
    // decoded warm white under the gamma curve
    let shared = SharedStore { brightness: 255, color: 0, value: 0, is_on: true };
    let mut rng = SmallRng::seed_from_u64(3);
    let mut target = get_store(&shared);
    let mut local = get_store(&shared);
    let mut walkers = Walker::new_walkers(LED_COUNT, &WalkerIntensity(0), &mut rng, 0);
    let gamma = gamma8();
    let mut data = vec![Rgba8 { r: 0, g: 0, b: 0, a: 0 }; LED_COUNT];
    let mut last = data.clone();
    let mut frame = data.clone();
    for tick in 1..=10u64 {
        let changed = render_tick(
            &shared,
            &mut target,
            &mut local,
            &mut walkers,
            &mut data,
            &mut last,
            &mut frame,
            &gamma,
            &mut rng,
            tick * TICK_RATE_IN_MS,
        );
        assert!(!changed);
        for led in &frame {
            assert_eq!(*led, Rgba8 { r: 0, g: 0, b: 0, a: 255 });
        }
    }
}

#[test]
fn render_tick_reports_intensity_change() {
    let shared = SharedStore { brightness: 255, color: 0, value: 0, is_on: true };
    let mut rng = SmallRng::seed_from_u64(3);
    let mut target = get_store(&shared);
    let mut local = get_store(&shared);
    let mut walkers = Walker::new_walkers(LED_COUNT, &WalkerIntensity(0), &mut rng, 0);
    let gamma = gamma8();
    let mut data = vec![Rgba8 { r: 0, g: 0, b: 0, a: 0 }; LED_COUNT];
    let mut last = data.clone();
    let mut frame = data.clone();
    let shared = SharedStore { value: 1, ..shared };
    let changed = render_tick(
        &shared,
        &mut target,
        &mut local,
        &mut walkers,
        &mut data,
        &mut last,
        &mut frame,
        &gamma,
        &mut rng,
        10,
    );
    assert!(changed);
    assert_eq!(local.value.intensity, WalkerIntensity(1));
    assert_eq!(local.value.pct, WALKER_FADE_IN_STEP);
    for w in &walkers {
        assert_eq!(w.hold_config, lamp::walker::hold_config_for(&WalkerIntensity(1)));
    }
}
