use lamp::color::{Rgba8, COLOR_MAX};
use lamp::store::{
    from_bytes, get_store, load_store, reset_state, step_toward_store, to_vec, update_brightness,
    update_color, update_on, update_store, update_value, FetchOutcome, SharedStore, Store,
};
use lamp::walker::{WalkerIntensity, WalkerSetting, WALKER_INTENSITY_MAX};

fn default_store() -> SharedStore {
    SharedStore { brightness: 255, color: 0, value: 0, is_on: true }
}

#[test]
fn reset_state_restores_factory_defaults() {
    let mut s = SharedStore { brightness: 1, color: 20, value: 2, is_on: false };
    reset_state(&mut s);
    assert_eq!(s, default_store());
}

#[test]
fn brightness_saturates_at_top() {
    // P3: incrementing at 255 stays at 255
    let mut s = default_store();
    update_brightness(&mut s, true);
    assert_eq!(s.brightness, 255);
    s.brightness = 245;
    update_brightness(&mut s, true);
    assert_eq!(s.brightness, 255);
}

#[test]
fn brightness_saturates_at_bottom() {
    let mut s = default_store();
    s.brightness = 10;
    update_brightness(&mut s, false);
    assert_eq!(s.brightness, 0);
    update_brightness(&mut s, false);
    assert_eq!(s.brightness, 0);
}

#[test]
fn brightness_steps_by_increment() {
    let mut s = default_store();
    s.brightness = 100;
    update_brightness(&mut s, true);
    assert_eq!(s.brightness, 116);
    update_brightness(&mut s, false);
    assert_eq!(s.brightness, 100);
}

#[test]
fn color_wraps_at_max() {
    // P3: incrementing at COLOR_MAX wraps to 0
    let mut s = default_store();
    s.color = COLOR_MAX;
    update_color(&mut s, true);
    assert_eq!(s.color, 0);
}

#[test]
fn color_wraps_at_zero() {
    // P3: decrementing at 0 wraps to COLOR_MAX
    let mut s = default_store();
    update_color(&mut s, false);
    assert_eq!(s.color, COLOR_MAX);
}

#[test]
fn value_wraps_both_ways() {
    let mut s = default_store();
    s.value = WALKER_INTENSITY_MAX;
    update_value(&mut s, true);
    assert_eq!(s.value, 0);
    update_value(&mut s, false);
    assert_eq!(s.value, WALKER_INTENSITY_MAX);
    update_value(&mut s, false);
    assert_eq!(s.value, 1);
}

#[test]
fn update_on_touches_only_the_flag() {
    let mut s = default_store();
    update_on(&mut s, false);
    assert_eq!(s, SharedStore { is_on: false, ..default_store() });
}

#[test]
fn record_layout_is_three_bytes() {
    let s = SharedStore { brightness: 200, color: 5, value: 1, is_on: true };
    assert_eq!(to_vec(&s), vec![200, 5, 1]);
}

#[test]
fn save_then_load_round_trips() {
    // P5 scenario: save() followed by load() yields bit-identical fields
    let saved = SharedStore { brightness: 200, color: 5, value: 1, is_on: true };
    let record = to_vec(&saved);
    let mut restored = default_store();
    let erase = load_store(&mut restored, &FetchOutcome::Present(record));
    assert!(!erase);
    assert_eq!(restored, saved);
}

#[test]
fn round_trip_over_whole_domain() {
    for color in 0..=COLOR_MAX {
        for value in 0..=WALKER_INTENSITY_MAX {
            let saved = SharedStore { brightness: 77, color, value, is_on: true };
            let mut restored = default_store();
            let erase = load_store(&mut restored, &FetchOutcome::Present(to_vec(&saved)));
            assert!(!erase);
            assert_eq!(restored, saved);
        }
    }
}

#[test]
fn wrong_length_record_resets_to_defaults() {
    // P6: a record of wrong length resets the store and asks for an erase
    let mut s = SharedStore { brightness: 9, color: 9, value: 1, is_on: true };
    let erase = load_store(&mut s, &FetchOutcome::Present(vec![1, 2]));
    assert!(erase);
    assert_eq!(s, default_store());
    let erase = load_store(&mut s, &FetchOutcome::Present(vec![1, 2, 3, 4]));
    assert!(erase);
    assert_eq!(s, default_store());
}

#[test]
fn read_error_resets_to_defaults() {
    // P6: a read error resets the store and does not panic
    let mut s = SharedStore { brightness: 9, color: 9, value: 1, is_on: true };
    let erase = load_store(&mut s, &FetchOutcome::ReadError);
    assert!(erase);
    assert_eq!(s, default_store());
}

#[test]
fn missing_record_resets_to_defaults() {
    let mut s = SharedStore { brightness: 9, color: 9, value: 1, is_on: true };
    let erase = load_store(&mut s, &FetchOutcome::Missing);
    assert!(erase);
    assert_eq!(s, default_store());
}

#[test]
fn out_of_range_bytes_are_clamped() {
    let mut s = default_store();
    from_bytes(&mut s, &vec![10, 200, 9]);
    assert_eq!(s.brightness, 10);
    assert_eq!(s.color, COLOR_MAX);
    assert_eq!(s.value, WALKER_INTENSITY_MAX);
}

#[test]
fn get_store_decodes_fields() {
    let shared = SharedStore { brightness: 80, color: 0, value: 1, is_on: true };
    let snap = get_store(&shared);
    assert_eq!(snap.brightness, 80);
    assert_eq!(snap.color, Rgba8 { r: 0, g: 0, b: 0, a: 255 });
    assert_eq!(snap.value.intensity, WalkerIntensity(1));
    assert_eq!(snap.value.pct, 255);
}

#[test]
fn update_store_keeps_fade_progress() {
    let shared = SharedStore { brightness: 80, color: 0, value: 1, is_on: true };
    let mut snap = get_store(&shared);
    snap.value.pct = 40;
    let shared = SharedStore { brightness: 90, ..shared };
    update_store(&shared, &mut snap);
    assert_eq!(snap.brightness, 90);
    assert_eq!(snap.value.pct, 40);
}

#[test]
fn step_toward_store_eases_brightness() {
    let shared = SharedStore { brightness: 255, color: 0, value: 0, is_on: true };
    let target = get_store(&shared);
    let mut local = target;
    local.brightness = 0;
    let changed = step_toward_store(&target, &mut local);
    assert!(!changed);
    assert_eq!(local.brightness, 15);
}

#[test]
fn step_toward_store_reports_intensity_change() {
    // an intensity change applies immediately and restarts the cross-fade
    let shared = SharedStore { brightness: 255, color: 0, value: 1, is_on: true };
    let target = get_store(&shared);
    let mut local = target;
    local.value = WalkerSetting { intensity: WalkerIntensity(0), pct: 255 };
    let changed = step_toward_store(&target, &mut local);
    assert!(changed);
    assert_eq!(local.value.intensity, WalkerIntensity(1));
    assert_eq!(local.value.pct, lamp::walker::WALKER_FADE_IN_STEP);
}

#[test]
fn step_toward_store_advances_cross_fade() {
    let shared = SharedStore { brightness: 255, color: 0, value: 1, is_on: true };
    let target = get_store(&shared);
    let mut local = target;
    local.value.pct = 250;
    let changed = step_toward_store(&target, &mut local);
    assert!(!changed);
    assert_eq!(local.value.pct, 255);
}

#[test]
fn step_toward_store_walks_color() {
    let shared = SharedStore { brightness: 255, color: 2, value: 0, is_on: true };
    let target = get_store(&shared);
    let mut local = target;
    local.color = Rgba8 { r: 0, g: 0, b: 0, a: 0 };
    step_toward_store(&target, &mut local);
    // target color is (255, 42, 0, 0): each channel moves an eleventh,
    // clamped to at least one unit
    assert_eq!(local.color, Rgba8 { r: 23, g: 3, b: 0, a: 0 });
}
