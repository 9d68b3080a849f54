use rand::rngs::SmallRng;
use rand::SeedableRng;

use lamp::color::Rgba8;
use lamp::walker::{
    hold_config_for, Walker, WalkerIntensity, WalkerState, WALKER_INTENSITY_MAX,
};

fn rng() -> SmallRng {
    SmallRng::seed_from_u64(7)
}

#[test]
fn intensity_from_clamps() {
    assert_eq!(WalkerIntensity::from(0).to_usize(), 0);
    assert_eq!(WalkerIntensity::from(1).to_usize(), 1);
    assert_eq!(WalkerIntensity::from(2).to_usize(), 2);
    assert_eq!(WalkerIntensity::from(200).to_usize(), WALKER_INTENSITY_MAX as usize);
}

#[test]
fn state_sides() {
    assert!(WalkerState::FadingInHigh.is_high());
    assert!(WalkerState::High.is_high());
    assert!(WalkerState::FadingOutHigh.is_high());
    assert!(!WalkerState::Holding.is_high());
    assert!(!WalkerState::FadingInLow.is_high());
    assert!(!WalkerState::Low.is_high());
    assert!(!WalkerState::FadingOutLow.is_high());
}

#[test]
fn state_from_index_covers_all_phases() {
    assert_eq!(WalkerState::from_index(0), WalkerState::Holding);
    assert_eq!(WalkerState::from_index(1), WalkerState::FadingInLow);
    assert_eq!(WalkerState::from_index(2), WalkerState::Low);
    assert_eq!(WalkerState::from_index(3), WalkerState::FadingOutLow);
    assert_eq!(WalkerState::from_index(4), WalkerState::FadingInHigh);
    assert_eq!(WalkerState::from_index(5), WalkerState::High);
    assert_eq!(WalkerState::from_index(6), WalkerState::FadingOutHigh);
}

#[test]
fn hold_config_table_entries() {
    assert_eq!(hold_config_for(&WalkerIntensity(0)).hold_value, 255);
    assert_eq!(hold_config_for(&WalkerIntensity(1)).hold_value, 160);
    assert_eq!(hold_config_for(&WalkerIntensity(2)).hold_value, 128);
    assert_eq!(hold_config_for(&WalkerIntensity(1)).min_hold_millis, 2000);
    assert_eq!(hold_config_for(&WalkerIntensity(2)).max_pause_millis, 200);
}

#[test]
fn new_walkers_staggers_pixel_zero() {
    let mut rng = rng();
    let walkers = Walker::new_walkers(5, &WalkerIntensity(1), &mut rng, 0);
    assert_eq!(walkers.len(), 5);
    // pixel 0 restarts deterministically on the fade-toward-low path, which
    // its seeding transition has already advanced to the low pause
    assert_eq!(walkers[0].state, WalkerState::Low);
    for w in &walkers {
        assert_eq!(w.hold_config, hold_config_for(&WalkerIntensity(1)));
        assert!(w.time_in_state >= 1);
    }
}

#[test]
fn holding_walker_emits_exact_hold_value() {
    // P7 scenario: at steady state the fade scalar equals the hold value
    for level in 0..=WALKER_INTENSITY_MAX {
        let config = hold_config_for(&WalkerIntensity(level));
        let mut w = Walker {
            state: WalkerState::Holding,
            last_time: 0,
            time_in_state: 100000,
            pause_value: 0,
            hold_config: config,
        };
        let color = Rgba8 { r: 200, g: 100, b: 50, a: 25 };
        let mut led = Rgba8 { r: 0, g: 0, b: 0, a: 0 };
        let mut rng = rng();
        w.run_walker(&mut led, &color, &mut rng, 10);
        assert_eq!(w.state, WalkerState::Holding);
        let hv = config.hold_value as u16;
        let expected = Rgba8 {
            r: ((200u16 * (hv + 1)) / 256) as u8,
            g: ((100u16 * (hv + 1)) / 256) as u8,
            b: ((50u16 * (hv + 1)) / 256) as u8,
            a: ((25u16 * (hv + 1)) / 256) as u8,
        };
        assert_eq!(led, expected);
    }
}

#[test]
fn walker_bound_invariant_over_many_ticks() {
    // P7 scenario: over many ticks and every intensity, the emitted fade
    // never exceeds the base color's channels
    let color = Rgba8 { r: 200, g: 100, b: 50, a: 25 };
    for level in 0..=WALKER_INTENSITY_MAX {
        let mut rng = rng();
        let mut walkers = Walker::new_walkers(5, &WalkerIntensity(level), &mut rng, 0);
        let mut data = vec![Rgba8 { r: 0, g: 0, b: 0, a: 0 }; 5];
        for tick in 1..=2000u64 {
            Walker::run_walkers(&mut data, &mut walkers, &color, &mut rng, tick * 10);
            for led in &data {
                assert!(led.r <= color.r);
                assert!(led.g <= color.g);
                assert!(led.b <= color.b);
                assert!(led.a <= color.a);
            }
        }
    }
}

#[test]
fn dwell_fraction_is_linear() {
    let w = Walker {
        state: WalkerState::FadingInLow,
        last_time: 0,
        time_in_state: 1000,
        pause_value: 32,
        hold_config: hold_config_for(&WalkerIntensity(1)),
    };
    assert_eq!(w.get_current_pct(0), 0);
    assert_eq!(w.get_current_pct(500), 127);
    assert_eq!(w.get_current_pct(1000), 255);
    assert_eq!(w.get_current_pct(50000), 255);
}

#[test]
fn transition_follows_the_cycle() {
    let mut rng = rng();
    let config = hold_config_for(&WalkerIntensity(1));
    let mut w = Walker {
        state: WalkerState::FadingInLow,
        last_time: 0,
        time_in_state: 1000,
        pause_value: 32,
        hold_config: config,
    };
    w.transition_state(&mut rng, 100);
    assert_eq!(w.state, WalkerState::Low);
    assert_eq!(w.last_time, 100);
    assert!(w.time_in_state >= config.min_pause_millis);
    assert!(w.time_in_state <= config.max_pause_millis);
    w.transition_state(&mut rng, 200);
    assert_eq!(w.state, WalkerState::FadingOutLow);
    assert!(w.time_in_state >= config.min_transition_out_millis);
    assert!(w.time_in_state <= config.max_transition_out_millis);
    w.transition_state(&mut rng, 300);
    assert_eq!(w.state, WalkerState::Holding);
    w.transition_state(&mut rng, 400);
    assert!(w.state == WalkerState::FadingInLow || w.state == WalkerState::FadingInHigh);
    if w.state.is_high() {
        assert!(w.pause_value >= config.min_high_value);
        assert!(w.pause_value <= config.max_high_value);
    } else {
        assert!(w.pause_value >= config.min_low_value);
        assert!(w.pause_value <= config.max_low_value);
    }
}

#[test]
fn update_walkers_reseeds_configuration() {
    let mut rng = rng();
    let mut walkers = Walker::new_walkers(5, &WalkerIntensity(0), &mut rng, 0);
    Walker::update_walkers(&mut walkers, &WalkerIntensity(2), &mut rng, 50);
    for w in &walkers {
        assert_eq!(w.hold_config, hold_config_for(&WalkerIntensity(2)));
        assert_eq!(w.last_time, 50);
    }
    assert_eq!(walkers[0].state, WalkerState::Low);
}
