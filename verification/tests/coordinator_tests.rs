use lamp::coordinator::{
    CoordinatorState, SaveCoordinator, TimeoutCoordinator, MODE_TIMEOUT_MILLIS,
    SAVE_TIMEOUT_IN_MILLISECONDS,
};
use lamp::manager::ModeCommands;

#[test]
fn save_burst_coalesces_to_one_emission() {
    // P4 scenario: five dirty signals inside the window produce exactly one
    // save request, no earlier than the window after the last signal
    let mut c = SaveCoordinator::new();
    let mut emissions = 0u32;
    for t in [0u64, 100, 250, 300, 400] {
        c.on_signal(t);
    }
    for t in [500u64, 900, 1399] {
        if c.on_timer(t) {
            emissions += 1;
        }
    }
    assert_eq!(emissions, 0);
    let deadline = 400 + SAVE_TIMEOUT_IN_MILLISECONDS;
    assert_eq!(c.state, CoordinatorState::Armed { deadline });
    for t in [deadline, deadline + 50, deadline + 5000] {
        if c.on_timer(t) {
            emissions += 1;
        }
    }
    assert_eq!(emissions, 1);
    assert_eq!(c.state, CoordinatorState::Idle);
}

#[test]
fn save_signal_rearms_mid_race() {
    let mut c = SaveCoordinator::new();
    c.on_signal(0);
    assert!(!c.on_timer(999));
    c.on_signal(999);
    assert!(!c.on_timer(1000));
    assert!(c.on_timer(999 + SAVE_TIMEOUT_IN_MILLISECONDS));
}

#[test]
fn idle_save_coordinator_never_emits() {
    let mut c = SaveCoordinator::new();
    assert!(!c.on_timer(0));
    assert!(!c.on_timer(u64::MAX));
    assert_eq!(c.state, CoordinatorState::Idle);
}

#[test]
fn timeout_arms_only_on_start() {
    let mut c = TimeoutCoordinator::new();
    c.on_command(ModeCommands::Reset, 5);
    assert_eq!(c.state, CoordinatorState::Idle);
    c.on_command(ModeCommands::Stop, 5);
    assert_eq!(c.state, CoordinatorState::Idle);
    c.on_command(ModeCommands::Start, 5);
    assert_eq!(c.state, CoordinatorState::Armed { deadline: 5 + MODE_TIMEOUT_MILLIS });
}

#[test]
fn timeout_expiry_emits_once_and_disarms() {
    let mut c = TimeoutCoordinator::new();
    c.on_command(ModeCommands::Start, 0);
    assert!(!c.on_timer(MODE_TIMEOUT_MILLIS - 1));
    assert!(c.on_timer(MODE_TIMEOUT_MILLIS));
    assert_eq!(c.state, CoordinatorState::Idle);
    assert!(!c.on_timer(u64::MAX));
}

#[test]
fn timeout_reset_restarts_the_race() {
    let mut c = TimeoutCoordinator::new();
    c.on_command(ModeCommands::Start, 0);
    c.on_command(ModeCommands::Reset, 1000);
    assert_eq!(c.state, CoordinatorState::Armed { deadline: 1000 + MODE_TIMEOUT_MILLIS });
    assert!(!c.on_timer(MODE_TIMEOUT_MILLIS));
    assert!(c.on_timer(1000 + MODE_TIMEOUT_MILLIS));
}

#[test]
fn timeout_stop_cancels_without_emitting() {
    let mut c = TimeoutCoordinator::new();
    c.on_command(ModeCommands::Start, 0);
    c.on_command(ModeCommands::Stop, 10);
    assert_eq!(c.state, CoordinatorState::Idle);
    assert!(!c.on_timer(u64::MAX));
}
