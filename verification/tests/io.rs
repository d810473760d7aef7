use rand::rngs::SmallRng;
use rand::SeedableRng;
use squirtinator::config::{
    init_config, AccessPointConfig, Config, ConfigError, DefaultConfig, FreqConfig, HttpConfig,
    IoConfig, WifiConfig,
};
use squirtinator::io::{
    auto_wait, begin_cycle, finish_cycle, pulse_step, random_wait, AutoFireAction, AutoFireState,
    CycleOutcome, PulseAction, PulseEvent, PulseState, Signal, Signaler,
};

fn store_with_bounds(default_min: u32, default_max: u32) -> DefaultConfig {
    let config = Config {
        wifi: WifiConfig {
            ssid: None,
            password: None,
            hostname: String::from("device"),
            static_ip: None,
        },
        access_point: AccessPointConfig {
            ssid: String::from("device"),
            password: None,
            hidden: false,
            channel: None,
            gateway: String::from("192.168.0.1"),
        },
        http: HttpConfig { port: 80 },
        io: IoConfig {
            sda_pin: 4,
            scl_pin: 5,
            address: 0x30,
            message: vec![1],
            baudrate: 100_000,
            timeout: 1000,
        },
        frequency: FreqConfig { lower_bound: 1, upper_bound: 600, default_min, default_max },
    };
    let mut store = DefaultConfig::new();
    assert!(init_config(&mut store, config));
    store
}

#[test]
fn new_signaler_holds_nothing() {
    let mut signaler = Signaler::new();
    assert!(!signaler.is_auto());
    assert!(!signaler.fire_pending());
    assert_eq!(signaler.auto_pending(), None);
    assert!(!signaler.take_fire());
}

#[test]
fn five_fires_while_busy_give_one_pulse() {
    let mut signaler = Signaler::new();
    signaler.send(Signal::Fire);
    // The pulse loop takes the request and is busy from here on.
    assert!(signaler.take_fire());
    for _ in 0..5 {
        signaler.send(Signal::Fire);
    }
    assert!(signaler.fire_pending());
    // Idle again: exactly one more pulse.
    assert!(signaler.take_fire());
    assert!(!signaler.take_fire());
    assert!(!signaler.fire_pending());
}

#[test]
fn fire_does_not_touch_the_mode() {
    let mut signaler = Signaler::new();
    signaler.send(Signal::StartAuto);
    signaler.send(Signal::Fire);
    assert!(signaler.is_auto());
    assert_eq!(signaler.auto_pending(), Some(true));
}

#[test]
fn start_then_stop_is_read_as_stop_alone() {
    let mut signaler = Signaler::new();
    signaler.send(Signal::StartAuto);
    signaler.send(Signal::StopAuto);
    assert!(!signaler.is_auto());
    assert_eq!(signaler.auto_pending(), Some(false));
    let (state, action) = begin_cycle(AutoFireState::NotArmed, &mut signaler);
    assert_eq!(state, AutoFireState::NotArmed);
    assert_eq!(action, AutoFireAction::Continue);
    assert_eq!(signaler.auto_pending(), None);
    let (state, action) = begin_cycle(state, &mut signaler);
    assert_eq!(state, AutoFireState::NotArmed);
    assert_eq!(action, AutoFireAction::AwaitMode);
}

#[test]
fn stop_then_start_is_read_as_start_alone() {
    let mut signaler = Signaler::new();
    signaler.send(Signal::StopAuto);
    signaler.send(Signal::StartAuto);
    assert!(signaler.is_auto());
    let (state, action) = begin_cycle(AutoFireState::NotArmed, &mut signaler);
    assert_eq!(state, AutoFireState::Armed);
    assert_eq!(action, AutoFireAction::Wait);
    assert_eq!(signaler.auto_pending(), None);
}

#[test]
fn mode_requests_do_not_touch_a_pending_fire() {
    let mut signaler = Signaler::new();
    signaler.send(Signal::Fire);
    signaler.send(Signal::StartAuto);
    signaler.send(Signal::StopAuto);
    assert!(signaler.fire_pending());
}

#[test]
fn not_armed_waits_for_a_mode() {
    let mut signaler = Signaler::new();
    let (state, action) = begin_cycle(AutoFireState::NotArmed, &mut signaler);
    assert_eq!(state, AutoFireState::NotArmed);
    assert_eq!(action, AutoFireAction::AwaitMode);
}

#[test]
fn armed_goes_on_without_a_request() {
    let mut signaler = Signaler::new();
    let (state, action) = begin_cycle(AutoFireState::Armed, &mut signaler);
    assert_eq!(state, AutoFireState::Armed);
    assert_eq!(action, AutoFireAction::Wait);
}

#[test]
fn armed_goes_on_after_a_second_start() {
    let mut signaler = Signaler::new();
    signaler.send(Signal::StartAuto);
    let (state, action) = begin_cycle(AutoFireState::Armed, &mut signaler);
    assert_eq!(state, AutoFireState::Armed);
    assert_eq!(action, AutoFireAction::Wait);
    assert_eq!(signaler.auto_pending(), None);
    assert!(signaler.is_auto());
}

#[test]
fn armed_disarms_on_stop_without_waiting() {
    let mut signaler = Signaler::new();
    signaler.send(Signal::StopAuto);
    let (state, action) = begin_cycle(AutoFireState::Armed, &mut signaler);
    assert_eq!(state, AutoFireState::NotArmed);
    assert_eq!(action, AutoFireAction::Continue);
    assert!(!signaler.fire_pending());
}

#[test]
fn waits_lie_within_ten_and_twenty() {
    let mut rng = SmallRng::seed_from_u64(1);
    let mut seen = [false; 20];
    for _ in 0..2000 {
        let wait = random_wait(&mut rng, 10, 20).unwrap();
        assert!(10 <= wait && wait < 20);
        seen[wait as usize] = true;
    }
    // The draws differ: the generator is asked, not the bounds handed back.
    assert!(seen.iter().filter(|hit| **hit).count() > 1);
    assert!(seen[10..20].iter().all(|hit| *hit));
}

#[test]
fn a_range_of_one_gives_its_only_value() {
    let mut rng = SmallRng::seed_from_u64(2);
    for _ in 0..50 {
        assert_eq!(random_wait(&mut rng, 15, 16), Some(15));
    }
}

#[test]
fn an_empty_range_gives_no_wait() {
    let mut rng = SmallRng::seed_from_u64(3);
    assert_eq!(random_wait(&mut rng, 10, 10), None);
    assert_eq!(random_wait(&mut rng, 20, 10), None);
    assert_eq!(random_wait(&mut rng, 0, 0), None);
    assert_eq!(random_wait(&mut rng, u32::MAX, u32::MAX), None);
}

#[test]
fn widest_range_is_accepted() {
    let mut rng = SmallRng::seed_from_u64(4);
    let wait = random_wait(&mut rng, 0, u32::MAX).unwrap();
    assert!(wait < u32::MAX);
}

#[test]
fn auto_wait_uses_the_defaults() {
    let store = store_with_bounds(10, 20);
    let mut rng = SmallRng::seed_from_u64(5);
    for _ in 0..200 {
        let wait = auto_wait(&mut rng, &store, None, None).unwrap();
        assert!(10 <= wait && wait < 20);
    }
}

#[test]
fn auto_wait_prefers_the_stored_bounds() {
    let store = store_with_bounds(10, 20);
    let mut rng = SmallRng::seed_from_u64(6);
    for _ in 0..200 {
        let wait = auto_wait(&mut rng, &store, Some(100), Some(103)).unwrap();
        assert!(100 <= wait && wait < 103);
    }
    assert_eq!(auto_wait(&mut rng, &store, Some(19), None), Ok(19));
}

#[test]
fn auto_wait_rejects_bounds_without_room() {
    let store = store_with_bounds(10, 20);
    let mut rng = SmallRng::seed_from_u64(7);
    assert_eq!(auto_wait(&mut rng, &store, Some(20), None), Err(ConfigError::EmptyFrequencyRange));
    assert_eq!(auto_wait(&mut rng, &store, None, Some(5)), Err(ConfigError::EmptyFrequencyRange));
    let equal = store_with_bounds(30, 30);
    assert_eq!(auto_wait(&mut rng, &equal, None, None), Err(ConfigError::EmptyFrequencyRange));
}

#[test]
fn auto_wait_needs_the_defaults() {
    let store = DefaultConfig::new();
    let mut rng = SmallRng::seed_from_u64(8);
    assert_eq!(auto_wait(&mut rng, &store, Some(1), Some(2)), Err(ConfigError::NotInitialized));
}

#[test]
fn fire_follows_the_wait_while_auto_stays_on() {
    let mut signaler = Signaler::new();
    signaler.send(Signal::StartAuto);
    let (state, action) = begin_cycle(AutoFireState::NotArmed, &mut signaler);
    assert_eq!((state, action), (AutoFireState::Armed, AutoFireAction::Wait));
    let store = store_with_bounds(15, 16);
    let mut rng = SmallRng::seed_from_u64(9);
    assert_eq!(auto_wait(&mut rng, &store, None, None), Ok(15));
    // The wait of fifteen seconds passes with no further request.
    assert_eq!(finish_cycle(&mut signaler), CycleOutcome::Fired);
    assert!(signaler.fire_pending());
    assert!(signaler.take_fire());
    let (state, action) = begin_cycle(state, &mut signaler);
    assert_eq!((state, action), (AutoFireState::Armed, AutoFireAction::Wait));
}

#[test]
fn stop_during_the_wait_cancels_the_cycle() {
    let mut signaler = Signaler::new();
    signaler.send(Signal::StartAuto);
    let (state, action) = begin_cycle(AutoFireState::NotArmed, &mut signaler);
    assert_eq!((state, action), (AutoFireState::Armed, AutoFireAction::Wait));
    // Five seconds into the wait of fifteen.
    signaler.send(Signal::StopAuto);
    assert_eq!(finish_cycle(&mut signaler), CycleOutcome::Cancelled);
    assert!(!signaler.fire_pending());
    // The request was looked at only: the next step reads it and disarms.
    assert_eq!(signaler.auto_pending(), Some(false));
    let (state, action) = begin_cycle(state, &mut signaler);
    assert_eq!((state, action), (AutoFireState::NotArmed, AutoFireAction::Continue));
    let (state, action) = begin_cycle(state, &mut signaler);
    assert_eq!((state, action), (AutoFireState::NotArmed, AutoFireAction::AwaitMode));
}

#[test]
fn cycle_drops_its_fire_while_one_is_pending() {
    let mut signaler = Signaler::new();
    signaler.send(Signal::Fire);
    assert_eq!(finish_cycle(&mut signaler), CycleOutcome::Dropped);
    assert!(signaler.take_fire());
    assert!(!signaler.take_fire());
}

#[test]
fn start_during_the_wait_does_not_cancel() {
    let mut signaler = Signaler::new();
    signaler.send(Signal::StartAuto);
    assert_eq!(finish_cycle(&mut signaler), CycleOutcome::Fired);
    assert_eq!(signaler.auto_pending(), Some(true));
}

#[test]
fn a_pulse_runs_from_fire_to_release() {
    let (state, action) = pulse_step(PulseState::Idle, PulseEvent::Fire);
    assert_eq!((state, action), (PulseState::Activating, PulseAction::Activate));
    let (state, action) = pulse_step(state, PulseEvent::Done);
    assert_eq!((state, action), (PulseState::Holding, PulseAction::Hold));
    let (state, action) = pulse_step(state, PulseEvent::Done);
    assert_eq!((state, action), (PulseState::Releasing, PulseAction::Release));
    let (state, action) = pulse_step(state, PulseEvent::Done);
    assert_eq!((state, action), (PulseState::Idle, PulseAction::AwaitFire));
}

#[test]
fn a_failed_activation_is_released_and_the_loop_goes_on() {
    let (state, _) = pulse_step(PulseState::Idle, PulseEvent::Fire);
    let (state, action) = pulse_step(state, PulseEvent::Failed);
    assert_eq!((state, action), (PulseState::Releasing, PulseAction::Release));
    let (state, action) = pulse_step(state, PulseEvent::Failed);
    assert_eq!((state, action), (PulseState::Idle, PulseAction::AwaitFire));
    let (state, action) = pulse_step(state, PulseEvent::Fire);
    assert_eq!((state, action), (PulseState::Activating, PulseAction::Activate));
}

#[test]
fn a_busy_pulse_loop_takes_no_fire() {
    for state in [PulseState::Activating, PulseState::Holding, PulseState::Releasing] {
        let (next, _) = pulse_step(state, PulseEvent::Fire);
        assert_eq!(next, state);
    }
    assert_eq!(pulse_step(PulseState::Holding, PulseEvent::Fire).1, PulseAction::Hold);
}

#[test]
fn an_idle_pulse_loop_stays_idle_without_fire() {
    assert_eq!(
        pulse_step(PulseState::Idle, PulseEvent::Done),
        (PulseState::Idle, PulseAction::AwaitFire)
    );
    assert_eq!(
        pulse_step(PulseState::Idle, PulseEvent::Failed),
        (PulseState::Idle, PulseAction::AwaitFire)
    );
}
