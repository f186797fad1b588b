use solar_sim::clock::{Cadence, SimulationClock};

#[test]
fn cadence_rejects_zero_hertz() {
    assert_eq!(Cadence::from_hz(0), None);
}

#[test]
fn cadence_period_rounds_down_to_whole_milliseconds() {
    assert_eq!(Cadence::from_hz(30).unwrap().period_millis(), 33);
    assert_eq!(Cadence::from_hz(60).unwrap().period_millis(), 16);
    assert_eq!(Cadence::from_hz(1).unwrap().period_millis(), 1000);
    assert_eq!(Cadence::from_hz(1000).unwrap().period_millis(), 1);
    assert_eq!(Cadence::from_hz(1001).unwrap().period_millis(), 0);
    assert_eq!(Cadence::from_hz(u32::MAX).unwrap().period_millis(), 0);
    assert_eq!(Cadence::from_hz(30).unwrap().hz(), 30);
}

#[test]
fn tick_returns_the_time_since_the_previous_tick() {
    let mut clock = SimulationClock::start(1_000);
    assert_eq!(clock.last_tick(), 1_000);
    assert_eq!(clock.tick(1_000), 0);
    assert_eq!(clock.tick(34_000_000), 33_999_000);
    assert_eq!(clock.last_tick(), 34_000_000);
    assert_eq!(clock.tick(34_000_001), 1);
}

#[test]
fn a_reading_before_the_previous_tick_counts_as_no_time() {
    let mut clock = SimulationClock::start(500);
    assert_eq!(clock.tick(400), 0);
    assert_eq!(clock.last_tick(), 500);
    assert_eq!(clock.tick(600), 100);
}

#[test]
fn ticks_add_up_to_the_time_elapsed() {
    let mut clock = SimulationClock::start(10);
    let readings = [15u64, 15, 40, 39, 100, u64::MAX];
    let mut total: u64 = 0;
    for now in readings {
        total += clock.tick(now);
    }
    assert_eq!(total, u64::MAX - 10);
    assert_eq!(clock.last_tick(), u64::MAX);
}
