use market_stimulator::clock::{SimulationClock, PERIOD};

#[test]
fn a_new_clock_is_at_rest() {
    let clock = SimulationClock::new();
    assert_eq!(clock.accumulated_ms, 0);
    assert_eq!(clock.ticks, 0);
    assert_eq!(clock.time(), 0);
    assert_eq!(PERIOD, 1000);
}

#[test]
fn time_below_a_period_is_only_accumulated() {
    let mut clock = SimulationClock::new();
    clock.advance(999);
    assert_eq!(clock, SimulationClock { accumulated_ms: 999, ticks: 0 });
}

#[test]
fn a_full_period_is_one_tick() {
    let mut clock = SimulationClock::new();
    clock.advance(999);
    clock.advance(1);
    assert_eq!(clock, SimulationClock { accumulated_ms: 0, ticks: 1 });
    clock.advance(1000);
    assert_eq!(clock, SimulationClock { accumulated_ms: 0, ticks: 2 });
}

#[test]
fn a_long_frame_counts_every_period_in_it() {
    let mut clock = SimulationClock::new();
    clock.advance(600);
    clock.advance(3500);
    assert_eq!(clock, SimulationClock { accumulated_ms: 100, ticks: 4 });
}

#[test]
fn no_time_changes_nothing() {
    let mut clock = SimulationClock { accumulated_ms: 250, ticks: 9 };
    clock.advance(0);
    assert_eq!(clock, SimulationClock { accumulated_ms: 250, ticks: 9 });
}

#[test]
fn sixty_frames_of_sixteen_milliseconds() {
    let mut clock = SimulationClock::new();
    for _ in 0..60 {
        clock.advance(16);
    }
    assert_eq!(clock, SimulationClock { accumulated_ms: 960, ticks: 0 });
    for _ in 0..3 {
        clock.advance(16);
    }
    assert_eq!(clock, SimulationClock { accumulated_ms: 8, ticks: 1 });
}

#[test]
fn advancing_in_parts_is_advancing_at_once() {
    let mut parts = SimulationClock { accumulated_ms: 700, ticks: 3 };
    parts.advance(850);
    parts.advance(1470);
    let mut whole = SimulationClock { accumulated_ms: 700, ticks: 3 };
    whole.advance(850 + 1470);
    assert_eq!(parts, whole);
    assert_eq!(whole, SimulationClock { accumulated_ms: 20, ticks: 6 });
}

#[test]
fn the_longest_frame_there_is() {
    let mut clock = SimulationClock { accumulated_ms: 999, ticks: 0 };
    clock.advance(u64::MAX);
    // 18_446_744_073_709_551_615 + 999 = 18_446_744_073_709_552_614
    assert_eq!(
        clock,
        SimulationClock { accumulated_ms: 614, ticks: 18_446_744_073_709_552 }
    );
}

#[test]
fn the_tick_count_stops_at_its_largest_value() {
    let mut clock = SimulationClock { accumulated_ms: 999, ticks: u64::MAX };
    clock.advance(1);
    assert_eq!(clock, SimulationClock { accumulated_ms: 0, ticks: u64::MAX });
    let mut clock = SimulationClock { accumulated_ms: 0, ticks: u64::MAX - 1 };
    clock.advance(5000);
    assert_eq!(clock, SimulationClock { accumulated_ms: 0, ticks: u64::MAX });
}

#[test]
fn more_than_a_period_accumulated_is_counted_too() {
    let mut clock = SimulationClock { accumulated_ms: 2500, ticks: 1 };
    clock.advance(0);
    assert_eq!(clock, SimulationClock { accumulated_ms: 500, ticks: 3 });
}

#[test]
fn reset_puts_the_clock_to_rest() {
    let mut clock = SimulationClock::new();
    clock.advance(12_345);
    assert_eq!(clock.time(), 12);
    clock.reset();
    assert_eq!(clock, SimulationClock::new());
}
