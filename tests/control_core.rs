use agitator_core::monitor::{
    average_reading, is_drastic_jump, MonitorError, Potentiometer, PotentiometerMonitor,
    SAMPLES_PER_AVERAGE,
};
use agitator_core::motor::{Motor, MotorDirection};
use agitator_core::params::{
    ParameterStore, MAX_MOTOR_DUTY_PERCENT, MAX_MOVEMENT_DURATION_MS, MIN_MOTOR_DUTY_PERCENT,
    MIN_MOVEMENT_DURATION_MS,
};
use agitator_core::range_map::map_range;
use agitator_core::scheduler::{MotionScheduler, Segment, POLL_TICK_MS};
use agitator_core::watchdog::{deep_sleep_due, remaining_active_ms, MAX_ACTIVE_MS};

fn burst(mv: u16) -> Vec<u16> {
    vec![mv; SAMPLES_PER_AVERAGE]
}

#[test]
fn map_range_endpoints_and_midpoint() {
    assert_eq!(map_range(0, 0, 3000, 20, 100), Some(20));
    assert_eq!(map_range(3000, 0, 3000, 20, 100), Some(100));
    assert_eq!(map_range(1500, 0, 3000, 200, 2000), Some(1100));
}

#[test]
fn map_range_extrapolates_without_clamping() {
    assert_eq!(map_range(6000, 0, 3000, 20, 100), Some(180));
    assert_eq!(map_range(4500, 0, 3000, 200, 2000), Some(2900));
    assert_eq!(map_range(-3000, 0, 3000, 20, 100), Some(-60));
}

#[test]
fn map_range_truncates_toward_zero() {
    // 1 * 80 / 3000 is 0.026..., truncated to 0.
    assert_eq!(map_range(1, 0, 3000, 20, 100), Some(20));
    // -1 * 80 / 3000 is -0.026..., truncated to 0, not -1.
    assert_eq!(map_range(-1, 0, 3000, 20, 100), Some(20));
    assert_eq!(map_range(2900, 0, 3000, 20, 100), Some(97));
    // Decreasing output range.
    assert_eq!(map_range(1000, 0, 3000, 100, 20), Some(74));
}

#[test]
fn map_range_reports_results_beyond_i32() {
    assert_eq!(map_range(i32::MAX, 0, 1, 0, i32::MAX), None);
    assert_eq!(map_range(i32::MIN, i32::MAX, i32::MIN, 0, 1), Some(1));
}

#[test]
fn store_starts_at_minimum() {
    let mut s = ParameterStore::new();
    assert_eq!(s.get_max_duty(), MIN_MOTOR_DUTY_PERCENT);
    assert_eq!(s.get_max_duration(), MIN_MOVEMENT_DURATION_MS);
    assert!(!s.drastic_change_raised());
    assert!(!s.take_and_clear_drastic_change());
}

#[test]
fn store_reads_stay_in_bounds_over_writes() {
    let mut s = ParameterStore::new();
    let mut m_speed = PotentiometerMonitor::new(Potentiometer::Speed);
    let mut m_duration = PotentiometerMonitor::new(Potentiometer::Duration);
    for mv in [0u16, 3000, 1, 2999, 1500, 750, 0, 3000] {
        m_speed.process_burst(&burst(mv), &mut s).unwrap();
        m_duration.process_burst(&burst(mv), &mut s).unwrap();
        let d = s.get_max_duty();
        let t = s.get_max_duration();
        assert!((MIN_MOTOR_DUTY_PERCENT..=MAX_MOTOR_DUTY_PERCENT).contains(&d));
        assert!((MIN_MOVEMENT_DURATION_MS..=MAX_MOVEMENT_DURATION_MS).contains(&t));
    }
    s.set_max_duty(55);
    s.set_max_duration(1234);
    assert_eq!(s.get_max_duty(), 55);
    assert_eq!(s.get_max_duration(), 1234);
}

#[test]
fn store_signal_is_one_shot() {
    let mut s = ParameterStore::new();
    s.raise_drastic_change();
    assert!(s.drastic_change_raised());
    assert!(s.take_and_clear_drastic_change());
    assert!(!s.drastic_change_raised());
    assert!(!s.take_and_clear_drastic_change());
}

#[test]
fn motor_drives_exactly_one_channel() {
    let mut m = Motor::new();
    assert_eq!((m.forward_duty(), m.reverse_duty()), (0, 0));
    m.start_movement(MotorDirection::Forward, 40);
    assert_eq!((m.forward_duty(), m.reverse_duty()), (40, 0));
    m.start_movement(MotorDirection::Reverse, 75);
    assert_eq!((m.forward_duty(), m.reverse_duty()), (0, 75));
    m.start_movement(MotorDirection::Reverse, 20);
    assert_eq!((m.forward_duty(), m.reverse_duty()), (0, 20));
    m.start_movement(MotorDirection::Forward, 100);
    assert_eq!((m.forward_duty(), m.reverse_duty()), (100, 0));
    m.stop();
    assert_eq!((m.forward_duty(), m.reverse_duty()), (0, 0));
}

#[test]
fn direction_opposite() {
    assert_eq!(MotorDirection::Forward.opposite(), MotorDirection::Reverse);
    assert_eq!(MotorDirection::Reverse.opposite(), MotorDirection::Forward);
}

#[test]
fn scheduler_alternates_and_respects_ceilings() {
    let mut sched = MotionScheduler::new(1);
    let mut store = ParameterStore::new();
    let mut motor = Motor::new();
    store.set_max_duty(63);
    store.set_max_duration(900);
    let mut expected = MotorDirection::Forward;
    for _ in 0..200 {
        assert_eq!(sched.next_direction(), expected);
        store.raise_drastic_change();
        let seg = sched.start_segment(&mut store, &mut motor);
        assert_eq!(seg.direction, expected);
        assert!((20..=63).contains(&seg.duty_percent));
        assert!((200..=900).contains(&seg.duration_ms));
        assert!(!store.drastic_change_raised());
        match seg.direction {
            MotorDirection::Forward => {
                assert_eq!((motor.forward_duty(), motor.reverse_duty()), (seg.duty_percent, 0))
            }
            MotorDirection::Reverse => {
                assert_eq!((motor.forward_duty(), motor.reverse_duty()), (0, seg.duty_percent))
            }
        }
        expected = expected.opposite();
    }
}

#[test]
fn scheduler_with_minimum_ceilings_draws_minimum() {
    let mut sched = MotionScheduler::new(7);
    for _ in 0..20 {
        let seg = sched.plan_segment(20, 200);
        assert_eq!(seg.duty_percent, 20);
        assert_eq!(seg.duration_ms, 200);
    }
}

#[test]
fn segment_ends_after_planned_length() {
    let store = ParameterStore::new();
    let seg = Segment { direction: MotorDirection::Forward, duty_percent: 50, duration_ms: 1000 };
    assert!(!seg.should_end(200, &store));
    assert!(!seg.should_end(1000, &store));
    assert!(seg.should_end(1200, &store));
}

#[test]
fn drastic_change_ends_segment_at_next_poll() {
    // Segment of 2000 ms; a change is raised 450 ms in, so the poll at
    // 600 ms ends it, long before the planned length.
    let mut store = ParameterStore::new();
    let seg = Segment { direction: MotorDirection::Reverse, duty_percent: 30, duration_ms: 2000 };
    let mut ended_at = None;
    let mut elapsed: u64 = 0;
    while ended_at.is_none() {
        elapsed += POLL_TICK_MS;
        if elapsed >= 450 && !store.drastic_change_raised() {
            store.raise_drastic_change();
        }
        if seg.should_end(elapsed, &store) {
            ended_at = Some(elapsed);
        }
    }
    assert_eq!(ended_at, Some(600));
}

#[test]
fn average_is_truncated_mean() {
    assert_eq!(average_reading(&vec![]), None);
    assert_eq!(average_reading(&vec![1, 2]), Some(1));
    assert_eq!(average_reading(&vec![u16::MAX; 100]), Some(u16::MAX));
    let mut v = vec![1000u16; 99];
    v.push(1099);
    assert_eq!(average_reading(&v), Some(1000));
    v[0] = 1001;
    assert_eq!(average_reading(&v), Some(1001));
}

#[test]
fn jump_threshold() {
    assert!(!is_drastic_jump(20, 30));
    assert!(is_drastic_jump(20, 31));
    assert!(!is_drastic_jump(30, 20));
    assert!(is_drastic_jump(31, 20));
    assert!(!is_drastic_jump(500, 500));
}

#[test]
fn monitor_starts_from_domain_minimum() {
    assert_eq!(PotentiometerMonitor::new(Potentiometer::Speed).previous(), 20);
    assert_eq!(PotentiometerMonitor::new(Potentiometer::Duration).previous(), 200);
}

#[test]
fn monitor_small_change_leaves_signal_down() {
    let mut s = ParameterStore::new();
    let mut m = PotentiometerMonitor::new(Potentiometer::Speed);
    // 300 mV maps to 28: a move of 8 from the initial 20.
    assert_eq!(m.process_burst(&burst(300), &mut s), Ok(28));
    assert!(!s.drastic_change_raised());
    assert_eq!(s.get_max_duty(), 28);
    assert_eq!(s.get_max_duration(), 200);
    // 675 mV maps to 38: a move of exactly 10.
    assert_eq!(m.process_burst(&burst(675), &mut s), Ok(38));
    assert!(!s.drastic_change_raised());
    assert_eq!(m.previous(), 38);
}

#[test]
fn monitor_large_change_raises_signal() {
    let mut s = ParameterStore::new();
    let mut m = PotentiometerMonitor::new(Potentiometer::Duration);
    // 1500 mV maps to 1100 ms: a move of 900 from the initial 200.
    assert_eq!(m.process_burst(&burst(1500), &mut s), Ok(1100));
    assert!(s.drastic_change_raised());
    assert_eq!(s.get_max_duration(), 1100);
    assert_eq!(s.get_max_duty(), 20);
    s.take_and_clear_drastic_change();
    // 1510 mV maps to 1106: a move of 6.
    assert_eq!(m.process_burst(&burst(1510), &mut s), Ok(1106));
    assert!(!s.drastic_change_raised());
}

#[test]
fn monitors_track_their_own_history() {
    let mut s = ParameterStore::new();
    let mut speed = PotentiometerMonitor::new(Potentiometer::Speed);
    let mut duration = PotentiometerMonitor::new(Potentiometer::Duration);
    speed.process_burst(&burst(3000), &mut s).unwrap();
    duration.process_burst(&burst(0), &mut s).unwrap();
    s.take_and_clear_drastic_change();
    // The duration monitor stays at its minimum: no jump of its own.
    duration.process_burst(&burst(0), &mut s).unwrap();
    assert!(!s.drastic_change_raised());
    assert_eq!(s.get_max_duty(), 100);
    assert_eq!(s.get_max_duration(), 200);
}

#[test]
fn monitor_rejects_empty_burst() {
    let mut s = ParameterStore::new();
    let mut m = PotentiometerMonitor::new(Potentiometer::Speed);
    assert_eq!(m.process_burst(&vec![], &mut s), Err(MonitorError::EmptyBurst));
    assert_eq!(m.previous(), 20);
    assert_eq!(s.get_max_duty(), 20);
}

#[test]
fn monitor_rejects_reading_above_range() {
    let mut s = ParameterStore::new();
    let mut m = PotentiometerMonitor::new(Potentiometer::Speed);
    assert_eq!(m.process_burst(&burst(3001), &mut s), Err(MonitorError::ReadingOutOfRange));
    assert_eq!(m.previous(), 20);
    assert_eq!(s.get_max_duty(), 20);
    assert!(!s.drastic_change_raised());
    // The full range itself is accepted.
    assert_eq!(m.process_burst(&burst(3000), &mut s), Ok(100));
}

#[test]
fn speed_jump_interrupts_running_segment() {
    let mut store = ParameterStore::new();
    let mut motor = Motor::new();
    let mut speed = PotentiometerMonitor::new(Potentiometer::Speed);
    let mut duration = PotentiometerMonitor::new(Potentiometer::Duration);
    let mut sched = MotionScheduler::new(1);

    assert_eq!(speed.process_burst(&burst(1500), &mut store), Ok(60));
    duration.process_burst(&burst(3000), &mut store).unwrap();
    let seg = sched.start_segment(&mut store, &mut motor);
    assert!(!store.drastic_change_raised());
    assert!(!seg.should_end(POLL_TICK_MS, &store));

    // Next monitor cycle: the average jumps to 2900 mV.
    assert_eq!(speed.process_burst(&burst(2900), &mut store), Ok(97));
    assert!(store.drastic_change_raised());
    // The next poll ends the segment whatever is left of its planned length.
    assert!(seg.should_end(2 * POLL_TICK_MS, &store));
}

#[test]
fn session_sleeps_after_ten_minutes() {
    assert_eq!(MAX_ACTIVE_MS, 600_000);
    assert!(!deep_sleep_due(0));
    assert!(!deep_sleep_due(599_999));
    assert!(deep_sleep_due(600_000));
    assert!(deep_sleep_due(600_001));
    assert_eq!(remaining_active_ms(0), 600_000);
    assert_eq!(remaining_active_ms(100_000), 500_000);
    assert_eq!(remaining_active_ms(600_000), 0);
    assert_eq!(remaining_active_ms(700_000), 0);
}
