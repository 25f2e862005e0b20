use eelgame::scheduler::{interval, TickScheduler, BASE_INTERVAL, MAX_SPEED, MIN_SPEED};

#[test]
fn level_nine_ticks_twice_as_fast_as_level_one() {
    assert_eq!(interval(150, 9), 75);
    assert_eq!(interval(150, 1), 150);
    assert_eq!(interval(BASE_INTERVAL, 9), 75_000);
    assert_eq!(interval(BASE_INTERVAL, 1), 150_000);
}

#[test]
fn the_interval_at_each_level() {
    let expected = [150_000, 133_333, 120_000, 109_090, 100_000, 92_307, 85_714, 80_000, 75_000];
    for level in 1..=9u8 {
        assert_eq!(interval(BASE_INTERVAL, level), expected[level as usize - 1]);
    }
}

#[test]
fn the_interval_falls_as_the_level_rises() {
    for base in [0u64, 1, 7, 150, 150_000, u64::MAX] {
        for level in 1..9u8 {
            assert!(interval(base, level + 1) <= interval(base, level));
        }
        assert_eq!(interval(base, 1), base);
        assert_eq!(interval(base, 9), base / 2);
    }
}

#[test]
fn a_new_scheduler_is_at_level_one() {
    let s = TickScheduler::new(BASE_INTERVAL, 42);
    assert_eq!(s.speed(), 1);
    assert_eq!(s.last_tick(), 42);
    assert_eq!(s.interval(), 150_000);
    assert_eq!((MIN_SPEED, MAX_SPEED), (1, 9));
}

#[test]
fn no_step_before_the_interval_has_passed() {
    let mut s = TickScheduler::new(BASE_INTERVAL, 1_000);
    assert!(!s.due(1_000));
    assert!(!s.due(150_999));
    assert_eq!(s.poll(150_999, true), 0);
    assert_eq!(s.last_tick(), 1_000);
    assert!(s.due(151_000));
}

#[test]
fn one_step_when_due_and_the_count_restarts() {
    let mut s = TickScheduler::new(BASE_INTERVAL, 1_000);
    assert_eq!(s.poll(151_000, false), 1);
    assert_eq!(s.last_tick(), 151_000);
    assert_eq!(s.poll(151_001, false), 0);
    assert_eq!(s.poll(300_999, false), 0);
    assert_eq!(s.poll(301_000, false), 1);
}

#[test]
fn two_steps_when_fast_and_never_more() {
    let mut s = TickScheduler::new(BASE_INTERVAL, 0);
    assert_eq!(s.poll(150_000, true), 2);
    assert_eq!(s.last_tick(), 150_000);
    assert_eq!(s.poll(150_000 + 10 * 150_000, true), 2);
    assert_eq!(s.last_tick(), 150_000 + 10 * 150_000);
    assert_eq!(s.poll(150_000 + 10 * 150_000 + 1, true), 0);
}

#[test]
fn lateness_is_not_carried_over() {
    let mut s = TickScheduler::new(BASE_INTERVAL, 0);
    assert_eq!(s.poll(299_999, false), 1);
    assert_eq!(s.last_tick(), 299_999);
    assert_eq!(s.poll(300_000, false), 0);
    assert_eq!(s.poll(449_998, false), 0);
    assert_eq!(s.poll(449_999, false), 1);
}

#[test]
fn a_clock_that_runs_backwards_counts_as_no_time() {
    let mut s = TickScheduler::new(BASE_INTERVAL, 500_000);
    assert!(!s.due(0));
    assert_eq!(s.poll(100, true), 0);
    assert_eq!(s.last_tick(), 500_000);
    let z = TickScheduler::new(0, 500_000);
    assert!(z.due(0));
}

#[test]
fn only_levels_one_to_nine_are_accepted() {
    let mut s = TickScheduler::new(BASE_INTERVAL, 0);
    assert!(s.set_speed(9));
    assert_eq!(s.speed(), 9);
    assert_eq!(s.interval(), 75_000);
    assert!(!s.set_speed(0));
    assert!(!s.set_speed(10));
    assert!(!s.set_speed(255));
    assert_eq!(s.speed(), 9);
    assert!(s.set_speed(1));
    assert_eq!(s.speed(), 1);
    assert!(s.set_speed(5));
    assert_eq!(s.interval(), 100_000);
    assert_eq!(s.last_tick(), 0);
}

#[test]
fn a_higher_level_is_due_sooner() {
    let mut s = TickScheduler::new(BASE_INTERVAL, 0);
    assert!(!s.due(75_000));
    s.set_speed(9);
    assert!(!s.due(74_999));
    assert!(s.due(75_000));
}

#[test]
fn restart_moves_the_count_without_firing() {
    let mut s = TickScheduler::new(BASE_INTERVAL, 0);
    s.set_speed(3);
    s.restart(1_000_000);
    assert_eq!(s.last_tick(), 1_000_000);
    assert_eq!(s.speed(), 3);
    assert!(!s.due(1_119_999));
    assert!(s.due(1_120_000));
}

#[test]
fn a_tick_length_that_is_no_whole_number_is_due_once_it_has_fully_passed() {
    let mut s = TickScheduler::new(BASE_INTERVAL, 0);
    s.set_speed(2);
    assert_eq!(s.interval(), 133_333);
    assert!(!s.due(133_333));
    assert!(s.due(133_334));
    assert_eq!(s.poll(133_333, true), 0);
    assert_eq!(s.poll(133_334, true), 2);
    let mut s = TickScheduler::new(10, 0);
    s.set_speed(4);
    assert_eq!(s.interval(), 7);
    assert!(!s.due(7));
    assert!(s.due(8));
}

#[test]
fn the_widest_clock_does_not_overflow() {
    let mut s = TickScheduler::new(u64::MAX, 0);
    assert_eq!(s.interval(), u64::MAX);
    assert!(!s.due(u64::MAX - 1));
    assert!(s.due(u64::MAX));
    s.set_speed(9);
    assert_eq!(s.interval(), u64::MAX / 2);
    assert!(!s.due(u64::MAX / 2));
    assert!(s.due(u64::MAX / 2 + 1));
}
