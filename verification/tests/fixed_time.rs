use freecam::fixed_time::{fixed_time_step, TICK_NANOS};

#[test]
fn tick_is_a_sixtieth_of_a_second() {
    // 1/60 s in nanoseconds, rounded to the nearest nanosecond.
    assert_eq!(TICK_NANOS, 16_666_667);
    assert_eq!(
        TICK_NANOS,
        std::time::Duration::from_secs_f64(1.0 / 60.0).as_nanos() as u64
    );
}

#[test]
fn next_tick_is_one_tick_later() {
    assert_eq!(fixed_time_step(0), TICK_NANOS);
    assert_eq!(fixed_time_step(1_000_000_000), 1_016_666_667);
}

#[test]
fn sixty_ticks_are_almost_a_second() {
    let mut t: u64 = 0;
    for _ in 0..60 {
        t = fixed_time_step(t);
    }
    assert_eq!(t, 60 * TICK_NANOS);
    assert_eq!(t, 1_000_000_020);
}
