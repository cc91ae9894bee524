use lifegame::text::u128_to_string;
use lifegame::timer::{fmt_duration, fmt_padded3, PausedTimer, Timer};

#[test]
fn test_timer_frame_and_global() {
    let timer = Timer::start(1_000);
    assert_eq!(timer.global(1_500), 500);
    assert_eq!(timer.frame(1_500), 500);
    assert_eq!(timer.last_frame(), 0);
}

#[test]
fn test_tick_records_frame_duration() {
    let mut timer = Timer::start(1_000);
    timer.tick(1_400);
    assert_eq!(timer.last_frame(), 400);
    assert_eq!(timer.frame(1_650), 250);
    assert_eq!(timer.global(1_650), 650);
}

#[test]
fn test_paused_span_is_excluded_from_frame_time() {
    let mut timer = Timer::start(0);
    // Busy from 0 to 100, paused from 100 to 700, busy again to 900.
    let paused: PausedTimer = timer.pause(100);
    assert_eq!(paused.elapsed(700), 600);
    timer.resume(paused, 700);
    // Of the 900 elapsed wall-clock nanoseconds, 600 were paused: the
    // frame clock sees only the 300 busy ones.
    assert_eq!(timer.frame(900), 300);
    assert!(timer.frame(900) < 100 + 600 + 200 + 1);
}

#[test]
fn test_pause_twice_accumulates_rewinds() {
    let mut timer = Timer::start(0);
    let first = timer.pause(50);
    timer.resume(first, 150);
    let second = timer.pause(200);
    timer.resume(second, 300);
    // 100 + 100 paused nanoseconds are invisible; 200 busy ones remain.
    assert_eq!(timer.frame(400), 200);
}

#[test]
fn test_u128_to_string_exact() {
    assert_eq!(u128_to_string(0), "0");
    assert_eq!(u128_to_string(7), "7");
    assert_eq!(u128_to_string(10), "10");
    assert_eq!(u128_to_string(90210), "90210");
    assert_eq!(u128_to_string(1_000_000_000), "1000000000");
}

#[test]
fn test_fmt_padded3_exact() {
    assert_eq!(fmt_padded3(0), "000");
    assert_eq!(fmt_padded3(7), "007");
    assert_eq!(fmt_padded3(42), "042");
    assert_eq!(fmt_padded3(999), "999");
}

#[test]
fn test_fmt_duration_exact() {
    assert_eq!(fmt_duration(0), "0 s 000 ms 000 μs 000 ns");
    assert_eq!(fmt_duration(1_002_003_004), "1 s 002 ms 003 μs 004 ns");
    assert_eq!(fmt_duration(61_999_999_999), "61 s 999 ms 999 μs 999 ns");
    assert_eq!(fmt_duration(123), "0 s 000 ms 000 μs 123 ns");
    assert_eq!(fmt_duration(45_678), "0 s 000 ms 045 μs 678 ns");
}
