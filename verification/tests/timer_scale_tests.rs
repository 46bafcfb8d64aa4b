use druid_shell::scale::{pixels_to_px, pixels_to_px_xy, px_to_pixels, px_to_pixels_xy};
use druid_shell::timer::{time_interval_from_deadline, TimerRegistry};

#[test]
fn deadline_in_the_past_waits_zero() {
    assert_eq!(time_interval_from_deadline(1000, 1000), 0);
    assert_eq!(time_interval_from_deadline(900, 1000), 0);
    assert_eq!(time_interval_from_deadline(0, u64::MAX), 0);
}

#[test]
fn deadline_ahead_waits_the_difference() {
    assert_eq!(time_interval_from_deadline(1500, 1000), 500);
    assert_eq!(time_interval_from_deadline(1001, 1000), 1);
}

#[test]
fn timer_tokens_start_at_one_and_strictly_increase() {
    let mut reg = TimerRegistry::new();
    let a = reg.next_timer_id();
    let b = reg.next_timer_id();
    let c = reg.next_timer_id();
    assert_eq!((a, b, c), (1, 2, 3));
    assert!(a < b && b < c);
    assert!(a != b && b != c && a != c);
}

#[test]
fn independent_registries_count_independently() {
    let mut r1 = TimerRegistry::new();
    let mut r2 = TimerRegistry::new();
    assert_eq!(r1.next_timer_id(), 1);
    assert_eq!(r1.next_timer_id(), 2);
    assert_eq!(r2.next_timer_id(), 1);
}

#[test]
fn default_dpi_conversion_is_identity() {
    assert_eq!(px_to_pixels(10, 96), 10);
    assert_eq!(px_to_pixels(-7, 96), -7);
    assert_eq!(px_to_pixels(0, 96), 0);
    assert_eq!(pixels_to_px(10, 96), 10);
    assert_eq!(pixels_to_px(-7, 96), -7);
}

#[test]
fn default_dpi_round_trip_returns_the_original() {
    for x in [-1000, -1, 0, 1, 33, 1000] {
        let phys = px_to_pixels(x, 96);
        assert_eq!(pixels_to_px(phys, 96), x);
    }
}

#[test]
fn double_density_scales_by_two() {
    assert_eq!(px_to_pixels(10, 192), 20);
    assert_eq!(pixels_to_px(20, 192), 10);
}

#[test]
fn conversion_rounds_to_the_nearest_pixel() {
    // 5 * 144 / 96 = 7.5, which rounds away from zero.
    assert_eq!(px_to_pixels(5, 144), 8);
    assert_eq!(px_to_pixels(-5, 144), -8);
    // 3 * 120 / 96 = 3.75 rounds to 4; 1 * 120 / 96 = 1.25 rounds to 1.
    assert_eq!(px_to_pixels(3, 120), 4);
    assert_eq!(px_to_pixels(1, 120), 1);
}

#[test]
fn xy_conversions_scale_both_coordinates() {
    assert_eq!(px_to_pixels_xy(10, -5, 192), (20, -10));
    assert_eq!(pixels_to_px_xy(20, -10, 192), (10, -5));
}
