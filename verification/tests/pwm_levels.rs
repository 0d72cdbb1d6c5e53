use breathing_led::gpio::level_word;
use breathing_led::pwm::{desired_level, on_ticks};
use breathing_led::uart::{transmit_ready, LSR_THRE};

#[test]
fn quarter_duty_on_the_board() {
    let ticks = on_ticks(160_000, 25, 100);
    assert_eq!(ticks, 40_000);
    assert!(desired_level(39_999, ticks));
    assert!(!desired_level(40_000, ticks));
}

#[test]
fn on_ticks_stays_within_the_period_for_every_duty() {
    for duty in 0..=100u64 {
        let ticks = on_ticks(160_000, duty, 100);
        assert!(ticks <= 160_000);
        assert_eq!(ticks, 1_600 * duty);
    }
}

#[test]
fn on_ticks_at_the_extremes() {
    assert_eq!(on_ticks(160_000, 0, 100), 0);
    assert_eq!(on_ticks(160_000, 100, 100), 160_000);
    assert_eq!(on_ticks(0, 50, 100), 0);
}

#[test]
fn on_ticks_rounds_down() {
    assert_eq!(on_ticks(10, 1, 3), 3);
    assert_eq!(on_ticks(10, 2, 3), 6);
    assert_eq!(on_ticks(7, 1, 2), 3);
    assert_eq!(on_ticks(1, 99, 100), 0);
}

#[test]
fn on_ticks_with_a_product_beyond_64_bits() {
    assert_eq!(on_ticks(u64::MAX, u64::MAX, u64::MAX), u64::MAX);
    assert_eq!(on_ticks(u64::MAX, 1, 2), u64::MAX / 2);
    assert_eq!(on_ticks(1 << 63, 3, 4), 3 << 61);
}

#[test]
fn fully_off_is_never_high_and_fully_on_always() {
    let off = on_ticks(160_000, 0, 100);
    let on = on_ticks(160_000, 100, 100);
    for elapsed in [0u64, 1, 79_999, 159_999] {
        assert!(!desired_level(elapsed, off));
        assert!(desired_level(elapsed, on));
    }
}

#[test]
fn level_falls_once_and_never_rises_within_a_period() {
    let ticks = on_ticks(1_000, 37, 100);
    assert_eq!(ticks, 370);
    let mut changes = 0;
    let mut last = desired_level(0, ticks);
    assert!(last);
    for elapsed in 1..1_000u64 {
        let level = desired_level(elapsed, ticks);
        if level != last {
            assert!(last && !level);
            assert_eq!(elapsed, 370);
            changes += 1;
        }
        last = level;
    }
    assert_eq!(changes, 1);
}

#[test]
fn level_word_is_one_or_zero() {
    assert_eq!(level_word(true), 1);
    assert_eq!(level_word(false), 0);
}

#[test]
fn transmitter_is_ready_on_bit_five_alone() {
    assert_eq!(LSR_THRE, 1 << 5);
    assert!(transmit_ready(0x20));
    assert!(transmit_ready(0xFFFF_FFFF));
    assert!(transmit_ready(0x60));
    assert!(!transmit_ready(0));
    assert!(!transmit_ready(0x40));
    assert!(!transmit_ready(0xFFFF_FFDF));
}
