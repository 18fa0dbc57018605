use text_editor::timer::{is_past_mark, is_period_start, is_second_half, Timer};

#[test]
fn second_half_of_each_period_is_on() {
    assert!(!is_second_half(0, 2000));
    assert!(!is_second_half(999, 2000));
    assert!(is_second_half(1000, 2000));
    assert!(is_second_half(1999, 2000));
    assert!(!is_second_half(2000, 2000));
    assert!(is_second_half(3000, 2000));
}

#[test]
fn odd_periods_switch_after_the_middle() {
    assert!(!is_second_half(0, 3));
    assert!(!is_second_half(1, 3));
    assert!(is_second_half(2, 3));
    assert!(!is_second_half(3, 3));
}

#[test]
fn a_period_of_one_is_never_on() {
    for elapsed in 0..5 {
        assert!(!is_second_half(elapsed, 1));
    }
}

#[test]
fn the_largest_period_does_not_overflow() {
    assert!(!is_second_half(0, u128::MAX));
    assert!(is_second_half(u128::MAX - 1, u128::MAX));
    assert!(is_second_half(u128::MAX / 2 + 1, u128::MAX));
    assert!(!is_second_half(u128::MAX / 2, u128::MAX));
}

#[test]
fn period_start_is_every_multiple() {
    assert!(is_period_start(0, 5));
    assert!(!is_period_start(4, 5));
    assert!(is_period_start(10, 5));
}

#[test]
fn past_mark_counts_from_the_start_of_each_period() {
    assert!(!is_past_mark(0, 10, 3));
    assert!(!is_past_mark(2, 10, 3));
    assert!(is_past_mark(3, 10, 3));
    assert!(is_past_mark(9, 10, 3));
    assert!(!is_past_mark(10, 10, 3));
    assert!(is_past_mark(0, 10, 0));
    assert!(!is_past_mark(9, 10, 10));
}

#[test]
fn a_new_timer_starts_in_the_first_half_of_a_long_period() {
    let t = Timer::new();
    assert!(!t.switch_every_n_seconds(3600));
    assert!(!t.switch_every_n_millis(3_600_000));
    assert!(!t.switch_every_n_for_m_millis(3_600_000, 1_800_000));
    assert!(t._true_every_n_seconds(3600));
    assert!(t._time_as_millis() < 3_600_000);
}

#[test]
fn a_timer_with_a_period_of_one_is_never_on() {
    let t = Timer::new();
    assert!(!t.switch_every_n_seconds(1));
    assert!(!t.switch_every_n_millis(1));
}
