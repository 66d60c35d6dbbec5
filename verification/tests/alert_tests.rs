use evox2_control::alert::{
    clamp_threshold, should_fire_temp_alert, TEMP_ALERT_COOLDOWN_MS, TEMP_ALERT_DEFAULT,
    TEMP_ALERT_MAX, TEMP_ALERT_MIN,
};

const NOW_MS: u64 = 5_000_000;

#[test]
fn does_not_fire_when_disabled() {
    assert!(!should_fire_temp_alert(false, 90, 95, None, NOW_MS));
}

#[test]
fn does_not_fire_when_cool() {
    assert!(!should_fire_temp_alert(true, 90, 80, None, NOW_MS));
}

#[test]
fn fires_when_hot_and_no_previous() {
    assert!(should_fire_temp_alert(true, 90, 90, None, NOW_MS));
}

#[test]
fn does_not_fire_within_cooldown() {
    let previous = NOW_MS - 60_000;
    assert!(!should_fire_temp_alert(true, 90, 95, Some(previous), NOW_MS));
}

#[test]
fn fires_after_cooldown() {
    let previous = NOW_MS - TEMP_ALERT_COOLDOWN_MS;
    assert!(should_fire_temp_alert(true, 90, 91, Some(previous), NOW_MS));
}

#[test]
fn alert_threshold_is_clamped() {
    assert_eq!(clamp_threshold(10), TEMP_ALERT_MIN);
    assert_eq!(clamp_threshold(120), TEMP_ALERT_MAX);
    assert_eq!(clamp_threshold(85), 85);
    assert_eq!(TEMP_ALERT_DEFAULT, 90);
    // a threshold below the range behaves as 70
    assert!(should_fire_temp_alert(true, 0, 70, None, NOW_MS));
    assert!(!should_fire_temp_alert(true, 0, 69, None, NOW_MS));
}

#[test]
fn clock_going_backwards_counts_as_no_time() {
    assert!(!should_fire_temp_alert(true, 90, 95, Some(NOW_MS + 10), NOW_MS));
}

#[test]
fn alert_one_millisecond_before_cooldown_is_suppressed() {
    let previous = NOW_MS - TEMP_ALERT_COOLDOWN_MS + 1;
    assert!(!should_fire_temp_alert(true, 90, 97, Some(previous), NOW_MS));
}
