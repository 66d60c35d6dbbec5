//! Over-temperature notification policy.
//!
//! Times are milliseconds on a monotonic clock that the caller reads.
use vstd::prelude::*;

verus! {

/// Minimum time between two alerts: ten minutes.
pub const TEMP_ALERT_COOLDOWN_MS: u64 = 600_000;
pub const TEMP_ALERT_MIN: u8 = 70;
pub const TEMP_ALERT_MAX: u8 = 97;
pub const TEMP_ALERT_DEFAULT: u8 = 90;

/// `celsius` clamped into `TEMP_ALERT_MIN..=TEMP_ALERT_MAX`.
pub open spec fn clamp_threshold_spec(celsius: u8) -> u8 {
    if celsius < TEMP_ALERT_MIN {
        TEMP_ALERT_MIN
    } else if celsius > TEMP_ALERT_MAX {
        TEMP_ALERT_MAX
    } else {
        celsius
    }
}

/// Whether an alert is due: enabled, at or above the clamped threshold, and
/// either never alerted before or the cooldown has fully passed. A clock that
/// went backwards counts as no time elapsed.
pub open spec fn should_fire_spec(enabled: bool, threshold: u8, temp: u8, last_alert_ms: Option<u64>, now_ms: u64) -> bool {
    &&& enabled
    &&& temp >= clamp_threshold_spec(threshold)
    &&& match last_alert_ms {
        None => true,
        Some(previous) => now_ms >= previous && now_ms - previous >= TEMP_ALERT_COOLDOWN_MS,
    }
}

pub fn clamp_threshold(celsius: u8) -> (r: u8)
    ensures
        r == clamp_threshold_spec(celsius),
        TEMP_ALERT_MIN <= r <= TEMP_ALERT_MAX,
{
    if celsius < TEMP_ALERT_MIN {
        TEMP_ALERT_MIN
    } else if celsius > TEMP_ALERT_MAX {
        TEMP_ALERT_MAX
    } else {
        celsius
    }
}

pub fn should_fire_temp_alert(
    enabled: bool,
    threshold: u8,
    temp: u8,
    last_alert_ms: Option<u64>,
    now_ms: u64,
) -> (r: bool)
    ensures
        r == should_fire_spec(enabled, threshold, temp, last_alert_ms, now_ms),
{
    if !enabled || temp < clamp_threshold(threshold) {
        return false;
    }
    match last_alert_ms {
        None => true,
        Some(previous) => {
            let elapsed = now_ms.saturating_sub(previous);
            elapsed >= TEMP_ALERT_COOLDOWN_MS
        },
    }
}

/// Once an alert has fired at `fired_ms`, no alert fires again before the
/// cooldown has passed, whatever the temperature and settings.
pub proof fn lemma_alert_respects_cooldown(enabled: bool, threshold: u8, temp: u8, fired_ms: u64, now_ms: u64)
    requires
        now_ms < fired_ms + TEMP_ALERT_COOLDOWN_MS,
    ensures
        !should_fire_spec(enabled, threshold, temp, Some(fired_ms), now_ms),
{
}

/// The threshold never leaves its range, and clamping twice changes nothing.
pub proof fn lemma_clamp_threshold_idempotent(celsius: u8)
    ensures
        TEMP_ALERT_MIN <= clamp_threshold_spec(celsius) <= TEMP_ALERT_MAX,
        clamp_threshold_spec(clamp_threshold_spec(celsius)) == clamp_threshold_spec(celsius),
{
}

} // verus!
