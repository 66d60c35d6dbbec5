use std::collections::VecDeque;

use evox2_control::curve::{
    average_temps, clamp_rampup_point, derive_rampdown, next_fan_level, push_temp_sample,
};

#[test]
fn average_temps_empty_is_none() {
    assert_eq!(average_temps(&[]), None);
}

#[test]
fn average_temps_rounds_half_up() {
    assert_eq!(average_temps(&[40]), Some(40));
    assert_eq!(average_temps(&[59, 60]), Some(60));
    assert_eq!(average_temps(&[50, 50, 50, 70]), Some(55));
}

#[test]
fn next_fan_level_ramps_up_then_down() {
    let rampup = [60, 70, 83, 95, 97];
    let rampdown = [40, 50, 80, 94, 96];
    assert_eq!(next_fan_level(0, 59, &rampup, &rampdown), 0);
    assert_eq!(next_fan_level(0, 60, &rampup, &rampdown), 1);
    assert_eq!(next_fan_level(1, 69, &rampup, &rampdown), 1);
    assert_eq!(next_fan_level(1, 40, &rampup, &rampdown), 0);
    assert_eq!(next_fan_level(5, 96, &rampup, &rampdown), 4);
}

#[test]
fn push_temp_sample_drops_oldest() {
    let mut window = VecDeque::new();
    for temp in [10, 20, 30, 40] {
        push_temp_sample(&mut window, temp, 3);
    }
    assert_eq!(window.iter().copied().collect::<Vec<_>>(), vec![20, 30, 40]);
    push_temp_sample(&mut window, 50, 1);
    assert_eq!(window.iter().copied().collect::<Vec<_>>(), vec![50]);
}

#[test]
fn derive_rampdown_subtracts_gap() {
    assert_eq!(derive_rampdown(&[60, 70, 83, 95, 97]), [52, 62, 75, 87, 89]);
}

#[test]
fn derive_rampdown_tight_curve_stays_below_and_nondecreasing() {
    let rampup = [20, 21, 22, 23, 24];
    let rampdown = derive_rampdown(&rampup);
    for index in 0..5 {
        assert!(rampdown[index] < rampup[index]);
        if index > 0 {
            assert!(rampdown[index] >= rampdown[index - 1]);
        }
    }
}

#[test]
fn clamp_rampup_point_cannot_cross_neighbors() {
    let rampup = [20, 50, 80, 90, 95];
    assert_eq!(clamp_rampup_point(rampup, 1, 10)[1], 21);
    assert_eq!(clamp_rampup_point(rampup, 1, 90)[1], 79);
    assert_eq!(clamp_rampup_point(rampup, 0, 200)[0], 49);
    assert_eq!(clamp_rampup_point(rampup, 4, 0)[4], 91);
}

#[test]
fn level_moves_at_most_one_step_per_tick() {
    let rampup = [60, 70, 83, 95, 97];
    let rampdown = [40, 50, 80, 94, 96];
    assert_eq!(next_fan_level(0, 100, &rampup, &rampdown), 1);
    assert_eq!(next_fan_level(5, 0, &rampup, &rampdown), 4);
    // between the two curves the level holds
    assert_eq!(next_fan_level(2, 75, &rampup, &rampdown), 2);
}

#[test]
fn zero_window_keeps_one_sample() {
    let mut window = VecDeque::new();
    push_temp_sample(&mut window, 33, 0);
    push_temp_sample(&mut window, 44, 0);
    assert_eq!(window.iter().copied().collect::<Vec<_>>(), vec![44]);
}
