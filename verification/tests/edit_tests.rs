use evox2_control::curve::derive_rampdown;
use evox2_control::edit::{
    curve_point_range, error_expired, fan_chart_max_rpm, rename_action, same_curve, EditState,
    RenameAction, ERROR_SHOW_MS, TEMP_CHART_MAX,
};
use evox2_control::fan::{display_name, stored_custom_name};

#[test]
fn edit_state_starts_on_factory_curves() {
    let edit = EditState::default();
    assert_eq!(edit.temp_fan_rampup[0], [60, 70, 83, 95, 97]);
    assert_eq!(edit.temp_fan_rampdown[1], [40, 50, 80, 94, 96]);
    assert_eq!(edit.temp_fan_rampup[2], [20, 60, 83, 95, 97]);
    assert_eq!(edit.temp_fan_rampdown[2], [0, 50, 80, 94, 96]);
    for index in 0..3 {
        assert!(edit.curve_is_default(index));
        assert!(!edit.fan_applying[index]);
        assert!(!edit.curve_dirty[index]);
        assert_eq!(edit.temp_fan_level[index], 0);
        assert!(edit.temp_fan_name[index].is_empty());
    }
    assert!(!edit.apu_applying);
    assert!(!edit.renaming_processor);
}

#[test]
fn sync_keeps_dragged_and_unsaved_values() {
    let mut edit = EditState::default();
    edit.sync_fan(0, 3, [10, 20, 30, 40, 50], [5, 15, 25, 35, 45]);
    assert_eq!(edit.temp_fan_level[0], 3);
    assert_eq!(edit.temp_fan_rampup[0], [10, 20, 30, 40, 50]);
    assert_eq!(edit.temp_fan_rampdown[0], [5, 15, 25, 35, 45]);

    edit.dragging_level[1] = true;
    edit.curve_dirty[1] = true;
    edit.sync_fan(1, 4, [10, 20, 30, 40, 50], [5, 15, 25, 35, 45]);
    assert_eq!(edit.temp_fan_level[1], 0);
    assert_eq!(edit.temp_fan_rampup[1], [60, 70, 83, 95, 97]);

    edit.fan_applying[2] = true;
    edit.sync_fan(2, 5, [10, 20, 30, 40, 50], [5, 15, 25, 35, 45]);
    assert_eq!(edit.temp_fan_level[2], 5);
    assert_eq!(edit.temp_fan_rampup[2], [20, 60, 83, 95, 97]);
}

#[test]
fn editing_a_point_clamps_and_derives_rampdown() {
    let mut edit = EditState::default();
    assert!(edit.edit_curve_point(0, 4, 150));
    assert_eq!(edit.temp_fan_rampup[0], [60, 70, 83, 95, 100]);
    assert_eq!(edit.temp_fan_rampdown[0], derive_rampdown(&[60, 70, 83, 95, 100]));
    assert!(edit.curve_dirty[0]);
    assert!(!edit.curve_is_default(0));

    let mut other = EditState::default();
    assert!(!other.edit_curve_point(1, 1, 70));
    assert!(!other.curve_dirty[1]);
    assert!(other.edit_curve_point(1, 1, 40));
    assert_eq!(other.temp_fan_rampup[1], [60, 61, 83, 95, 97]);
}

#[test]
fn commit_waits_for_release_and_unsaved_edit() {
    let mut edit = EditState::default();
    assert_eq!(edit.curve_commit(0, true, false), None);
    edit.edit_curve_point(0, 2, 80);
    assert_eq!(edit.curve_commit(0, true, true), None);
    assert!(edit.dragging_curve[0]);
    assert_eq!(edit.curve_commit(0, false, false), None);
    let committed = edit.curve_commit(0, true, false).unwrap();
    assert_eq!(committed.0, [60, 70, 80, 95, 97]);
    assert_eq!(committed.1, derive_rampdown(&[60, 70, 80, 95, 97]));
    assert!(!edit.dragging_curve[0]);

    edit.begin_fan_apply(0);
    assert!(edit.fan_applying[0]);
    edit.finish_fan_apply(0, false);
    assert!(!edit.fan_applying[0]);
    assert!(edit.curve_dirty[0]);
    edit.begin_fan_apply(0);
    edit.finish_fan_apply(0, true);
    assert!(!edit.curve_dirty[0]);
}

#[test]
fn restore_default_curve_marks_unsaved() {
    let mut edit = EditState::default();
    edit.edit_curve_point(2, 0, 30);
    edit.curve_dirty[2] = false;
    let (up, down) = edit.restore_default_curve(2);
    assert_eq!(up, [20, 60, 83, 95, 97]);
    assert_eq!(down, [0, 50, 80, 94, 96]);
    assert!(edit.curve_dirty[2]);
    assert!(edit.curve_is_default(2));
}

#[test]
fn point_range_stays_between_neighbours() {
    assert_eq!(curve_point_range(&[60, 70, 83, 95, 97], 0, 60), (0, 69));
    assert_eq!(curve_point_range(&[60, 70, 83, 95, 97], 2, 83), (71, 94));
    assert_eq!(curve_point_range(&[60, 70, 83, 95, 97], 4, 97), (96, 100));
    assert_eq!(curve_point_range(&[60, 61, 62, 95, 97], 1, 61), (61, 61));
}

#[test]
fn rename_priorities() {
    assert_eq!(rename_action(true, true, true), RenameAction::RestoreDefault);
    assert_eq!(rename_action(false, true, true), RenameAction::Cancel);
    assert_eq!(rename_action(false, false, true), RenameAction::Commit);
    assert_eq!(rename_action(false, false, false), RenameAction::Continue);
}

#[test]
fn stored_name_drops_blank_and_default() {
    assert_eq!(stored_custom_name(Some("  Big fan "), "CPU fan"), Some("Big fan".to_string()));
    assert_eq!(stored_custom_name(Some("   "), "CPU fan"), None);
    assert_eq!(stored_custom_name(Some(" CPU fan"), "CPU fan"), None);
    assert_eq!(stored_custom_name(None, "CPU fan"), None);
    assert_eq!(display_name(Some("Big fan"), "CPU fan"), "Big fan");
    assert_eq!(display_name(None, "CPU fan"), "CPU fan");
}

#[test]
fn chart_limits_and_error_timeout() {
    assert_eq!(fan_chart_max_rpm(0), 5000);
    assert_eq!(fan_chart_max_rpm(1), 5000);
    assert_eq!(fan_chart_max_rpm(2), 2500);
    assert_eq!(TEMP_CHART_MAX, 100);
    assert!(!error_expired(1_000, 1_000 + ERROR_SHOW_MS));
    assert!(error_expired(1_000, 1_001 + ERROR_SHOW_MS));
    assert!(!error_expired(9_000, 1_000));
    assert!(same_curve(&[1, 2, 3, 4, 5], &[1, 2, 3, 4, 5]));
    assert!(!same_curve(&[1, 2, 3, 4, 5], &[1, 2, 3, 4, 6]));
}
