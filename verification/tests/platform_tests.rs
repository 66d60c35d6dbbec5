use evox2_control::platform::{
    accent_color_rgb, accent_from_abgr, apps_use_light_theme, autostart_plan, copy_wide_buf,
    json_file_filter, AutostartAction,
    logon_create_outcome, logon_remove_outcome, normalize_run_path, registry_delete_succeeded,
    run_value_matches, schtasks_create_args, schtasks_delete_args, schtasks_exe,
    schtasks_message, schtasks_missing_task, schtasks_query_args, secure_boot_status,
    should_report_logon_remove_failure, start_with_windows_detected, ui_chrome, wide,
    ERROR_FILE_NOT_FOUND, ERROR_SUCCESS,
};

const GBK_FILE_NOT_FOUND: &[u8] = &[
    0xB4, 0xED, 0xCE, 0xF3, 0x3A, 0x20, 0xCF, 0xB5, 0xCD, 0xB3, 0xD5, 0xD2, 0xB2, 0xBB, 0xB5,
    0xBD, 0xD6, 0xB8, 0xB6, 0xA8, 0xB5, 0xC4, 0xCE, 0xC4, 0xBC, 0xFE, 0xA1, 0xA3,
];

#[test]
fn run_value_matches_quoted_and_unquoted_paths() {
    let exe = r"C:\Program Files\ec-su_axb35-win\evox2-control.exe";
    assert!(run_value_matches(exe, exe));
    assert!(run_value_matches(&format!("\"{exe}\""), exe));
    assert!(run_value_matches(exe, &format!("\"{exe}\"")));
    assert!(!run_value_matches(
        r"C:\Program Files\other\evox2-control.exe",
        exe
    ));
}

#[test]
fn registry_delete_treats_missing_value_as_success() {
    assert!(registry_delete_succeeded(ERROR_SUCCESS));
    assert!(registry_delete_succeeded(ERROR_FILE_NOT_FOUND));
    assert!(!registry_delete_succeeded(5));
}

#[test]
fn logon_task_is_created_elevated() {
    let args = schtasks_create_args(r"C:\Program Files\ec-su_axb35-win\evox2-control.exe");
    assert!(args
        .windows(2)
        .any(|pair| pair[0] == "/SC" && pair[1] == "ONLOGON"));
    assert!(args
        .windows(2)
        .any(|pair| pair[0] == "/RL" && pair[1] == "HIGHEST"));
    assert!(args.windows(2).any(|pair| {
        pair[0] == "/TR" && pair[1] == r#""C:\Program Files\ec-su_axb35-win\evox2-control.exe""#
    }));
    assert!(args.contains(&"/F".to_string()));
}

#[test]
fn missing_task_messages_are_recognized() {
    assert!(schtasks_missing_task(
        r#"ERROR: The specified task name "EVO-X2 Control" does not exist in the system."#
    ));
    assert!(schtasks_missing_task(
        "ERROR: The system cannot find the file specified."
    ));
    assert!(schtasks_missing_task("系统找不到指定的文件。"));
    assert!(schtasks_missing_task("指定的任务名不存在"));
    assert!(!schtasks_missing_task("Access is denied."));
}

#[test]
fn gbk_missing_task_is_not_recognized_as_utf8() {
    let lossy = String::from_utf8_lossy(GBK_FILE_NOT_FOUND);
    assert!(
        !schtasks_missing_task(&lossy),
        "UTF-8 lossy of GBK schtasks text must not look like a missing-task message: {lossy:?}"
    );
}

#[test]
fn absent_logon_task_is_not_a_remove_failure() {
    assert!(!should_report_logon_remove_failure(false, false));
    assert!(should_report_logon_remove_failure(false, true));
    assert!(!should_report_logon_remove_failure(true, false));
    assert!(should_report_logon_remove_failure(true, true));
}

#[test]
fn accent_from_abgr_matches_windows_layout() {
    assert_eq!(accent_from_abgr(0xFF_D4_78_00), (0x00, 0x78, 0xD4));
    assert_eq!(accent_from_abgr(0x00_00_00_FF), (0xFF, 0x00, 0x00));
}

#[test]
fn secure_boot_values() {
    assert_eq!(secure_boot_status(Some(1)), "Enabled");
    assert_eq!(secure_boot_status(Some(0)), "Disabled");
    assert_eq!(secure_boot_status(Some(7)), "Unknown (7)");
    assert_eq!(secure_boot_status(None), "Unknown");
}

#[test]
fn schtasks_argument_lists() {
    assert_eq!(schtasks_delete_args(), vec!["/Delete", "/TN", "EVO-X2 Control", "/F"]);
    assert_eq!(schtasks_query_args(), vec!["/Query", "/TN", "EVO-X2 Control"]);
    assert_eq!(schtasks_exe(r"C:\Windows\System32"), r"C:\Windows\System32\schtasks.exe");
}

#[test]
fn schtasks_output_is_merged_and_trimmed() {
    assert_eq!(schtasks_message("  ok \n", ""), "ok");
    assert_eq!(schtasks_message("out\n", "  err  "), "out\n\nerr");
    assert_eq!(schtasks_message("  ", " err "), "err");
}

#[test]
fn logon_task_outcomes() {
    assert_eq!(
        logon_create_outcome(false, "denied", false).unwrap_err(),
        "Failed to register logon task (denied)"
    );
    assert_eq!(
        logon_create_outcome(true, "", false).unwrap_err(),
        "Logon task was not registered"
    );
    assert!(logon_create_outcome(true, "", true).is_ok());
    assert!(logon_remove_outcome(false, "missing", false).is_ok());
    assert_eq!(
        logon_remove_outcome(true, "", true).unwrap_err(),
        "Logon task is still registered"
    );
    assert_eq!(
        logon_remove_outcome(false, "denied", true).unwrap_err(),
        "Failed to remove logon task (denied)"
    );
}

#[test]
fn start_with_windows_detection() {
    let exe = r"C:\Program Files\ec-su_axb35-win\evox2-control.exe";
    assert!(start_with_windows_detected(true, None, &[]));
    assert!(!start_with_windows_detected(false, None, &[exe.to_string()]));
    assert!(start_with_windows_detected(
        false,
        Some(exe),
        &["other".to_string(), format!("  \"{}\" ", exe.to_uppercase())]
    ));
    assert!(!start_with_windows_detected(false, Some(exe), &["other".to_string()]));
    assert_eq!(normalize_run_path("  \"a b\"  "), "a b");
}

#[test]
fn theme_settings() {
    assert!(apps_use_light_theme(None));
    assert!(!apps_use_light_theme(Some(0)));
    assert_eq!(accent_color_rgb(None, Some(0xFF_D4_78_00)), Some((0x00, 0x78, 0xD4)));
    assert_eq!(accent_color_rgb(Some(0xFF_00_00_00), Some(0x11)), None);
    let chrome = ui_chrome(Some(0), None, None);
    assert!(chrome.dark);
    assert_eq!(chrome.accent, (0, 120, 212));
}

#[test]
fn wide_strings_are_nul_terminated_utf16() {
    assert_eq!(wide("ab"), vec![0x61, 0x62, 0]);
    assert_eq!(wide("😀"), vec![0xD83D, 0xDE00, 0]);
    let filter = json_file_filter();
    let expected: Vec<u16> = "JSON\0*.json\0All files\0*.*\0\0".encode_utf16().collect();
    assert_eq!(filter, expected);
    let mut buf = vec![7u16; 5];
    copy_wide_buf(&mut buf, "evox2-config.json");
    assert_eq!(buf, "evox".encode_utf16().chain(std::iter::once(0)).collect::<Vec<_>>());
    let mut roomy = vec![7u16; 6];
    copy_wide_buf(&mut roomy, "ab");
    assert_eq!(roomy, vec![0x61, 0x62, 0, 7, 7, 7]);
}

#[test]
fn autostart_only_registers_under_program_files() {
    assert_eq!(autostart_plan(true, true), AutostartAction::Register);
    assert_eq!(autostart_plan(false, true), AutostartAction::RefuseAndRemove);
    assert_eq!(autostart_plan(true, false), AutostartAction::Remove);
    assert_eq!(autostart_plan(false, false), AutostartAction::Remove);
}
