use evox2_control::cli::{
    exit_code_from_error, fan_dry_run_line, fan_line, is_cli_program_name, mode_dry_run_lines,
    parse_fan_or_usage, plan_fan_edit, plan_fan_request, plan_mode, startup_error_text,
    status_lines, title_case, usage_error, CliError, FanRequest, EXIT_FIRMWARE, EXIT_NOT_ADMIN,
    EXIT_OK, EXIT_PAWNIO, EXIT_RUNTIME, EXIT_UNSUPPORTED_HARDWARE, EXIT_USAGE,
};
use evox2_control::ec::PowerMode;
use evox2_control::i18n::{t, Language};
use evox2_control::session::{FanSnapshot, MetricsSnapshot, RuntimeStatus};
use evox2_control::thermal::TemperatureSource;

#[test]
fn maps_error_strings_to_exit_codes() {
    assert_eq!(
        exit_code_from_error(
            "This application must be run as Administrator to access the EC through PawnIO."
        ),
        EXIT_NOT_ADMIN
    );
    assert_eq!(
        exit_code_from_error("PawnIO is required for hardware access."),
        EXIT_PAWNIO
    );
    assert_eq!(
        exit_code_from_error(
            "Unsupported hardware 'Example'. EC writes are disabled to avoid damaging unrelated machines."
        ),
        EXIT_UNSUPPORTED_HARDWARE
    );
    assert_eq!(
        exit_code_from_error(
            "Unsupported EC firmware 1.03. This software requires EC firmware 1.04 or higher."
        ),
        EXIT_FIRMWARE
    );
    assert_eq!(
        exit_code_from_error("EC timeout waiting for input buffer"),
        EXIT_RUNTIME
    );
    assert_eq!(EXIT_OK, 0);
    assert_ne!(EXIT_OK, EXIT_USAGE);
}

#[test]
fn administrator_beats_pawnio_in_the_same_sentence() {
    assert_eq!(
        exit_code_from_error("Administrator rights required for PawnIO"),
        EXIT_NOT_ADMIN
    );
}

#[test]
fn cli_error_from_string_takes_its_exit_code() {
    let error: CliError = String::from("ec writes are disabled here").into();
    assert_eq!(error.code, EXIT_UNSUPPORTED_HARDWARE);
    assert_eq!(error.message, "ec writes are disabled here");
    let lower_admin: CliError = String::from("needs administrator").into();
    assert_eq!(lower_admin.code, EXIT_NOT_ADMIN);
}

#[test]
fn usage_error_has_exit_code_two() {
    let error = usage_error(Language::En);
    assert_eq!(error.code, EXIT_USAGE);
    assert_eq!(error.message, t(Language::En, "usage_cli"));
}

#[test]
fn bad_fan_is_a_usage_error_with_its_own_message() {
    let error = parse_fan_or_usage("gpu").unwrap_err();
    assert_eq!(error.code, EXIT_USAGE);
    assert_eq!(
        error.message,
        "Unknown fan 'gpu'. Use 1|2|3 or cpu|secondary|system."
    );
    assert_eq!(parse_fan_or_usage(" Secondary ").unwrap(), 2);
}

#[test]
fn mode_argument_is_checked() {
    assert!(plan_mode(Language::En, None).unwrap().is_none());
    assert_eq!(
        plan_mode(Language::En, Some("quiet")).unwrap(),
        Some(PowerMode::Quiet)
    );
    let error = plan_mode(Language::En, Some("turbo")).unwrap_err();
    assert_eq!(error.code, EXIT_USAGE);
    assert_eq!(
        error.message,
        "Invalid power mode. Use quiet, balanced, or performance."
    );
}

#[test]
fn mode_dry_run_prints_register_and_value() {
    let lines = mode_dry_run_lines(Language::En, PowerMode::Performance);
    assert_eq!(
        lines,
        vec![
            "Would set EVO-X2 P-MODE:".to_string(),
            "register: 0x31".to_string(),
            "value:    0x01".to_string(),
            format!("mode:     {}", t(Language::En, "performance")),
        ]
    );
}

#[test]
fn fan_requests_are_planned() {
    assert!(matches!(
        plan_fan_request(Language::En, None, None, None, None, false, true).unwrap(),
        FanRequest::ListAll
    ));
    assert!(matches!(
        plan_fan_request(Language::En, Some("cpu"), None, None, None, false, true).unwrap(),
        FanRequest::Show(1)
    ));
    match plan_fan_request(Language::En, Some("3"), Some("FIXED"), Some("4"), None, false, true).unwrap() {
        FanRequest::Edit(edit) => {
            assert_eq!(edit.fan_id, 3);
            assert_eq!(edit.mode, "fixed");
            assert_eq!(edit.level, 4);
            assert!(edit.rampup.is_none());
        }
        _ => panic!("expected an edit"),
    }
    let usage = plan_fan_request(Language::En, None, Some("auto"), None, None, false, true).unwrap_err();
    assert_eq!(usage.code, EXIT_USAGE);
    assert_eq!(usage.message, t(Language::En, "usage_cli"));
}

#[test]
fn fan_edits_are_checked() {
    let curve = plan_fan_edit(
        Language::En,
        2,
        "curve",
        Some("20,60,83,95,97"),
        Some("0,50,80,94,96"),
    )
    .unwrap();
    assert_eq!(curve.rampup, Some([20, 60, 83, 95, 97]));
    assert_eq!(curve.rampdown, Some([0, 50, 80, 94, 96]));
    assert_eq!(curve.level, 0);

    let bad_curve =
        plan_fan_edit(Language::En, 2, "curve", Some("1,2,3"), Some("1,2,3,4,5")).unwrap_err();
    assert_eq!(bad_curve.code, EXIT_USAGE);
    assert_eq!(
        bad_curve.message,
        "Fan curve must have exactly 5 comma-separated values"
    );

    assert!(plan_fan_edit(Language::En, 1, "fixed", Some("6"), None).is_err());
    assert!(plan_fan_edit(Language::En, 1, "fixed", Some("3"), Some("1")).is_err());
    assert!(plan_fan_edit(Language::En, 1, "auto", Some("3"), None).is_err());
    assert!(plan_fan_edit(Language::En, 1, "turbo", None, None).is_err());
    let auto = plan_fan_edit(Language::En, 1, "Auto", None, None).unwrap();
    assert_eq!(auto.mode, "auto");
}

#[test]
fn fan_lines_name_the_fan() {
    assert_eq!(
        fan_line(Language::En, 1, "auto", 2, 1500),
        format!("{} auto 2 1500 RPM", t(Language::En, "cpu_fan"))
    );
    let edit = plan_fan_edit(Language::En, 3, "fixed", Some("5"), None).unwrap();
    assert_eq!(
        fan_dry_run_line(Language::En, &edit),
        format!(
            "Would set EVO-X2 P-MODE: {} fixed 5",
            t(Language::En, "system_fan")
        )
    );
}

#[test]
fn title_case_uppercases_the_first_letter() {
    assert_eq!(title_case("connected"), "Connected");
    assert_eq!(title_case(""), "");
    assert_eq!(title_case("ßx"), "SSx");
}

#[test]
fn cli_program_name_is_case_insensitive() {
    assert!(is_cli_program_name("evox2ctl"));
    assert!(is_cli_program_name("EVOX2CTL"));
    assert!(!is_cli_program_name("evox2-control"));
}

#[test]
fn startup_errors_are_explained() {
    let (message, open_site) = startup_error_text(
        Language::En,
        "This application must be run as Administrator to access the EC through PawnIO.",
    );
    assert_eq!(message, t(Language::En, "admin_required"));
    assert!(open_site);
    let (message, open_site) = startup_error_text(Language::En, "PawnIO is required");
    assert_eq!(message, t(Language::En, "pawnio_missing"));
    assert!(open_site);
    let (message, open_site) = startup_error_text(Language::En, "disk full");
    assert_eq!(message, "disk full");
    assert!(!open_site);
}

fn snapshot(rpm: u16) -> FanSnapshot {
    FanSnapshot {
        mode: "auto".into(),
        level: 0,
        rpm,
        rampup_curve: [60, 70, 83, 95, 97],
        rampdown_curve: [40, 50, 80, 94, 96],
    }
}

#[test]
fn status_lines_follow_the_metrics() {
    let runtime = RuntimeStatus {
        pawnio: "connected".into(),
        lpcacpiec: "loaded".into(),
        secure_boot: "Enabled".into(),
        hardware: "GMKtec EVO-X2".into(),
        hardware_supported: true,
    };
    let metrics = MetricsSnapshot {
        power_mode: "balanced".into(),
        temperature: 47,
        temperature_source: TemperatureSource::Gpu,
        gpu_temp: Some(47),
        cpu_temp: None,
        soc_temp: None,
        hotspot_temp: None,
        ec_raw_temp: 40,
        fans: [snapshot(1200), snapshot(0), snapshot(800)],
    };
    let lines = status_lines(Language::En, &runtime, &metrics);
    assert_eq!(lines.len(), 8);
    assert_eq!(lines[0], format!("{} GMKtec EVO-X2", t(Language::En, "model")));
    assert_eq!(
        lines[2],
        format!(
            "{} 47 C ({})",
            t(Language::En, "apu_temp"),
            t(Language::En, "temp_src_gpu")
        )
    );
    assert_eq!(lines[3], format!("{} 1200 RPM", t(Language::En, "cpu_fan")));
    assert_eq!(lines[6], format!("{} Connected", t(Language::En, "pawnio")));
    assert_eq!(lines[7], format!("{} Enabled", t(Language::En, "secure_boot")));
}

#[test]
fn curve_edit_needs_the_running_window() {
    let refused = plan_fan_request(
        Language::En,
        Some("3"),
        Some("curve"),
        Some("20,60,83,95,97"),
        Some("0,50,80,94,96"),
        false,
        false,
    )
    .unwrap_err();
    assert_eq!(refused.code, EXIT_USAGE);
    assert_eq!(
        refused.message,
        "Curve mode requires the running window (evox2-control). Use the GUI, or fan auto / fan fixed."
    );
    for (dry_run, window) in [(true, false), (false, true), (true, true)] {
        assert!(matches!(
            plan_fan_request(
                Language::En,
                Some("3"),
                Some("curve"),
                Some("20,60,83,95,97"),
                Some("0,50,80,94,96"),
                dry_run,
                window,
            ),
            Ok(FanRequest::Edit(_))
        ));
    }
    assert!(plan_fan_request(Language::En, Some("1"), Some("fixed"), Some("3"), None, false, false).is_ok());
}
