use evox2_control::config::ServerConfig;
use evox2_control::ec::{EcController, EcOperation, EcResult, EC_REG_APU_POWER_MODE};
use evox2_control::ec_io::MockEcIoBackend;
use evox2_control::hardware::HardwareIdentity;
use evox2_control::logger::LogLevel;
use evox2_control::session::{
    apply_fan_edit, connect_error_message, curve_monitor_step, driver_version_text, fan_snapshot,
    firmware_version, hardware_log_line, metrics, power_mode, release_curve_fans, restore_saved_state,
    runtime_status, set_fan_name, set_power_mode, update_fan_config, FanField,
    NOT_ADMIN_MESSAGE,
};
use evox2_control::pawnio::PAWNIO_MISSING_MESSAGE;
use evox2_control::thermal::TemperatureSource;

const DATA_DIR: &str = "C:\\ProgramData\\ec-su_axb35-win";

fn evo_x2() -> HardwareIdentity {
    HardwareIdentity {
        system_manufacturer: "GMKtec".into(),
        system_product: "EVO-X2".into(),
        ..HardwareIdentity::default()
    }
}

#[test]
fn power_mode_is_read_and_set() {
    let mut controller = EcController::new_unchecked(MockEcIoBackend::with_firmware(1, 4));
    let mut config = ServerConfig::for_data_dir(DATA_DIR);
    assert_eq!(power_mode(&mut controller).unwrap(), "balanced");
    let (applied, log) = set_power_mode(&mut controller, &mut config, "quiet").unwrap();
    assert_eq!(applied, "quiet");
    assert_eq!(log.as_deref(), Some("power mode changed: balanced -> quiet"));
    assert_eq!(config.apu_power_mode.as_deref(), Some("quiet"));
    assert_eq!(controller.backend().register(EC_REG_APU_POWER_MODE), 0x02);
    let error = set_power_mode(&mut controller, &mut config, "turbo").unwrap_err();
    assert_eq!(error, "Invalid power mode: turbo");
    assert_eq!(config.apu_power_mode.as_deref(), Some("quiet"));
}

#[test]
fn firmware_text_is_padded() {
    let mut controller = EcController::new_unchecked(MockEcIoBackend::with_firmware(1, 4));
    assert_eq!(firmware_version(&mut controller).unwrap(), "1.04");
    let mut broken = EcController::new_unchecked(MockEcIoBackend::with_firmware(0, 0));
    assert_eq!(
        firmware_version(&mut broken).unwrap_err(),
        "Invalid firmware version detected"
    );
}

#[test]
fn fan_snapshot_reads_the_fan() {
    let mut mock = MockEcIoBackend::with_firmware(1, 4);
    mock.set_register(0x21, 0x10);
    mock.set_register(0x35, 0x04);
    mock.set_register(0x36, 0xB0);
    let mut controller = EcController::new_unchecked(mock);
    let snapshot = fan_snapshot(&mut controller, 1).unwrap();
    assert_eq!(snapshot.mode, "auto");
    assert_eq!(snapshot.rpm, 1200);
    assert_eq!(snapshot.rampup_curve, [60, 70, 83, 95, 97]);
    assert_eq!(snapshot.rampdown_curve, [40, 50, 80, 94, 96]);
    assert_eq!(
        fan_snapshot(&mut controller, 0).unwrap_err(),
        "Invalid fan ID: 0"
    );
}

#[test]
fn metrics_combine_all_readings() {
    let mut mock = MockEcIoBackend::with_firmware(1, 4);
    mock.set_register(0x70, 48);
    for register in [0x21u8, 0x23, 0x25] {
        mock.set_register(register, 0x10);
    }
    let mut controller = EcController::new_unchecked(mock);
    let m = metrics(&mut controller, None, Some(51)).unwrap();
    assert_eq!(m.ec_raw_temp, 48);
    assert_eq!(m.temperature, 51);
    assert_eq!(m.temperature_source, TemperatureSource::Adl);
    assert_eq!(m.power_mode, "balanced");
    assert_eq!(m.fans[2].rampup_curve, [20, 60, 83, 95, 97]);
}

#[test]
fn fan_edit_updates_controller_and_config() {
    let mut controller = EcController::new_unchecked(MockEcIoBackend::with_firmware(1, 4));
    let mut config = ServerConfig::for_data_dir(DATA_DIR);
    apply_fan_edit(&mut controller, &mut config, 2, "fixed", 3, None, None).unwrap();
    let fan2 = config.fan2.as_ref().unwrap();
    assert_eq!(fan2.mode, "fixed");
    assert_eq!(fan2.level, 3);
    let snapshot = fan_snapshot(&mut controller, 2).unwrap();
    assert_eq!(snapshot.level, 3);

    apply_fan_edit(
        &mut controller,
        &mut config,
        3,
        "curve",
        0,
        Some([30, 40, 50, 60, 70]),
        Some([20, 30, 40, 50, 60]),
    )
    .unwrap();
    assert_eq!(config.fan3.as_ref().unwrap().rampup_curve, [30, 40, 50, 60, 70]);
    assert_eq!(fan_snapshot(&mut controller, 3).unwrap().mode, "curve");

    let error = apply_fan_edit(&mut controller, &mut config, 1, "turbo", 0, None, None).unwrap_err();
    assert_eq!(error, "Invalid fan mode: turbo");
    assert_eq!(config.fan1.as_ref().unwrap().mode, "auto");
}

#[test]
fn fan_edit_is_refused_on_unknown_hardware() {
    let controller_hw = HardwareIdentity {
        system_manufacturer: "Dell Inc.".into(),
        ..HardwareIdentity::default()
    };
    let mut controller =
        EcController::initialize(MockEcIoBackend::with_firmware(1, 4), controller_hw).unwrap();
    let mut config = ServerConfig::for_data_dir(DATA_DIR);
    let ops_before = controller.backend().ops().len();
    let error = apply_fan_edit(&mut controller, &mut config, 1, "fixed", 2, None, None).unwrap_err();
    assert!(error.starts_with("Unsupported hardware 'Dell Inc.'"));
    assert_eq!(controller.backend().ops().len(), ops_before);
    assert_eq!(config.fan1.as_ref().unwrap().mode, "auto");
}

#[test]
fn restore_applies_saved_settings() {
    let mut controller =
        EcController::initialize(MockEcIoBackend::with_firmware(1, 4), evo_x2()).unwrap();
    let mut config = ServerConfig::for_data_dir(DATA_DIR);
    config.apu_power_mode = Some("performance".into());
    {
        let fan1 = config.fan1.as_mut().unwrap();
        fan1.mode = "fixed".into();
        fan1.level = 4;
        fan1.rampup_curve = [61, 71, 81, 91, 99];
    }
    config.fan2 = None;
    let logs = restore_saved_state(&mut controller, &mut config);
    assert_eq!(logs[0], (LogLevel::Info, "Restoring saved parameters from configuration...".to_string()));
    assert!(logs.contains(&(LogLevel::Info, "Restored power mode: performance".to_string())));
    assert!(logs.contains(&(
        LogLevel::Info,
        "Fan2 configuration not found in config, leaving in original state".to_string()
    )));
    assert_eq!(logs.last().unwrap().1, "Parameter restoration completed");
    assert_eq!(controller.backend().register(EC_REG_APU_POWER_MODE), 0x01);
    let fan1 = fan_snapshot(&mut controller, 1).unwrap();
    assert_eq!(fan1.mode, "fixed");
    assert_eq!(fan1.level, 4);
    assert_eq!(fan1.rampup_curve, [61, 71, 81, 91, 99]);
    assert!(config.fan2.is_none());
}

#[test]
fn restore_is_skipped_when_writes_are_refused() {
    let mut controller = EcController::initialize(
        MockEcIoBackend::with_firmware(1, 4),
        HardwareIdentity::default(),
    )
    .unwrap();
    let ops_before = controller.backend().ops().len();
    let mut config = ServerConfig::for_data_dir(DATA_DIR);
    let logs = restore_saved_state(&mut controller, &mut config);
    assert_eq!(logs.len(), 2);
    assert_eq!(logs[1].0, LogLevel::Warn);
    assert_eq!(controller.backend().ops().len(), ops_before);
}

#[test]
fn fan_config_updates_fill_missing_fans() {
    let mut config = ServerConfig::for_data_dir(DATA_DIR);
    config.fan3 = None;
    update_fan_config(&mut config, 3, FanField::Level(2));
    let fan3 = config.fan3.as_ref().unwrap();
    assert_eq!(fan3.level, 2);
    assert_eq!(fan3.rampup_curve, [60, 70, 83, 95, 97]);
    update_fan_config(&mut config, 7, FanField::Level(5));
    set_fan_name(&mut config, 1, Some("  Front intake ".into()));
    assert_eq!(config.fan1.as_ref().unwrap().name.as_deref(), Some("Front intake"));
    set_fan_name(&mut config, 1, None);
    assert_eq!(config.fan1.as_ref().unwrap().name, None);
}

#[test]
fn start_up_messages() {
    assert!(NOT_ADMIN_MESSAGE.contains("Administrator"));
    assert_eq!(
        connect_error_message("PawnIO is required for hardware access."),
        "PawnIO is required for hardware access."
    );
    assert_eq!(
        connect_error_message("boom"),
        format!("{PAWNIO_MISSING_MESSAGE}\n\nboom")
    );
    assert_eq!(driver_version_text(0x0002_0103), "PawnIO driver version 2.1.3");
    let (level, line) = hardware_log_line(&HardwareIdentity::default());
    assert_eq!(level, LogLevel::Warn);
    assert!(line.starts_with("Hardware 'unknown' is not a known"));
    assert_eq!(hardware_log_line(&evo_x2()).0, LogLevel::Info);
    let runtime = runtime_status(true, false, "Enabled", &evo_x2());
    assert_eq!(runtime.pawnio, "connected");
    assert_eq!(runtime.lpcacpiec, "not loaded");
    assert_eq!(runtime.hardware, "GMKtec EVO-X2");
    assert!(runtime.hardware_supported);
}

#[test]
fn curve_monitor_reports_changes_only() {
    assert_eq!(
        curve_monitor_step(false, true),
        (true, Some("Curve monitoring started - fans in curve mode detected"), true)
    );
    assert_eq!(curve_monitor_step(true, true), (true, None, true));
    assert_eq!(
        curve_monitor_step(true, false),
        (false, Some("Curve monitoring stopped - no fans in curve mode"), false)
    );
    assert_eq!(curve_monitor_step(false, false), (false, None, false));
}

#[test]
fn quitting_hands_curve_fans_back_to_auto() {
    let mut controller = EcController::new_unchecked(MockEcIoBackend::with_firmware(1, 4));
    controller
        .execute_operation(EcOperation::SetFanMode(3, "curve".into()))
        .unwrap();
    controller
        .execute_operation(EcOperation::SetFanMode(1, "fixed".into()))
        .unwrap();
    let logs = release_curve_fans(&mut controller);
    assert_eq!(logs.len(), 1);
    assert_eq!(logs[0].0, LogLevel::Info);
    assert_eq!(logs[0].1, "Fan3 returned to EC AUTO");
    assert!(!controller.has_curve_fans());
    let fan3 = controller.execute_operation(EcOperation::GetFanMode(3)).unwrap();
    assert!(matches!(fan3, EcResult::FanMode(ref m) if m == "auto"));
    let fan1 = controller.execute_operation(EcOperation::GetFanMode(1)).unwrap();
    assert!(matches!(fan1, EcResult::FanMode(ref m) if m == "fixed"));
}

#[test]
fn quitting_without_curve_fans_writes_nothing() {
    let mut controller = EcController::new_unchecked(MockEcIoBackend::with_firmware(1, 4));
    let logs = release_curve_fans(&mut controller);
    assert!(logs.is_empty());
    assert!(controller.backend().ops().is_empty());
}

#[test]
fn failed_edit_keeps_the_steps_that_succeeded() {
    let mut controller = EcController::new_unchecked(MockEcIoBackend::with_firmware(1, 4));
    let mut config = ServerConfig::for_data_dir(DATA_DIR);
    let error = apply_fan_edit(&mut controller, &mut config, 1, "fixed", 9, None, None).unwrap_err();
    assert_eq!(error, "Fan level must be 0-5");
    let fan1 = config.fan1.as_ref().unwrap();
    assert_eq!(fan1.mode, "fixed");
    assert_eq!(fan1.level, 0);
    let error = apply_fan_edit(
        &mut controller,
        &mut config,
        2,
        "curve",
        0,
        Some([30, 40, 50, 60, 70]),
        Some([20, 30, 40, 50, 200]),
    )
    .unwrap_err();
    assert_eq!(error, "Temperature values must be 0-100°C");
    let fan2 = config.fan2.as_ref().unwrap();
    assert_eq!(fan2.mode, "curve");
    assert_eq!(fan2.rampup_curve, [30, 40, 50, 60, 70]);
}

#[test]
fn fan_snapshot_reports_the_registers() {
    let mut mock = MockEcIoBackend::with_firmware(1, 4);
    mock.set_register(0x23, 0x21);
    mock.set_register(0x24, 0x24);
    mock.set_register(0x37, 0x07);
    mock.set_register(0x38, 0xD0);
    let mut controller = EcController::new_unchecked(mock);
    let snapshot = fan_snapshot(&mut controller, 2).unwrap();
    assert_eq!(snapshot.mode, "fixed");
    assert_eq!(snapshot.level, 3);
    assert_eq!(snapshot.rpm, 2000);
}
