use evox2_control::ec::{
    firmware_supported, format_firmware_version, unsupported_firmware_message, EcController, EcOperation, EcResult, PowerMode,
    EC_COMMAND_WRITE, EC_REG_APU_POWER_MODE,
};
use evox2_control::ec_io::{MockEcIoBackend, PortOp, EC_COMMAND_PORT, EC_DATA_PORT};
use evox2_control::hardware::HardwareIdentity;

fn writes(ops: Vec<PortOp>) -> Vec<(u16, u8)> {
    ops.into_iter()
        .filter_map(|op| match op {
            PortOp::Write { port, value } => Some((port, value)),
            _ => None,
        })
        .collect()
}

#[test]
fn power_mode_encoding_matches_upstream() {
    assert_eq!(PowerMode::Balanced.to_ec_value(), 0x00);
    assert_eq!(PowerMode::Performance.to_ec_value(), 0x01);
    assert_eq!(PowerMode::Quiet.to_ec_value(), 0x02);
    assert_eq!(PowerMode::from_ec_value(0x00), Some(PowerMode::Balanced));
    assert_eq!(PowerMode::from_ec_value(0x01), Some(PowerMode::Performance));
    assert_eq!(PowerMode::from_ec_value(0x02), Some(PowerMode::Quiet));
    assert_eq!(PowerMode::from_name("balanced"), Some(PowerMode::Balanced));
    assert_eq!(PowerMode::from_name("turbo"), None);
}

#[test]
fn set_power_mode_writes_register_0x31() {
    let mock = MockEcIoBackend::with_firmware(1, 4);
    let mut controller = EcController::new_unchecked(mock);

    controller
        .execute_operation(EcOperation::SetApuPowerMode("performance".into()))
        .unwrap();

    assert_eq!(controller.backend().register(EC_REG_APU_POWER_MODE), 0x01);

    let mode = controller
        .execute_operation(EcOperation::GetApuPowerMode)
        .unwrap();
    assert!(matches!(mode, EcResult::ApuPowerMode(ref value) if value == "performance"));

    let writes = writes(controller.backend().ops());
    assert!(writes.contains(&(EC_COMMAND_PORT, EC_COMMAND_WRITE)));
    assert!(writes.contains(&(EC_DATA_PORT, EC_REG_APU_POWER_MODE)));
    assert!(writes.contains(&(EC_DATA_PORT, 0x01)));
}

#[test]
fn quiet_and_balanced_use_upstream_values() {
    let mock = MockEcIoBackend::with_firmware(1, 4);
    let mut controller = EcController::new_unchecked(mock);

    controller
        .execute_operation(EcOperation::SetApuPowerMode("quiet".into()))
        .unwrap();
    assert_eq!(controller.backend().register(EC_REG_APU_POWER_MODE), 0x02);

    controller
        .execute_operation(EcOperation::SetApuPowerMode("balanced".into()))
        .unwrap();
    assert_eq!(controller.backend().register(EC_REG_APU_POWER_MODE), 0x00);
}

#[test]
fn invalid_power_mode_never_reaches_hardware() {
    let mock = MockEcIoBackend::with_firmware(1, 4);
    let mut controller = EcController::new_unchecked(mock);
    let result = controller.execute_operation(EcOperation::SetApuPowerMode("turbo".into()));
    assert!(result.unwrap_err().contains("Invalid power mode"));
    assert!(controller.backend().ops().is_empty());
    assert_eq!(controller.backend().register(EC_REG_APU_POWER_MODE), 0);
}

#[test]
fn ibf_stuck_times_out() {
    let mock = MockEcIoBackend::with_ibf_stuck();
    let mut controller = EcController::new_unchecked(mock);
    let error = controller
        .execute_operation(EcOperation::GetApuPowerMode)
        .unwrap_err();
    assert!(
        error.contains("EC timeout waiting for input buffer to clear"),
        "{error}"
    );
}

#[test]
fn write_transaction_uses_expected_order() {
    let mock = MockEcIoBackend::with_firmware(1, 4);
    let mut controller = EcController::new_unchecked(mock);
    controller
        .execute_operation(EcOperation::SetApuPowerMode("quiet".into()))
        .unwrap();

    assert_eq!(
        writes(controller.backend().ops()),
        vec![
            (EC_COMMAND_PORT, EC_COMMAND_WRITE),
            (EC_DATA_PORT, EC_REG_APU_POWER_MODE),
            (EC_DATA_PORT, PowerMode::Quiet.to_ec_value()),
        ]
    );
}

#[test]
fn firmware_1_04_is_the_minimum() {
    assert!(!firmware_supported(1, 3));
    assert!(firmware_supported(1, 4));
    assert!(firmware_supported(2, 0));
    assert_eq!(format_firmware_version(1, 4), "1.04");
}

#[test]
fn unknown_hardware_blocks_writes() {
    let mock = MockEcIoBackend::with_firmware(1, 4);
    let hardware = HardwareIdentity {
        system_manufacturer: "Dell Inc.".into(),
        system_product: "OptiPlex".into(),
        ..HardwareIdentity::default()
    };
    let mut controller = EcController::initialize(mock, hardware).unwrap();
    assert!(!controller.writes_allowed());
    let error = controller
        .execute_operation(EcOperation::SetApuPowerMode("quiet".into()))
        .unwrap_err();
    assert!(error.contains("Unsupported hardware"));
    assert_eq!(controller.backend().register(EC_REG_APU_POWER_MODE), 0);
}

#[test]
fn old_firmware_is_refused_at_start() {
    let mock = MockEcIoBackend::with_firmware(1, 3);
    let hardware = HardwareIdentity {
        system_manufacturer: "GMKtec".into(),
        system_product: "EVO-X2".into(),
        ..HardwareIdentity::default()
    };
    let error = EcController::initialize(mock, hardware).err().unwrap();
    assert_eq!(
        error,
        "Unsupported EC firmware 1.03. This software requires EC firmware 1.04 or higher."
    );
}

#[test]
fn fan_level_written_reads_back() {
    let mock = MockEcIoBackend::with_firmware(1, 4);
    let mut controller = EcController::new_unchecked(mock);
    for level in 0..=5u8 {
        controller
            .execute_operation(EcOperation::SetFanLevel(2, level))
            .unwrap();
        let read = controller
            .execute_operation(EcOperation::GetFanLevel(2))
            .unwrap();
        assert!(matches!(read, EcResult::FanLevel(l) if l == level));
    }
    let error = controller
        .execute_operation(EcOperation::SetFanLevel(2, 6))
        .unwrap_err();
    assert_eq!(error, "Fan level must be 0-5");
}

#[test]
fn invalid_fan_is_refused_without_io() {
    let mock = MockEcIoBackend::with_firmware(1, 4);
    let mut controller = EcController::new_unchecked(mock);
    let error = controller
        .execute_operation(EcOperation::GetFanRpm(4))
        .unwrap_err();
    assert_eq!(error, "Invalid fan ID: 4");
    assert!(controller.backend().ops().is_empty());
}

#[test]
fn curve_mode_tracks_temperature() {
    let mut mock = MockEcIoBackend::with_firmware(1, 4);
    mock.set_register(0x70, 72);
    let mut controller = EcController::new_unchecked(mock);
    controller
        .execute_operation(EcOperation::SetFanMode(1, "curve".into()))
        .unwrap();
    assert!(controller.has_curve_fans());
    let mode = controller
        .execute_operation(EcOperation::GetFanMode(1))
        .unwrap();
    assert!(matches!(mode, EcResult::FanMode(ref m) if m == "curve"));
    let level = controller
        .execute_operation(EcOperation::GetFanLevel(1))
        .unwrap();
    assert!(matches!(level, EcResult::FanLevel(2)));
    let rampup = controller
        .execute_operation(EcOperation::SetFanRampupCurve(1, [101, 0, 0, 0, 0]))
        .unwrap_err();
    assert_eq!(rampup, "Temperature values must be 0-100°C");
}

#[test]
fn unsupported_firmware_message_names_both_versions() {
    assert_eq!(
        unsupported_firmware_message(1, 3),
        "Unsupported EC firmware 1.03. This software requires EC firmware 1.04 or higher."
    );
    assert_eq!(
        unsupported_firmware_message(0, 12),
        "Unsupported EC firmware 0.12. This software requires EC firmware 1.04 or higher."
    );
}

fn evo_x2_identity() -> HardwareIdentity {
    HardwareIdentity {
        system_manufacturer: "GMKtec".into(),
        system_product: "EVO-X2".into(),
        ..HardwareIdentity::default()
    }
}

#[test]
fn firmware_checks_at_start() {
    let error = EcController::initialize(MockEcIoBackend::with_firmware(0, 0), evo_x2_identity())
        .err()
        .unwrap();
    assert_eq!(error, "Invalid firmware version detected");
    let error = EcController::initialize(MockEcIoBackend::with_ibf_stuck(), evo_x2_identity())
        .err()
        .unwrap();
    assert_eq!(error, "EC timeout waiting for input buffer to clear");
    let controller =
        EcController::initialize(MockEcIoBackend::with_firmware(1, 4), evo_x2_identity()).unwrap();
    assert!(controller.writes_allowed());
}

#[test]
fn curve_fans_follow_mode_changes() {
    let mut controller = EcController::new_unchecked(MockEcIoBackend::with_firmware(1, 4));
    assert!(!controller.has_curve_fans());
    controller
        .execute_operation(EcOperation::SetFanMode(2, "curve".into()))
        .unwrap();
    assert!(controller.has_curve_fans());
    assert!(controller.is_curve_fan(2));
    assert!(!controller.is_curve_fan(1));
    controller
        .execute_operation(EcOperation::SetFanMode(2, "fixed".into()))
        .unwrap();
    assert!(!controller.has_curve_fans());
}

#[test]
fn read_transaction_port_traffic() {
    let mut controller = EcController::new_unchecked(MockEcIoBackend::with_firmware(1, 4));
    let result = controller.execute_operation(EcOperation::GetApuPowerMode).unwrap();
    assert!(matches!(result, EcResult::ApuPowerMode(ref m) if m == "balanced"));
    assert_eq!(
        controller.backend().ops(),
        vec![
            PortOp::Read { port: EC_COMMAND_PORT, value: 0 },
            PortOp::Write { port: EC_COMMAND_PORT, value: 0x80 },
            PortOp::Read { port: EC_COMMAND_PORT, value: 0 },
            PortOp::Write { port: EC_DATA_PORT, value: EC_REG_APU_POWER_MODE },
            PortOp::Read { port: EC_COMMAND_PORT, value: 1 },
            PortOp::Read { port: EC_COMMAND_PORT, value: 1 },
            PortOp::Read { port: EC_DATA_PORT, value: 0 },
        ]
    );
}

#[test]
fn curve_update_moves_only_the_least_fan() {
    let mut mock = MockEcIoBackend::with_firmware(1, 4);
    mock.set_register(0x70, 99);
    let mut controller = EcController::new_unchecked(mock);
    for fan in [2u8, 3u8] {
        controller
            .execute_operation(EcOperation::SetFanMode(fan, "curve".into()))
            .unwrap();
        controller
            .execute_operation(EcOperation::SetFanLevel(fan, 0))
            .unwrap();
    }
    let messages = controller.update_curve_fans().unwrap();
    assert_eq!(messages.len(), 1);
    let level = |c: &mut EcController<MockEcIoBackend>, fan: u8| match c
        .execute_operation(EcOperation::GetFanLevel(fan))
        .unwrap()
    {
        EcResult::FanLevel(l) => l,
        _ => panic!("unexpected answer"),
    };
    assert_eq!(level(&mut controller, 2), 1);
    assert_eq!(level(&mut controller, 3), 0);
    assert_eq!(controller.backend().register(0x26) & 0x0F, 0x07);
}
