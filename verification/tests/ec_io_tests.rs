use evox2_control::ec_io::{is_acpi_ec_port, EcIoBackend, MockEcIoBackend, PortOp};

#[test]
fn only_acpi_ec_ports_are_allowed() {
    assert!(is_acpi_ec_port(0x62));
    assert!(is_acpi_ec_port(0x66));
    assert!(!is_acpi_ec_port(0x00));
    assert!(!is_acpi_ec_port(0x31));
}

#[test]
fn mock_reads_back_a_written_register() {
    let mut mock = MockEcIoBackend::new();
    mock.write_port_u8(0x66, 0x81).unwrap();
    mock.write_port_u8(0x62, 0x40).unwrap();
    mock.write_port_u8(0x62, 0x5A).unwrap();
    assert_eq!(mock.register(0x40), 0x5A);
    mock.write_port_u8(0x66, 0x80).unwrap();
    mock.write_port_u8(0x62, 0x40).unwrap();
    assert_eq!(mock.read_port_u8(0x66).unwrap() & 0x01, 0x01);
    assert_eq!(mock.read_port_u8(0x62).unwrap(), 0x5A);
    assert_eq!(mock.ops().len(), 7);
}

#[test]
fn mock_refuses_other_ports() {
    let mut mock = MockEcIoBackend::default();
    assert!(mock.read_port_u8(0x80).is_err());
    assert!(mock.ops().is_empty());
    assert_eq!(mock.register(0x00), 1);
    assert_eq!(mock.register(0x01), 4);
}

#[test]
fn stuck_mock_ignores_writes() {
    let mut mock = MockEcIoBackend::with_ibf_stuck();
    mock.write_port_u8(0x66, 0x81).unwrap();
    mock.write_port_u8(0x62, 0x00).unwrap();
    mock.write_port_u8(0x62, 0x09).unwrap();
    assert_eq!(mock.register(0x00), 1);
    assert_eq!(mock.read_port_u8(0x66).unwrap() & 0x02, 0x02);
    assert!(matches!(mock.ops()[0], PortOp::Write { port: 0x66, value: 0x81 }));
}
