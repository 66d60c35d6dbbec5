use evox2_control::ec_io::EcIoBackend;
use evox2_control::pawnio::{
    ctl_code, DeviceBackend, PortDevice, decode_read_output, execute_payload, ioctl_failure_message, open_failure_message,
    port_refusal, returned_cells, FN_NAME_LENGTH, FN_PIO_READ, IOCTL_PIO_EXECUTE_FN,
    IOCTL_PIO_LOAD_BINARY, IOCTL_PIO_VERSION, PAWNIO_MISSING_MESSAGE,
};

#[test]
fn official_ioctl_codes_match_pawnio_um_h() {
    assert_eq!(IOCTL_PIO_LOAD_BINARY, (41394u32 << 16) | (0x821 << 2));
    assert_eq!(IOCTL_PIO_EXECUTE_FN, (41394u32 << 16) | (0x841 << 2));
    assert_eq!(IOCTL_PIO_VERSION, (41394u32 << 16) | (0x861 << 2));
}

#[test]
fn execute_payload_lays_out_name_then_u64_cells() {
    let name = FN_PIO_READ;
    let input = [0x66u64];
    let payload = execute_payload(name, &input).unwrap();
    assert_eq!(payload.len(), FN_NAME_LENGTH + input.len() * 8);
    assert_eq!(&payload[..14], b"ioctl_pio_read");
    assert_eq!(payload[14], 0);
    assert_eq!(&payload[32..40], &0x66u64.to_le_bytes());
}

#[test]
fn ctl_code_matches_the_constants() {
    assert_eq!(ctl_code(0x821), IOCTL_PIO_LOAD_BINARY);
    assert_eq!(ctl_code(0x861), IOCTL_PIO_VERSION);
}

#[test]
fn long_function_names_are_refused() {
    let name = "a".repeat(32);
    assert_eq!(
        execute_payload(&name, &[]).unwrap_err(),
        format!("PawnIO function name too long: {name}")
    );
    let two = execute_payload("ioctl_pio_write", &[0x62, 0x1234]).unwrap();
    assert_eq!(&two[40..48], &0x1234u64.to_le_bytes());
}

#[test]
fn replies_and_refusals() {
    assert_eq!(returned_cells(8, 1), 1);
    assert_eq!(returned_cells(24, 1), 1);
    assert_eq!(returned_cells(7, 1), 0);
    assert_eq!(decode_read_output(&[0x1_23]).unwrap(), 0x23);
    assert_eq!(
        decode_read_output(&[]).unwrap_err(),
        "LpcACPIEC ioctl_pio_read returned no data"
    );
    assert_eq!(port_refusal(0x62, false), None);
    assert_eq!(
        port_refusal(0x80, true).unwrap(),
        "Refusing PawnIO write of non-ACPI EC port 0x80"
    );
    assert_eq!(
        port_refusal(0x7, false).unwrap(),
        "Refusing PawnIO read of non-ACPI EC port 0x07"
    );
}

#[test]
fn failure_messages() {
    let open = open_failure_message(2);
    assert!(open.starts_with(PAWNIO_MISSING_MESSAGE));
    assert!(open.ends_with(r"CreateFile(\\?\GLOBALROOT\Device\PawnIO) failed with Win32 2."));
    assert_eq!(
        ioctl_failure_message("IOCTL_PIO_VERSION", 5),
        "IOCTL_PIO_VERSION failed (Win32 5)"
    );
}

struct RecordingDevice {
    asked: Vec<u16>,
    locked: bool,
}

impl PortDevice for RecordingDevice {
    fn read_port(&mut self, port: u16) -> Result<u8, String> {
        self.asked.push(port);
        Ok(0x5A)
    }

    fn write_port(&mut self, port: u16, _value: u8) -> Result<(), String> {
        self.asked.push(port);
        Ok(())
    }

    fn lock(&mut self) -> Result<(), String> {
        self.locked = true;
        Ok(())
    }

    fn unlock(&mut self) {
        self.locked = false;
    }
}

#[test]
fn device_backend_refuses_other_ports_before_the_device() {
    let mut backend = DeviceBackend::new(RecordingDevice {
        asked: Vec::new(),
        locked: false,
    });
    assert_eq!(
        backend.read_port_u8(0x80).unwrap_err(),
        "Refusing PawnIO read of non-ACPI EC port 0x80"
    );
    assert!(backend.write_port_u8(0x31, 1).is_err());
    assert_eq!(backend.read_port_u8(0x62).unwrap(), 0x5A);
    assert!(backend.write_port_u8(0x66, 0x80).is_ok());
    backend.begin_transaction().unwrap();
    assert!(backend.device().locked);
    backend.end_transaction();
    assert!(!backend.device().locked);
    assert_eq!(backend.device().asked, vec![0x62, 0x66]);
}
