//! The PawnIO userspace protocol: IOCTL codes, the buffer layout of a module
//! function call, and the checks and messages around the LpcACPIEC calls.
//! Opening the device and issuing the IOCTLs is the caller's part.
use vstd::prelude::*;
use crate::ec_io::{acpi_port, is_acpi_ec_port, EcIoBackend, MockModel, PortOp};
use vstd::string::StringSliceAdditionalSpecFns;
use crate::text::{dec, hex2, owned, push_chars, push_dec, push_hex2, push_str};

verus! {

/// Win32 path of the `\Device\PawnIO` device.
pub const PAWNIO_WIN32_PATH: &'static str = "\\\\?\\GLOBALROOT\\Device\\PawnIO";

/// PawnIO's device type (`k_device_type`).
pub const PIO_DEVICE_TYPE: u32 = 41394;
pub const METHOD_BUFFERED: u32 = 0;
pub const FILE_ANY_ACCESS: u32 = 0;

pub const IOCTL_PIO_LOAD_BINARY: u32 = (PIO_DEVICE_TYPE << 16) | (FILE_ANY_ACCESS << 14) | (0x821u32 << 2)
    | METHOD_BUFFERED;
pub const IOCTL_PIO_EXECUTE_FN: u32 = (PIO_DEVICE_TYPE << 16) | (FILE_ANY_ACCESS << 14) | (0x841u32 << 2)
    | METHOD_BUFFERED;
pub const IOCTL_PIO_VERSION: u32 = (PIO_DEVICE_TYPE << 16) | (FILE_ANY_ACCESS << 14) | (0x861u32 << 2)
    | METHOD_BUFFERED;

/// Width of the function-name field of an execute request.
pub const FN_NAME_LENGTH: usize = 32;

/// LpcACPIEC's port functions.
pub const FN_PIO_READ: &'static str = "ioctl_pio_read";
pub const FN_PIO_WRITE: &'static str = "ioctl_pio_write";

pub const PAWNIO_MISSING_MESSAGE: &'static str = "PawnIO is required for hardware access.\n\nSecure Boot can remain enabled.\n\nInstall the official PawnIO release and restart this application.";

/// `CTL_CODE(PIO_DEVICE_TYPE, function, METHOD_BUFFERED, FILE_ANY_ACCESS)`.
pub fn ctl_code(function: u32) -> (r: u32)
    ensures
        r == (PIO_DEVICE_TYPE << 16) | (FILE_ANY_ACCESS << 14) | (function << 2) | METHOD_BUFFERED,
{
    (PIO_DEVICE_TYPE << 16) | (FILE_ANY_ACCESS << 14) | (function << 2) | METHOD_BUFFERED
}

/// Byte `i` (least significant first) of `v`.
pub open spec fn le_byte(v: u64, i: int) -> u8 {
    ((v >> (8 * i) as u64) & 0xff) as u8
}

/// The request of one module function call: the name, zero-padded to
/// `FN_NAME_LENGTH` bytes, then each argument as eight little-endian bytes.
pub open spec fn payload_spec(name: Seq<u8>, input: Seq<u64>) -> Seq<u8> {
    Seq::new(
        (FN_NAME_LENGTH + 8 * input.len()) as nat,
        |k: int|
            if k < name.len() {
                name[k]
            } else if k < FN_NAME_LENGTH {
                0u8
            } else {
                le_byte(input[(k - FN_NAME_LENGTH) / 8], (k - FN_NAME_LENGTH) % 8)
            },
    )
}

pub open spec fn name_too_long_msg(name: Seq<char>) -> Seq<char> {
    "PawnIO function name too long: "@ + name
}

/// Lays out an execute request; names must leave room for a NUL.
pub fn execute_payload(name: &str, input: &[u64]) -> (r: Result<Vec<u8>, String>)
    requires
        input@.len() <= 0x0fff_ffff,
    ensures
        r is Ok <==> name.spec_bytes().len() < FN_NAME_LENGTH,
        r matches Ok(p) ==> p@ == payload_spec(name.spec_bytes(), input@),
        r matches Err(e) ==> e@ == name_too_long_msg(name@),
{
    let name_bytes = name.as_bytes();
    if name_bytes.len() >= FN_NAME_LENGTH {
        let mut e = owned("PawnIO function name too long: ");
        push_str(&mut e, name);
        return Err(e);
    }
    let total = FN_NAME_LENGTH + input.len() * 8;
    let mut payload: Vec<u8> = Vec::new();
    let mut k: usize = 0;
    while k < total
        invariant
            total == FN_NAME_LENGTH + 8 * input@.len(),
            name_bytes@.len() < FN_NAME_LENGTH,
            k <= total,
            payload@.len() == k,
            forall|j: int| 0 <= j < k ==> payload@[j] == #[trigger] payload_spec(name_bytes@, input@)[j],
        decreases total - k,
    {
        let b: u8 = if k < name_bytes.len() {
            name_bytes[k]
        } else if k < FN_NAME_LENGTH {
            0
        } else {
            let idx = (k - FN_NAME_LENGTH) / 8;
            let shift = ((k - FN_NAME_LENGTH) % 8) as u64;
            let v = input[idx];
            ((v >> (8 * shift)) & 0xff) as u8
        };
        payload.push(b);
        k = k + 1;
    }
    assert(payload@ =~= payload_spec(name_bytes@, input@));
    Ok(payload)
}

/// How many whole cells of the expected ones a reply filled.
pub fn returned_cells(bytes_returned: u32, out_len: usize) -> (r: usize)
    ensures
        r as int == if (bytes_returned / 8) as int <= out_len as int {
            (bytes_returned / 8) as int
        } else {
            out_len as int
        },
{
    let returned = (bytes_returned / 8) as usize;
    if returned <= out_len {
        returned
    } else {
        out_len
    }
}

pub open spec fn refusal_msg(port: u16, write: bool) -> Seq<char> {
    (if write { "Refusing PawnIO write of non-ACPI EC port 0x"@ } else { "Refusing PawnIO read of non-ACPI EC port 0x"@ })
        + hex2(port as nat)
}

/// The refusal for a port outside the ACPI EC pair, if it is one.
pub fn port_refusal(port: u16, write: bool) -> (r: Option<String>)
    ensures
        r is None <==> acpi_port(port),
        r matches Some(e) ==> e@ == refusal_msg(port, write),
{
    if is_acpi_ec_port(port) {
        return None;
    }
    let mut e = if write {
        owned("Refusing PawnIO write of non-ACPI EC port 0x")
    } else {
        owned("Refusing PawnIO read of non-ACPI EC port 0x")
    };
    push_hex2(&mut e, port as u32);
    Some(e)
}

/// The byte a port read answered: the low byte of the first cell.
pub fn decode_read_output(out: &[u64]) -> (r: Result<u8, String>)
    ensures
        r is Ok <==> out@.len() > 0,
        r matches Ok(v) ==> v == (out@[0] as u8),
        r matches Err(e) ==> e@ == "LpcACPIEC ioctl_pio_read returned no data"@,
{
    if out.len() == 0 {
        Err(owned("LpcACPIEC ioctl_pio_read returned no data"))
    } else {
        Ok(out[0] as u8)
    }
}

/// The error for a device that could not be opened.
pub fn open_failure_message(win32_error: u32) -> (r: String)
    ensures
        r@ == PAWNIO_MISSING_MESSAGE@ + "\n\nCreateFile("@ + PAWNIO_WIN32_PATH@ + ") failed with Win32 "@
            + dec(win32_error as nat) + "."@,
{
    let mut e = owned(PAWNIO_MISSING_MESSAGE);
    push_str(&mut e, "\n\nCreateFile(");
    push_str(&mut e, PAWNIO_WIN32_PATH);
    push_str(&mut e, ") failed with Win32 ");
    push_dec(&mut e, win32_error);
    push_str(&mut e, ".");
    e
}

/// The error for an IOCTL that failed.
pub fn ioctl_failure_message(what: &str, win32_error: u32) -> (r: String)
    ensures
        r@ == what@ + " failed (Win32 "@ + dec(win32_error as nat) + ")"@,
{
    let mut e = owned(what);
    push_str(&mut e, " failed (Win32 ");
    push_dec(&mut e, win32_error);
    push_str(&mut e, ")");
    e
}

/// The error for a module that could not be loaded.
pub fn load_failure_message(error: &str) -> (r: String)
    ensures
        r@ == "Failed to load official LpcACPIEC module: "@ + error@,
{
    let mut e = owned("Failed to load official LpcACPIEC module: ");
    push_str(&mut e, error);
    e
}

/// Raw byte-wide port access through a driver (PawnIO's LpcACPIEC module),
/// with the lock that serialises EC transactions between programs.
pub trait PortDevice {
    fn read_port(&mut self, port: u16) -> Result<u8, String>;

    fn write_port(&mut self, port: u16, value: u8) -> Result<(), String>;

    fn lock(&mut self) -> Result<(), String>;

    fn unlock(&mut self);
}

/// An EC backend over a port device. Every port but the two ACPI EC ports
/// is refused before the device sees the request; completed port operations
/// are recorded, and so is the number of operations that failed.
pub struct DeviceBackend<D: PortDevice> {
    device: D,
    log: Ghost<Seq<PortOp>>,
    failed: Ghost<nat>,
    locked: Ghost<bool>,
}

impl<D: PortDevice> DeviceBackend<D> {
    /// The device that carries out the port operations.
    pub closed spec fn inner(&self) -> D {
        self.device
    }

    pub fn new(device: D) -> (r: Self)
        ensures
            r.port_log().len() == 0,
            r.failures() == 0,
            !r.in_transaction(),
            r.inner() == device,
    {
        DeviceBackend { device, log: Ghost(Seq::empty()), failed: Ghost(0), locked: Ghost(false) }
    }

    pub fn device(&self) -> (r: &D)
        ensures
            *r == self.inner(),
    {
        &self.device
    }

    /// Reads a port, refusing the others before the device is asked.
    pub fn read_checked(&mut self, port: u16) -> (r: Result<u8, String>)
        ensures
            r matches Ok(v) ==> final(self).port_log() == old(self).port_log().push(PortOp::Read { port, value: v }),
            r is Err ==> final(self).port_log() == old(self).port_log(),
            !acpi_port(port) ==> (r matches Err(e) && e@ == refusal_msg(port, false)),
            final(self).failures() == old(self).failures(),
            final(self).in_transaction() == old(self).in_transaction(),
    {
        if let Some(e) = port_refusal(port, false) {
            return Err(e);
        }
        match self.device.read_port(port) {
            Ok(v) => {
                proof {
                    self.log@ = self.log@.push(PortOp::Read { port, value: v });
                }
                Ok(v)
            },
            Err(e) => Err(e),
        }
    }

    /// Writes a port, refusing the others before the device is asked.
    pub fn write_checked(&mut self, port: u16, value: u8) -> (r: Result<(), String>)
        ensures
            r is Ok ==> final(self).port_log() == old(self).port_log().push(PortOp::Write { port, value }),
            r is Err ==> final(self).port_log() == old(self).port_log(),
            !acpi_port(port) ==> (r matches Err(e) && e@ == refusal_msg(port, true)),
            final(self).failures() == old(self).failures(),
            final(self).in_transaction() == old(self).in_transaction(),
    {
        if let Some(e) = port_refusal(port, true) {
            return Err(e);
        }
        match self.device.write_port(port, value) {
            Ok(()) => {
                proof {
                    self.log@ = self.log@.push(PortOp::Write { port, value });
                }
                Ok(())
            },
            Err(e) => Err(e),
        }
    }
}

impl<D: PortDevice> EcIoBackend for DeviceBackend<D> {
    closed spec fn port_log(&self) -> Seq<PortOp> {
        self.log@
    }

    closed spec fn failures(&self) -> nat {
        self.failed@
    }

    closed spec fn in_transaction(&self) -> bool {
        self.locked@
    }

    /// Nothing is known of the state of the hardware behind the ports.
    closed spec fn simulated(&self) -> Option<MockModel> {
        None
    }

    /// A read of any port but the ACPI EC ports is refused unasked; the
    /// device answers the others.
    fn read_port_u8(&mut self, port: u16) -> (r: Result<u8, String>)
        ensures
            !acpi_port(port) ==> (r matches Err(e) && e@ == refusal_msg(port, false)),
    {
        let r = self.read_checked(port);
        if r.is_err() {
            self.failed = Ghost(self.failed@ + 1);
        }
        r
    }

    /// A write to any port but the ACPI EC ports is refused unasked; the
    /// device carries out the others.
    fn write_port_u8(&mut self, port: u16, value: u8) -> (r: Result<(), String>)
        ensures
            !acpi_port(port) ==> (r matches Err(e) && e@ == refusal_msg(port, true)),
    {
        let r = self.write_checked(port, value);
        if r.is_err() {
            self.failed = Ghost(self.failed@ + 1);
        }
        r
    }

    /// Takes the device's lock; the transaction is open when it was granted.
    fn begin_transaction(&mut self) -> (r: Result<(), String>) {
        let r = self.device.lock();
        if r.is_ok() {
            self.locked = Ghost(true);
        } else {
            self.locked = Ghost(false);
            self.failed = Ghost(self.failed@ + 1);
        }
        r
    }

    /// Releases the device's lock.
    fn end_transaction(&mut self) {
        self.device.unlock();
        self.locked = Ghost(false);
    }
}

} // verus!
