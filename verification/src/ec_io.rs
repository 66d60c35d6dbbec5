//! Byte-wide port I/O for the ACPI embedded controller, and an in-process EC
//! that records its port traffic.
use vstd::prelude::*;

use crate::text::{owned, push_hex2, push_str};

verus! {

/// ACPI EC command/status port.
pub const EC_COMMAND_PORT: u16 = 0x66;

/// ACPI EC data port.
pub const EC_DATA_PORT: u16 = 0x62;

/// The only two ports that EC I/O may touch.
pub open spec fn acpi_port(port: u16) -> bool {
    port == EC_COMMAND_PORT || port == EC_DATA_PORT
}

/// Whether `port` is one of the two ACPI EC ports.
pub fn is_acpi_ec_port(port: u16) -> (r: bool)
    ensures
        r == acpi_port(port),
{
    port == EC_COMMAND_PORT || port == EC_DATA_PORT
}

/// One byte moved through an I/O port.
#[derive(Debug, Clone, Copy, PartialEq, Eq, Structural)]
pub enum PortOp {
    Read { port: u16, value: u8 },
    Write { port: u16, value: u8 },
}

/// Byte-wide I/O used by the ACPI EC protocol.
///
/// `port_log` is the sequence of port operations the backend has performed,
/// and `failures` counts the operations it could not carry out. The protocol
/// layer brackets each complete EC transaction with `begin_transaction` /
/// `end_transaction`, so an implementation can hold a machine-wide lock for
/// exactly one transaction; `in_transaction` tells whether one is open.
/// `simulated` is the state of the EC behind the ports where the backend
/// knows it (the in-process EC), and `None` where it does not (hardware).
pub trait EcIoBackend {
    spec fn port_log(&self) -> Seq<PortOp>;

    spec fn failures(&self) -> nat;

    spec fn in_transaction(&self) -> bool;

    spec fn simulated(&self) -> Option<MockModel>;

    fn read_port_u8(&mut self, port: u16) -> (r: Result<u8, String>)
        ensures
            r matches Ok(v) ==> final(self).port_log() == old(self).port_log().push(
                PortOp::Read { port, value: v },
            ),
            r is Ok ==> final(self).failures() == old(self).failures(),
            r is Err ==> final(self).port_log() == old(self).port_log(),
            r is Err ==> final(self).failures() == old(self).failures() + 1,
            final(self).in_transaction() == old(self).in_transaction(),
            old(self).simulated() is None ==> final(self).simulated() is None,
            old(self).simulated() matches Some(m) ==> (acpi_port(port) ==> r == Ok::<u8, String>(
                read_value(m, port),
            ) && final(self).simulated() == Some(read_step(m, port))),
    ;

    fn write_port_u8(&mut self, port: u16, value: u8) -> (r: Result<(), String>)
        ensures
            r is Ok ==> final(self).port_log() == old(self).port_log().push(
                PortOp::Write { port, value },
            ),
            r is Ok ==> final(self).failures() == old(self).failures(),
            r is Err ==> final(self).port_log() == old(self).port_log() || final(self).port_log()
                == old(self).port_log().push(PortOp::Write { port, value }),
            r is Err ==> final(self).failures() == old(self).failures() + 1,
            final(self).in_transaction() == old(self).in_transaction(),
            old(self).simulated() is None ==> final(self).simulated() is None,
            old(self).simulated() matches Some(m) ==> (acpi_port(port) ==> r is Ok
                && final(self).simulated() == Some(write_step(m, port, value))),
    ;

    fn begin_transaction(&mut self) -> (r: Result<(), String>)
        ensures
            final(self).port_log() == old(self).port_log(),
            r is Ok ==> final(self).in_transaction() && final(self).failures() == old(self).failures(),
            r is Err ==> !final(self).in_transaction() && final(self).failures() == old(self).failures() + 1,
            old(self).simulated() is None ==> final(self).simulated() is None,
            old(self).simulated() matches Some(m) ==> r is Ok && final(self).simulated() == Some(m),
    ;

    fn end_transaction(&mut self)
        ensures
            final(self).port_log() == old(self).port_log(),
            final(self).failures() == old(self).failures(),
            !final(self).in_transaction(),
            final(self).simulated() == old(self).simulated(),
    ;
}

/// What the simulated EC expects next on its data port.
#[derive(Clone, Copy, Debug, PartialEq, Eq, Structural)]
pub enum PendingCommand {
    Idle,
    Read,
    WriteAddress,
    WriteData(u8),
}

/// Abstract state of the simulated EC.
pub struct MockModel {
    pub registers: Seq<u8>,
    pub ibf_stuck: bool,
    pub pending: PendingCommand,
    pub data: u8,
    pub obf: bool,
}

/// Status byte: bit 0 output buffer full, bit 1 input buffer full.
pub open spec fn status_spec(m: MockModel) -> u8 {
    ((if m.obf { 1u8 } else { 0u8 }) + (if m.ibf_stuck { 2u8 } else { 0u8 })) as u8
}

/// Effect of a command byte written to the command port.
pub open spec fn command_spec(value: u8) -> PendingCommand {
    if value == 0x80 {
        PendingCommand::Read
    } else if value == 0x81 {
        PendingCommand::WriteAddress
    } else {
        PendingCommand::Idle
    }
}

/// Effect of a byte written to the data port.
pub open spec fn data_write_spec(m: MockModel, value: u8) -> MockModel {
    match m.pending {
        PendingCommand::Read => MockModel {
            data: m.registers[value as int],
            obf: true,
            pending: PendingCommand::Idle,
            ..m
        },
        PendingCommand::WriteAddress => MockModel { pending: PendingCommand::WriteData(value), ..m },
        PendingCommand::WriteData(register) => MockModel {
            registers: m.registers.update(register as int, value),
            pending: PendingCommand::Idle,
            ..m
        },
        PendingCommand::Idle => m,
    }
}

/// Effect of a port write on the simulated EC.
pub open spec fn write_step(m: MockModel, port: u16, value: u8) -> MockModel {
    if m.ibf_stuck {
        m
    } else if port == EC_COMMAND_PORT {
        MockModel { pending: command_spec(value), ..m }
    } else if port == EC_DATA_PORT {
        data_write_spec(m, value)
    } else {
        m
    }
}

/// The byte a port read returns.
pub open spec fn read_value(m: MockModel, port: u16) -> u8 {
    if port == EC_COMMAND_PORT {
        status_spec(m)
    } else {
        m.data
    }
}

/// Effect of a port read on the simulated EC: reading data empties the output buffer.
pub open spec fn read_step(m: MockModel, port: u16) -> MockModel {
    if port == EC_DATA_PORT {
        MockModel { obf: false, ..m }
    } else {
        m
    }
}

/// The power-on state of the simulated EC with the given registers.
pub open spec fn fresh_model(registers: Seq<u8>, ibf_stuck: bool) -> MockModel {
    MockModel { registers, ibf_stuck, pending: PendingCommand::Idle, data: 0, obf: false }
}

/// On the simulated EC, a complete write transaction (`0x81`, register, value)
/// stores the value, and a following read transaction (`0x80`, register) of the
/// same register puts that value in the output buffer, where a data-port read
/// returns it.
pub proof fn lemma_mock_read_back_written(m: MockModel, register: u8, value: u8)
    requires
        !m.ibf_stuck,
        m.registers.len() == 256,
    ensures
        ({
            let m1 = write_step(
                write_step(write_step(m, EC_COMMAND_PORT, 0x81), EC_DATA_PORT, register),
                EC_DATA_PORT,
                value,
            );
            let m2 = write_step(write_step(m1, EC_COMMAND_PORT, 0x80), EC_DATA_PORT, register);
            &&& m1.registers[register as int] == value
            &&& m2.obf
            &&& read_value(m2, EC_DATA_PORT) == value
        }),
{
}

/// The simulated EC never changes a register without a write transaction
/// naming it: a stuck input buffer leaves every register as it was.
pub proof fn lemma_mock_stuck_ignores_writes(m: MockModel, port: u16, value: u8)
    requires
        m.ibf_stuck,
    ensures
        write_step(m, port, value) == m,
{
}

/// In-process ACPI EC that records port traffic.
pub struct MockEcIoBackend {
    ops: Vec<PortOp>,
    registers: [u8; 256],
    ibf_stuck: bool,
    pending: PendingCommand,
    data: u8,
    obf: bool,
    failures: Ghost<nat>,
    open: Ghost<bool>,
}

impl MockEcIoBackend {
    /// Abstract state of the simulated EC.
    pub closed spec fn model(&self) -> MockModel {
        MockModel {
            registers: self.registers@,
            ibf_stuck: self.ibf_stuck,
            pending: self.pending,
            data: self.data,
            obf: self.obf,
        }
    }

    /// The recorded port traffic.
    pub closed spec fn log(&self) -> Seq<PortOp> {
        self.ops@
    }

    /// A simulated EC reporting firmware 1.04, all other registers zero.
    pub fn new() -> (r: Self)
        ensures
            r.model() == fresh_model(Seq::new(256, |i: int| if i == 0 { 1u8 } else if i == 1 { 4u8 } else { 0u8 }), false),
            r.log().len() == 0,
    {
        let mut registers = [0u8; 256];
        registers[0] = 1;
        registers[1] = 4;
        let r = MockEcIoBackend {
            ops: Vec::new(),
            registers,
            ibf_stuck: false,
            pending: PendingCommand::Idle,
            data: 0,
            obf: false,
            failures: Ghost(0),
            open: Ghost(false),
        };
        assert(r.model().registers =~= Seq::new(256, |i: int| if i == 0 { 1u8 } else if i == 1 { 4u8 } else { 0u8 }));
        r
    }

    /// A simulated EC reporting firmware `major.minor`.
    pub fn with_firmware(major: u8, minor: u8) -> (r: Self)
        ensures
            r.model() == fresh_model(Seq::new(256, |i: int| if i == 0 { major } else if i == 1 { minor } else { 0u8 }), false),
            r.log().len() == 0,
    {
        let mut backend = Self::new();
        backend.set_register(0x00, major);
        backend.set_register(0x01, minor);
        assert(backend.model().registers =~= Seq::new(256, |i: int| if i == 0 { major } else if i == 1 { minor } else { 0u8 }));
        backend
    }

    /// A simulated EC whose input buffer never clears.
    pub fn with_ibf_stuck() -> (r: Self)
        ensures
            r.model() == fresh_model(Seq::new(256, |i: int| if i == 0 { 1u8 } else if i == 1 { 4u8 } else { 0u8 }), true),
            r.log().len() == 0,
    {
        let mut backend = Self::new();
        backend.ibf_stuck = true;
        backend
    }

    /// Sets a register directly, without port traffic.
    pub fn set_register(&mut self, register: u8, value: u8)
        ensures
            final(self).failures() == old(self).failures(),
            final(self).in_transaction() == old(self).in_transaction(),
            final(self).model() == (MockModel {
                registers: old(self).model().registers.update(register as int, value),
                ..old(self).model()
            }),
            final(self).log() == old(self).log(),
    {
        self.registers[register as usize] = value;
    }

    /// Reads a register directly, without port traffic.
    pub fn register(&self, register: u8) -> (r: u8)
        ensures
            r == self.model().registers[register as int],
    {
        self.registers[register as usize]
    }

    /// A copy of the recorded port traffic.
    pub fn ops(&self) -> (r: Vec<PortOp>)
        ensures
            r@ == self.log(),
    {
        self.ops.clone()
    }

    /// Current status byte.
    fn status(&self) -> (r: u8)
        ensures
            r == status_spec(self.model()),
    {
        let mut value: u8 = 0;
        if self.obf {
            value = value + 1;
        }
        if self.ibf_stuck {
            value = value + 2;
        }
        value
    }

    fn write_command(&mut self, value: u8)
        ensures
            final(self).failures() == old(self).failures(),
            final(self).in_transaction() == old(self).in_transaction(),
            final(self).model() == (MockModel { pending: command_spec(value), ..old(self).model() }),
            final(self).log() == old(self).log(),
    {
        self.pending = if value == 0x80 {
            PendingCommand::Read
        } else if value == 0x81 {
            PendingCommand::WriteAddress
        } else {
            PendingCommand::Idle
        };
    }

    fn write_data(&mut self, value: u8)
        ensures
            final(self).failures() == old(self).failures(),
            final(self).in_transaction() == old(self).in_transaction(),
            final(self).model() == data_write_spec(old(self).model(), value),
            final(self).log() == old(self).log(),
    {
        match self.pending {
            PendingCommand::Read => {
                self.data = self.registers[value as usize];
                self.obf = true;
                self.pending = PendingCommand::Idle;
            },
            PendingCommand::WriteAddress => {
                self.pending = PendingCommand::WriteData(value);
            },
            PendingCommand::WriteData(register) => {
                self.registers[register as usize] = value;
                self.pending = PendingCommand::Idle;
            },
            PendingCommand::Idle => {},
        }
        assert(final(self).model().registers =~= data_write_spec(old(self).model(), value).registers);
    }

    /// Port read with the simulated EC's effect on its state.
    pub fn read_port(&mut self, port: u16) -> (r: Result<u8, String>)
        ensures
            final(self).failures() == old(self).failures(),
            final(self).in_transaction() == old(self).in_transaction(),
            acpi_port(port) ==> r == Ok::<u8, String>(read_value(old(self).model(), port)),
            acpi_port(port) ==> final(self).model() == read_step(old(self).model(), port),
            !acpi_port(port) ==> r is Err && final(self).model() == old(self).model(),
            r matches Ok(v) ==> final(self).log() == old(self).log().push(PortOp::Read { port, value: v }),
            r is Err ==> final(self).log() == old(self).log(),
    {
        let value = if port == EC_COMMAND_PORT {
            self.status()
        } else if port == EC_DATA_PORT {
            let value = self.data;
            self.obf = false;
            value
        } else {
            let mut message = owned("Mock EC refused non-ACPI port 0x");
            push_hex2(&mut message, port as u32);
            return Err(message);
        };
        self.ops.push(PortOp::Read { port, value });
        Ok(value)
    }

    /// Port write with the simulated EC's effect on its state.
    pub fn write_port(&mut self, port: u16, value: u8) -> (r: Result<(), String>)
        ensures
            final(self).failures() == old(self).failures(),
            final(self).in_transaction() == old(self).in_transaction(),
            final(self).model() == write_step(old(self).model(), port, value),
            r is Ok <==> (old(self).model().ibf_stuck || acpi_port(port)),
            final(self).log() == old(self).log().push(PortOp::Write { port, value }),
    {
        self.ops.push(PortOp::Write { port, value });
        if self.ibf_stuck {
            return Ok(());
        }
        if port == EC_COMMAND_PORT {
            self.write_command(value);
        } else if port == EC_DATA_PORT {
            self.write_data(value);
        } else {
            let mut message = owned("Mock EC refused non-ACPI port 0x");
            push_hex2(&mut message, port as u32);
            return Err(message);
        }
        Ok(())
    }
}

impl EcIoBackend for MockEcIoBackend {
    open spec fn port_log(&self) -> Seq<PortOp> {
        self.log()
    }

    open spec fn simulated(&self) -> Option<MockModel> {
        Some(self.model())
    }

    closed spec fn failures(&self) -> nat {
        self.failures@
    }

    closed spec fn in_transaction(&self) -> bool {
        self.open@
    }

    /// The simulated EC answers every ACPI EC port and refuses the others.
    fn read_port_u8(&mut self, port: u16) -> (r: Result<u8, String>)
        ensures
            acpi_port(port) ==> r == Ok::<u8, String>(read_value(old(self).model(), port)),
            acpi_port(port) ==> final(self).model() == read_step(old(self).model(), port),
            !acpi_port(port) ==> r is Err && final(self).model() == old(self).model(),
    {
        let r = self.read_port(port);
        if r.is_err() {
            self.failures = Ghost(self.failures@ + 1);
        }
        r
    }

    /// The simulated EC takes every write to an ACPI EC port, and every
    /// write at all while its input buffer is stuck.
    fn write_port_u8(&mut self, port: u16, value: u8) -> (r: Result<(), String>)
        ensures
            final(self).model() == write_step(old(self).model(), port, value),
            r is Ok <==> (old(self).model().ibf_stuck || acpi_port(port)),
            final(self).log() == old(self).log().push(PortOp::Write { port, value }),
    {
        let r = self.write_port(port, value);
        if r.is_err() {
            self.failures = Ghost(self.failures@ + 1);
        }
        r
    }

    /// The simulated EC has no lock to take: a transaction always opens.
    fn begin_transaction(&mut self) -> (r: Result<(), String>)
        ensures
            r is Ok,
            final(self).model() == old(self).model(),
            final(self).log() == old(self).log(),
    {
        self.open = Ghost(true);
        Ok(())
    }

    fn end_transaction(&mut self)
        ensures
            final(self).model() == old(self).model(),
            final(self).log() == old(self).log(),
    {
        self.open = Ghost(false);
    }
}

impl Default for MockEcIoBackend {
    fn default() -> (r: Self)
        ensures
            r.model() == fresh_model(Seq::new(256, |i: int| if i == 0 { 1u8 } else if i == 1 { 4u8 } else { 0u8 }), false),
            r.log().len() == 0,
    {
        Self::new()
    }
}

} // verus!
