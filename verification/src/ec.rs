//! ACPI EC protocol, register map and the fan / power-mode operations of the
//! Sixunited AXB35 embedded controller.
use vstd::prelude::*;

use crate::curve::{next_level_spec, next_fan_level};
use crate::ec_io::{
    acpi_port, is_acpi_ec_port, read_step, read_value, status_spec, write_step, EcIoBackend, MockModel,
    PendingCommand, PortOp, EC_COMMAND_PORT, EC_DATA_PORT,
};
use crate::hardware::{summary_spec, supported_spec, HardwareIdentity};
use crate::text::{dec, dec2, hex2, owned, push_char, push_dec, push_dec2, push_hex2, push_str, str_eq};

verus! {

pub const EC_COMMAND_READ: u8 = 0x80;
pub const EC_COMMAND_WRITE: u8 = 0x81;
pub const RW_TIMEOUT: u32 = 500;
pub const MAX_RETRIES: u32 = 5;

pub const EC_STATUS_OUTPUT_BUFFER_FULL: u8 = 0x01;
pub const EC_STATUS_INPUT_BUFFER_FULL: u8 = 0x02;

pub const EC_REG_FIRMWARE_MAJOR: u8 = 0x00;
pub const EC_REG_FIRMWARE_MINOR: u8 = 0x01;
pub const EC_REG_APU_POWER_MODE: u8 = 0x31;
pub const EC_REG_APU_TEMPERATURE: u8 = 0x70;

pub const EC_REG_FAN1_SPEED_HIGH: u8 = 0x35;
pub const EC_REG_FAN1_SPEED_LOW: u8 = 0x36;
pub const EC_REG_FAN1_MODE: u8 = 0x21;

pub const EC_REG_FAN2_SPEED_HIGH: u8 = 0x37;
pub const EC_REG_FAN2_SPEED_LOW: u8 = 0x38;
pub const EC_REG_FAN2_MODE: u8 = 0x23;

pub const EC_REG_FAN3_SPEED_HIGH: u8 = 0x28;
pub const EC_REG_FAN3_SPEED_LOW: u8 = 0x29;
pub const EC_REG_FAN3_MODE: u8 = 0x25;

pub const MIN_FIRMWARE_MAJOR: u8 = 1;
pub const MIN_FIRMWARE_MINOR: u8 = 4;

/// APU power profile stored in EC register `0x31`.
#[derive(Debug, Clone, Copy, PartialEq, Eq, Structural)]
pub enum PowerMode {
    Balanced,
    Performance,
    Quiet,
}

/// Name of a power mode.
pub open spec fn power_mode_name(m: PowerMode) -> Seq<char> {
    match m {
        PowerMode::Balanced => "balanced"@,
        PowerMode::Performance => "performance"@,
        PowerMode::Quiet => "quiet"@,
    }
}

/// Power mode with the given name.
pub open spec fn power_mode_from_name(s: Seq<char>) -> Option<PowerMode> {
    if s == "balanced"@ {
        Some(PowerMode::Balanced)
    } else if s == "performance"@ {
        Some(PowerMode::Performance)
    } else if s == "quiet"@ {
        Some(PowerMode::Quiet)
    } else {
        None
    }
}

/// EC encoding of a power mode.
pub open spec fn power_mode_value(m: PowerMode) -> u8 {
    match m {
        PowerMode::Balanced => 0x00,
        PowerMode::Performance => 0x01,
        PowerMode::Quiet => 0x02,
    }
}

/// Power mode encoded by an EC byte.
pub open spec fn power_mode_from_value(v: u8) -> Option<PowerMode> {
    if v == 0x00 {
        Some(PowerMode::Balanced)
    } else if v == 0x01 {
        Some(PowerMode::Performance)
    } else if v == 0x02 {
        Some(PowerMode::Quiet)
    } else {
        None
    }
}

impl PowerMode {
    pub fn as_str(self) -> (r: &'static str)
        ensures
            r@ == power_mode_name(self),
    {
        match self {
            PowerMode::Balanced => "balanced",
            PowerMode::Performance => "performance",
            PowerMode::Quiet => "quiet",
        }
    }

    pub fn from_name(name: &str) -> (r: Option<Self>)
        ensures
            r == power_mode_from_name(name@),
    {
        if str_eq(name, "balanced") {
            Some(PowerMode::Balanced)
        } else if str_eq(name, "performance") {
            Some(PowerMode::Performance)
        } else if str_eq(name, "quiet") {
            Some(PowerMode::Quiet)
        } else {
            None
        }
    }

    pub fn to_ec_value(self) -> (r: u8)
        ensures
            r == power_mode_value(self),
    {
        match self {
            PowerMode::Balanced => 0x00,
            PowerMode::Performance => 0x01,
            PowerMode::Quiet => 0x02,
        }
    }

    pub fn from_ec_value(value: u8) -> (r: Option<Self>)
        ensures
            r == power_mode_from_value(value),
    {
        match value {
            0x00 => Some(PowerMode::Balanced),
            0x01 => Some(PowerMode::Performance),
            0x02 => Some(PowerMode::Quiet),
            _ => None,
        }
    }
}

/// Decoding a power mode's EC byte gives the power mode back, and every byte
/// that decodes is the encoding of what it decodes to.
pub proof fn lemma_power_mode_value_roundtrip(m: PowerMode, v: u8)
    ensures
        power_mode_from_value(power_mode_value(m)) == Some(m),
        power_mode_from_value(v) matches Some(d) ==> power_mode_value(d) == v,
{
}

/// Parsing a power mode's name gives the power mode back.
pub proof fn lemma_power_mode_name_roundtrip(m: PowerMode)
    ensures
        power_mode_from_name(power_mode_name(m)) == Some(m),
{
    reveal_strlit("balanced");
    reveal_strlit("performance");
    reveal_strlit("quiet");
    assert("balanced"@.len() != "performance"@.len());
    assert("balanced"@.len() != "quiet"@.len());
    assert("performance"@.len() != "quiet"@.len());
}

/// One EC command.
#[derive(Debug, Clone)]
pub enum EcOperation {
    GetFirmwareVersion,
    GetApuPowerMode,
    SetApuPowerMode(String),
    GetApuTemperature,
    GetFanRpm(u8),
    GetFanMode(u8),
    SetFanMode(u8, String),
    GetFanLevel(u8),
    SetFanLevel(u8, u8),
    GetFanRampupCurve(u8),
    SetFanRampupCurve(u8, [u8; 5]),
    GetFanRampdownCurve(u8),
    SetFanRampdownCurve(u8, [u8; 5]),
}

/// Answer to an EC command.
#[derive(Debug, Clone)]
pub enum EcResult {
    FirmwareVersion { major: u8, minor: u8 },
    ApuPowerMode(String),
    ApuTemperature(u8),
    FanRpm(u16),
    FanMode(String),
    FanLevel(u8),
    FanRampupCurve([u8; 5]),
    FanRampdownCurve([u8; 5]),
}

/// Fan control mode.
#[derive(Debug, Clone, Copy, PartialEq, Eq, Structural)]
pub enum FanMode {
    Auto,
    Fixed,
    Curve,
}

/// Name of a fan mode.
pub open spec fn fan_mode_name(m: FanMode) -> Seq<char> {
    match m {
        FanMode::Auto => "auto"@,
        FanMode::Fixed => "fixed"@,
        FanMode::Curve => "curve"@,
    }
}

/// Fan mode with the given name.
pub open spec fn fan_mode_from_name(s: Seq<char>) -> Option<FanMode> {
    if s == "auto"@ {
        Some(FanMode::Auto)
    } else if s == "fixed"@ {
        Some(FanMode::Fixed)
    } else if s == "curve"@ {
        Some(FanMode::Curve)
    } else {
        None
    }
}

impl FanMode {
    pub fn as_str(self) -> (r: &'static str)
        ensures
            r@ == fan_mode_name(self),
    {
        match self {
            FanMode::Auto => "auto",
            FanMode::Fixed => "fixed",
            FanMode::Curve => "curve",
        }
    }

    pub fn from_name(s: &str) -> (r: Option<FanMode>)
        ensures
            r == fan_mode_from_name(s@),
    {
        if str_eq(s, "auto") {
            Some(FanMode::Auto)
        } else if str_eq(s, "fixed") {
            Some(FanMode::Fixed)
        } else if str_eq(s, "curve") {
            Some(FanMode::Curve)
        } else {
            None
        }
    }
}

/// Parsing a fan mode's name gives the fan mode back.
pub proof fn lemma_fan_mode_name_roundtrip(m: FanMode)
    ensures
        fan_mode_from_name(fan_mode_name(m)) == Some(m),
{
    reveal_strlit("auto");
    reveal_strlit("fixed");
    reveal_strlit("curve");
    assert("auto"@.len() != "fixed"@.len());
    assert("auto"@.len() != "curve"@.len());
    assert("fixed"@[0] != "curve"@[0]);
}

/// Curve thresholds and mode kept in software for one fan.
#[derive(Debug, Clone, Copy)]
pub struct FanCurveData {
    pub rampup_curve: [u8; 5],
    pub rampdown_curve: [u8; 5],
    pub mode: FanMode,
}

/// Stock ramp-up thresholds for the CPU fans.
pub open spec fn stock_rampup() -> Seq<u8> {
    seq![60u8, 70, 83, 95, 97]
}

/// Stock ramp-down thresholds for the CPU fans.
pub open spec fn stock_rampdown() -> Seq<u8> {
    seq![40u8, 50, 80, 94, 96]
}

/// Stock ramp-up thresholds for the system fan.
pub open spec fn system_rampup() -> Seq<u8> {
    seq![20u8, 60, 83, 95, 97]
}

/// Stock ramp-down thresholds for the system fan.
pub open spec fn system_rampdown() -> Seq<u8> {
    seq![0u8, 50, 80, 94, 96]
}

impl Default for FanCurveData {
    fn default() -> (r: Self)
        ensures
            r.rampup_curve@ == stock_rampup(),
            r.rampdown_curve@ == stock_rampdown(),
            r.mode == FanMode::Auto,
    {
        let r = FanCurveData {
            rampup_curve: [60, 70, 83, 95, 97],
            rampdown_curve: [40, 50, 80, 94, 96],
            mode: FanMode::Auto,
        };
        assert(r.rampup_curve@ =~= stock_rampup());
        assert(r.rampdown_curve@ =~= stock_rampdown());
        r
    }
}

/// One complete EC register transaction.
#[derive(Debug, Clone, Copy, PartialEq, Eq, Structural)]
pub enum EcTxn {
    ReadByte { register: u8, value: u8 },
    WriteByte { register: u8, value: u8 },
}

/// `b` is `a` with possibly more items after it.
pub open spec fn extends<T>(a: Seq<T>, b: Seq<T>) -> bool {
    a.len() <= b.len() && forall|k: int| 0 <= k < a.len() ==> #[trigger] b[k] == a[k]
}

/// The port of a port operation.
pub open spec fn op_port(op: PortOp) -> u16 {
    match op {
        PortOp::Read { port, .. } => port,
        PortOp::Write { port, .. } => port,
    }
}

/// A poll of the EC status register.
pub open spec fn is_status_read(op: PortOp) -> bool {
    op matches PortOp::Read { port, .. } && port == EC_COMMAND_PORT
}

/// Every port operation from position `lo` on touches an ACPI EC port.
pub open spec fn acpi_only(log: Seq<PortOp>, lo: int) -> bool {
    forall|k: int| lo <= k < log.len() ==> acpi_port(op_port(#[trigger] log[k]))
}

/// The status byte `v` shows the awaited condition.
pub open spec fn status_ready(status: u8, is_set: bool, v: u8) -> bool {
    (status & (if is_set { !v } else { v })) == 0
}

/// The log ends with one read attempt that started at or after `lo`: command
/// `0x80` at `c`, the register number at `d`, only status polls in between and
/// after, and finally the data byte `value`.
pub open spec fn read_attempt_at(log: Seq<PortOp>, lo: int, c: int, d: int, register: u8, value: u8) -> bool {
    &&& lo <= c < d < log.len() - 1
    &&& log[c] == PortOp::Write { port: EC_COMMAND_PORT, value: EC_COMMAND_READ }
    &&& log[d] == PortOp::Write { port: EC_DATA_PORT, value: register }
    &&& log.last() == PortOp::Read { port: EC_DATA_PORT, value }
    &&& forall|k: int| c < k < log.len() - 1 && k != d ==> is_status_read(#[trigger] log[k])
}

/// The log ends with a successful read transaction of `register` returning `value`.
pub open spec fn read_attempt_after(log: Seq<PortOp>, lo: int, register: u8, value: u8) -> bool {
    exists|c: int, d: int| #[trigger] read_attempt_at(log, lo, c, d, register, value)
}

/// The log ends with one write attempt that started at or after `lo`: command
/// `0x81` at `c`, the register number at `d`, then the value, with only
/// status polls in between.
pub open spec fn write_attempt_at(log: Seq<PortOp>, lo: int, c: int, d: int, register: u8, value: u8) -> bool {
    &&& lo <= c < d < log.len() - 1
    &&& log[c] == PortOp::Write { port: EC_COMMAND_PORT, value: EC_COMMAND_WRITE }
    &&& log[d] == PortOp::Write { port: EC_DATA_PORT, value: register }
    &&& log.last() == PortOp::Write { port: EC_DATA_PORT, value }
    &&& forall|k: int| c < k < log.len() - 1 && k != d ==> is_status_read(#[trigger] log[k])
}

/// The log ends with a successful write transaction of `value` to `register`.
pub open spec fn write_attempt_after(log: Seq<PortOp>, lo: int, register: u8, value: u8) -> bool {
    exists|c: int, d: int| #[trigger] write_attempt_at(log, lo, c, d, register, value)
}

/// Stock curve data for the three fans.
pub open spec fn default_curves_ok(c: Seq<FanCurveData>) -> bool {
    &&& c.len() == 3
    &&& c[0].rampup_curve@ == stock_rampup() && c[0].rampdown_curve@ == stock_rampdown()
    &&& c[1].rampup_curve@ == stock_rampup() && c[1].rampdown_curve@ == stock_rampdown()
    &&& c[2].rampup_curve@ == system_rampup() && c[2].rampdown_curve@ == system_rampdown()
    &&& c[0].mode == FanMode::Auto && c[1].mode == FanMode::Auto && c[2].mode == FanMode::Auto
}

/// Firmware bytes that cannot come from a working EC.
pub open spec fn firmware_bytes_valid(major: u8, minor: u8) -> bool {
    !((major == 0 && minor == 0) || (major == 0xFF && minor == 0xFF))
}

/// Firmware 1.04 or newer.
pub open spec fn firmware_supported_spec(major: u8, minor: u8) -> bool {
    major > MIN_FIRMWARE_MAJOR || (major == MIN_FIRMWARE_MAJOR && minor >= MIN_FIRMWARE_MINOR)
}

/// Speed registers (high, low) of a fan.
pub open spec fn fan_speed_regs(fan_id: u8) -> Option<(u8, u8)> {
    if fan_id == 1 {
        Some((EC_REG_FAN1_SPEED_HIGH, EC_REG_FAN1_SPEED_LOW))
    } else if fan_id == 2 {
        Some((EC_REG_FAN2_SPEED_HIGH, EC_REG_FAN2_SPEED_LOW))
    } else if fan_id == 3 {
        Some((EC_REG_FAN3_SPEED_HIGH, EC_REG_FAN3_SPEED_LOW))
    } else {
        None
    }
}

/// Mode register of a fan; its level register is the next one.
pub open spec fn fan_mode_reg(fan_id: u8) -> Option<u8> {
    if fan_id == 1 {
        Some(EC_REG_FAN1_MODE)
    } else if fan_id == 2 {
        Some(EC_REG_FAN2_MODE)
    } else if fan_id == 3 {
        Some(EC_REG_FAN3_MODE)
    } else {
        None
    }
}

/// Fan ids 1 to 3 exist.
pub open spec fn valid_fan(fan_id: u8) -> bool {
    1 <= fan_id <= 3
}

/// High nibble shared by a fan's mode and level bytes.
pub open spec fn fan_base(fan_id: u8) -> u8 {
    if fan_id == 1 {
        0x10
    } else if fan_id == 2 {
        0x20
    } else {
        0x30
    }
}

/// Low nibble that selects a fan level (0 to 5).
pub open spec fn level_code(level: u8) -> u8 {
    if level == 0 {
        0x7
    } else if level == 1 {
        0x2
    } else if level == 2 {
        0x3
    } else if level == 3 {
        0x4
    } else if level == 4 {
        0x5
    } else if level == 5 {
        0x6
    } else {
        0x7
    }
}

/// Byte written to a fan's level register for `level`.
pub open spec fn level_byte(fan_id: u8, level: u8) -> u8 {
    (fan_base(fan_id) + level_code(level)) as u8
}

/// Level that a level-register byte stands for.
pub open spec fn decode_level_spec(v: u8) -> u8 {
    let low = v & 0xF;
    if low == 0x7 {
        0
    } else if low == 0x2 {
        1
    } else if low == 0x3 {
        2
    } else if low == 0x4 {
        3
    } else if low == 0x5 {
        4
    } else if low == 0x6 {
        5
    } else {
        0
    }
}

/// Byte written to a fan's mode register for `mode`.
pub open spec fn mode_byte(fan_id: u8, mode: FanMode) -> u8 {
    if mode == FanMode::Auto {
        fan_base(fan_id)
    } else {
        (fan_base(fan_id) + 1) as u8
    }
}

/// What a fan-mode register byte reports, given the software mode of the fan.
pub open spec fn fan_mode_text(v: u8, soft: FanMode) -> Option<Seq<char>> {
    if v == 0x10 || v == 0x20 || v == 0x30 {
        Some("auto"@)
    } else if v == 0x11 || v == 0x21 || v == 0x31 {
        if soft == FanMode::Curve {
            Some("curve"@)
        } else {
            Some("fixed"@)
        }
    } else {
        None
    }
}

/// Fan speed from the two speed bytes; the system fan reports 8000 when stopped.
pub open spec fn rpm_spec(fan_id: u8, high: u8, low: u8) -> u16 {
    let raw = (high as int) * 256 + (low as int);
    if fan_id == 3 && raw == 8000 {
        0
    } else {
        raw as u16
    }
}

/// Level a fan in curve mode starts at: the highest level whose ramp-up
/// threshold the temperature has reached.
pub open spec fn initial_level_spec(temp: u8, up: Seq<u8>) -> u8 {
    if temp >= up[4] {
        5
    } else if temp >= up[3] {
        4
    } else if temp >= up[2] {
        3
    } else if temp >= up[1] {
        2
    } else if temp >= up[0] {
        1
    } else {
        0
    }
}

/// All five curve points are temperatures the EC accepts.
pub open spec fn curve_in_range(c: Seq<u8>) -> bool {
    forall|i: int| 0 <= i < c.len() ==> c[i] <= 100
}

pub open spec fn invalid_fan_msg(fan_id: u8) -> Seq<char> {
    "Invalid fan ID: "@ + dec(fan_id as nat)
}

pub open spec fn unsupported_msg(h: HardwareIdentity) -> Seq<char> {
    "Unsupported hardware '"@ + summary_spec(h)
        + "'. EC writes are disabled to avoid damaging unrelated machines."@
}

pub open spec fn firmware_msg(major: u8, minor: u8) -> Seq<char> {
    "Unsupported EC firmware "@ + dec(major as nat) + "."@ + dec2(minor as nat)
        + ". This software requires EC firmware 1.04 or higher."@
}

/// Value carried by a transaction.
pub open spec fn txn_value(t: EcTxn) -> u8 {
    match t {
        EcTxn::ReadByte { value, .. } => value,
        EcTxn::WriteByte { value, .. } => value,
    }
}

/// A read transaction of `register`.
pub open spec fn is_read_of(t: EcTxn, register: u8) -> bool {
    t matches EcTxn::ReadByte { register: r, .. } && r == register
}

/// Message logged when a curve fan changes level.
pub open spec fn ramp_msg(fan_id: u8, up: bool, level: u8, temp: u8, threshold: u8) -> Seq<char> {
    "Fan"@ + dec(fan_id as nat) + (if up { " ramping up to level "@ } else { " ramping down to level "@ })
        + dec(level as nat) + " (temp: "@ + dec(temp as nat) + "°C, threshold: "@ + dec(
        threshold as nat,
    ) + "°C)"@
}

/// Threshold that triggered a level change from `current`.
pub open spec fn ramp_threshold(c: FanCurveData, current: u8, up: bool) -> u8 {
    if up {
        c.rampup_curve@[current as int]
    } else {
        c.rampdown_curve@[current - 1]
    }
}

/// Transactions and messages of a complete curve scan over fans `i..3` at temperature `temp`.
pub open spec fn scan_ok(curves: Seq<FanCurveData>, temp: u8, t: Seq<EcTxn>, i: int, msgs: Seq<Seq<char>>) -> bool
    decreases 3 - i,
{
    if i >= 3 || i < 0 {
        t.len() == 0 && msgs.len() == 0
    } else if curves[i].mode != FanMode::Curve {
        scan_ok(curves, temp, t, i + 1, msgs)
    } else {
        let fan = (i + 1) as u8;
        let reg = (fan_mode_reg(fan)->0 + 1) as u8;
        &&& t.len() >= 1
        &&& is_read_of(t[0], reg)
        &&& {
            let cur = decode_level_spec(txn_value(t[0]));
            let next = next_level_spec(cur, temp, curves[i].rampup_curve@, curves[i].rampdown_curve@);
            if next != cur {
                &&& t.len() == 2
                &&& t[1] == EcTxn::WriteByte { register: reg, value: level_byte(fan, next) }
                &&& msgs == seq![ramp_msg(fan, next > cur, next, temp, ramp_threshold(curves[i], cur, next > cur))]
            } else {
                scan_ok(curves, temp, t.skip(1), i + 1, msgs)
            }
        }
    }
}

/// Transactions of a curve scan over fans `i..3` that stopped on an error.
pub open spec fn scan_failed(curves: Seq<FanCurveData>, temp: u8, t: Seq<EcTxn>, i: int) -> bool
    decreases 3 - i,
{
    if i >= 3 || i < 0 {
        false
    } else if curves[i].mode != FanMode::Curve {
        scan_failed(curves, temp, t, i + 1)
    } else {
        let fan = (i + 1) as u8;
        let reg = (fan_mode_reg(fan)->0 + 1) as u8;
        if t.len() == 0 {
            true
        } else {
            &&& is_read_of(t[0], reg)
            &&& {
                let cur = decode_level_spec(txn_value(t[0]));
                let next = next_level_spec(cur, temp, curves[i].rampup_curve@, curves[i].rampdown_curve@);
                if next != cur {
                    t.len() == 1
                } else {
                    scan_failed(curves, temp, t.skip(1), i + 1)
                }
            }
        }
    }
}

/// The ACPI EC controller of an AXB35 board, over a port I/O backend.
pub struct EcController<B: EcIoBackend> {
    backend: B,
    fan_curves: [FanCurveData; 3],
    writes_allowed: bool,
    hardware: HardwareIdentity,
    txns: Ghost<Seq<EcTxn>>,
    spans: Ghost<Map<int, (int, int, int)>>,
    timeouts: Ghost<nat>,
}

impl<B: EcIoBackend> EcController<B> {
    /// Software curve state of fans 1 to 3.
    pub closed spec fn curves(&self) -> Seq<FanCurveData> {
        self.fan_curves@
    }

    /// Whether EC writes are permitted on this machine.
    pub closed spec fn allows_writes(&self) -> bool {
        self.writes_allowed
    }

    /// The identity of the machine.
    pub closed spec fn identity(&self) -> HardwareIdentity {
        self.hardware
    }

    /// Every successful register transaction so far, in order.
    pub closed spec fn txns(&self) -> Seq<EcTxn> {
        self.txns@
    }

    /// The backend.
    pub closed spec fn io(&self) -> B {
        self.backend
    }

    /// Where each transaction went over the ports: for transaction `i`, the
    /// port-log positions of its command byte, its register byte and its
    /// data byte.
    pub closed spec fn txn_spans(&self) -> Map<int, (int, int, int)> {
        self.spans@
    }

    /// Waits for the EC that ran out before it was ready.
    pub closed spec fn timeouts(&self) -> nat {
        self.timeouts@
    }

    /// Everything that has gone wrong so far: port operations the backend
    /// could not carry out, and waits that timed out.
    pub open spec fn trouble(&self) -> nat {
        self.io().failures() + self.timeouts()
    }

    /// Port traffic of the backend.
    pub open spec fn port_log(&self) -> Seq<PortOp> {
        self.io().port_log()
    }

    /// Transactions performed after `old` (a state this one grew from).
    pub open spec fn new_txns(old: &Self, new: &Self) -> Seq<EcTxn> {
        new.txns().skip(old.txns().len() as int)
    }

    /// A controller over `backend` with stock curves and writes permitted.
    pub fn new_unchecked(backend: B) -> (r: Self)
        ensures
            default_curves_ok(r.curves()),
            r.allows_writes(),
            r.identity().system_manufacturer@.len() == 0,
            r.identity().system_product@.len() == 0,
            r.identity().board_manufacturer@.len() == 0,
            r.identity().board_product@.len() == 0,
            r.txns().len() == 0,
            r.io() == backend,
    {
        let mut curves = [FanCurveData::default(), FanCurveData::default(), FanCurveData::default()];
        curves[2].rampup_curve = [20, 60, 83, 95, 97];
        curves[2].rampdown_curve = [0, 50, 80, 94, 96];
        assert(curves[2].rampup_curve@ =~= system_rampup());
        assert(curves[2].rampdown_curve@ =~= system_rampdown());
        EcController {
            backend,
            fan_curves: curves,
            writes_allowed: true,
            hardware: HardwareIdentity::default(),
            txns: Ghost(Seq::empty()),
            spans: Ghost(Map::empty()),
            timeouts: Ghost(0),
        }
    }

    /// Reads the firmware version, refuses firmware older than 1.04, and
    /// permits writes only on a recognised AXB35 / EVO-X2 board.
    pub fn initialize(backend: B, hardware: HardwareIdentity) -> (r: Result<Self, String>)
        ensures
            r matches Ok(c) ==> {
                &&& default_curves_ok(c.curves())
                &&& c.allows_writes() == supported_spec(hardware)
                &&& c.identity() == hardware
                &&& c.txns().len() == 2
                &&& is_read_of(c.txns()[0], EC_REG_FIRMWARE_MAJOR)
                &&& is_read_of(c.txns()[1], EC_REG_FIRMWARE_MINOR)
                &&& firmware_bytes_valid(txn_value(c.txns()[0]), txn_value(c.txns()[1]))
                &&& firmware_supported_spec(txn_value(c.txns()[0]), txn_value(c.txns()[1]))
                &&& extends(backend.port_log(), c.port_log())
            },
            backend.simulated() matches Some(m) ==> {
                let major = m.registers[EC_REG_FIRMWARE_MAJOR as int];
                let minor = m.registers[EC_REG_FIRMWARE_MINOR as int];
                if m.ibf_stuck {
                    r matches Err(e) && e@ == wait_timeout_text(false)
                } else if !firmware_bytes_valid(major, minor) {
                    r matches Err(e) && e@ == "Invalid firmware version detected"@
                } else if !firmware_supported_spec(major, minor) {
                    r matches Err(e) && e@ == firmware_msg(major, minor)
                } else {
                    r matches Ok(c) && (c.io().simulated() matches Some(m2) && m2.registers == m.registers
                        && !m2.ibf_stuck)
                }
            },
    {
        let mut controller = Self::new_unchecked(backend);
        controller.hardware = hardware;
        let ghost pre = controller;
        let (major, minor) = match controller.read_firmware_version() {
            Ok(p) => p,
            Err(e) => {
                return Err(e);
            },
        };
        proof {
            if let Some(m) = backend.simulated() {
                let t = Self::new_txns(&pre, &controller);
                if !m.ibf_stuck {
                    assert(t =~= Seq::<EcTxn>::empty().push(t[0]).push(t[1]));
                    lemma_model_after_push(m, Seq::<EcTxn>::empty(), t[0]);
                    lemma_model_after_push(m, Seq::<EcTxn>::empty().push(t[0]), t[1]);
                }
            }
        }
        if !firmware_supported(major, minor) {
            return Err(unsupported_firmware_message(major, minor));
        }
        if !controller.hardware.is_supported_axb35() {
            controller.writes_allowed = false;
        }
        Ok(controller)
    }

    pub fn writes_allowed(&self) -> (r: bool)
        ensures
            r == self.allows_writes(),
    {
        self.writes_allowed
    }

    pub fn hardware(&self) -> (r: &HardwareIdentity)
        ensures
            *r == self.identity(),
    {
        &self.hardware
    }

    /// The port I/O backend.
    pub fn backend(&self) -> (r: &B)
        ensures
            *r == self.io(),
    {
        &self.backend
    }

    pub fn unsupported_write_error(&self) -> (r: String)
        ensures
            r@ == unsupported_msg(self.identity()),
    {
        let mut message = owned("Unsupported hardware '");
        let summary = self.hardware.summary();
        push_str(&mut message, summary.as_str());
        push_str(&mut message, "'. EC writes are disabled to avoid damaging unrelated machines.");
        message
    }

    fn ensure_writes_allowed(&self) -> (r: Result<(), String>)
        ensures
            r is Ok <==> self.allows_writes(),
            r matches Err(e) ==> e@ == unsupported_msg(self.identity()),
    {
        if self.writes_allowed {
            Ok(())
        } else {
            Err(self.unsupported_write_error())
        }
    }

    fn get_fan_speed_registers(&self, fan_id: u8) -> (r: Result<(u8, u8), String>)
        ensures
            r matches Ok(p) ==> fan_speed_regs(fan_id) == Some(p),
            r matches Err(e) ==> fan_speed_regs(fan_id) is None && e@ == invalid_fan_msg(fan_id),
    {
        match fan_id {
            1 => Ok((EC_REG_FAN1_SPEED_HIGH, EC_REG_FAN1_SPEED_LOW)),
            2 => Ok((EC_REG_FAN2_SPEED_HIGH, EC_REG_FAN2_SPEED_LOW)),
            3 => Ok((EC_REG_FAN3_SPEED_HIGH, EC_REG_FAN3_SPEED_LOW)),
            _ => Err(invalid_fan_error(fan_id)),
        }
    }

    fn get_fan_mode_register(&self, fan_id: u8) -> (r: Result<u8, String>)
        ensures
            r matches Ok(p) ==> fan_mode_reg(fan_id) == Some(p),
            r matches Err(e) ==> fan_mode_reg(fan_id) is None && e@ == invalid_fan_msg(fan_id),
    {
        match fan_id {
            1 => Ok(EC_REG_FAN1_MODE),
            2 => Ok(EC_REG_FAN2_MODE),
            3 => Ok(EC_REG_FAN3_MODE),
            _ => Err(invalid_fan_error(fan_id)),
        }
    }

    fn read_io_port(&mut self, port: u16) -> (r: Result<u8, String>)
        ensures
            final(self).txn_spans() == old(self).txn_spans(),
            final(self).curves() == old(self).curves(),
            final(self).allows_writes() == old(self).allows_writes(),
            final(self).identity() == old(self).identity(),
            final(self).txns() == old(self).txns(),
            r matches Ok(v) ==> acpi_port(port) && final(self).port_log() == old(self).port_log().push(
                PortOp::Read { port, value: v },
            ),
            r is Err ==> final(self).port_log() == old(self).port_log(),
            final(self).timeouts() == old(self).timeouts(),
            !acpi_port(port) ==> r is Err && final(self).io().failures() == old(self).io().failures(),
            acpi_port(port) && r is Ok ==> final(self).io().failures() == old(self).io().failures(),
            acpi_port(port) && r is Err ==> final(self).io().failures() == old(self).io().failures() + 1,
            old(self).io().simulated() is None ==> final(self).io().simulated() is None,
            old(self).io().simulated() matches Some(m) ==> (acpi_port(port) ==> r == Ok::<u8, String>(
                read_value(m, port),
            ) && final(self).io().simulated() == Some(read_step(m, port))),
    {
        if !is_acpi_ec_port(port) {
            let mut message = owned("Refusing EC I/O on non-ACPI port 0x");
            push_hex2(&mut message, port as u32);
            return Err(message);
        }
        self.backend.read_port_u8(port)
    }

    fn write_io_port(&mut self, port: u16, value: u8) -> (r: Result<(), String>)
        ensures
            final(self).txn_spans() == old(self).txn_spans(),
            final(self).curves() == old(self).curves(),
            final(self).allows_writes() == old(self).allows_writes(),
            final(self).identity() == old(self).identity(),
            final(self).txns() == old(self).txns(),
            r is Ok ==> acpi_port(port) && final(self).port_log() == old(self).port_log().push(
                PortOp::Write { port, value },
            ),
            r is Err ==> final(self).port_log() == old(self).port_log() || (acpi_port(port)
                && final(self).port_log() == old(self).port_log().push(PortOp::Write { port, value })),
            final(self).timeouts() == old(self).timeouts(),
            !acpi_port(port) ==> r is Err && final(self).io().failures() == old(self).io().failures(),
            acpi_port(port) && r is Ok ==> final(self).io().failures() == old(self).io().failures(),
            acpi_port(port) && r is Err ==> final(self).io().failures() == old(self).io().failures() + 1,
            old(self).io().simulated() is None ==> final(self).io().simulated() is None,
            old(self).io().simulated() matches Some(m) ==> (acpi_port(port) ==> r is Ok
                && final(self).io().simulated() == Some(write_step(m, port, value))),
    {
        if !is_acpi_ec_port(port) {
            let mut message = owned("Refusing EC I/O on non-ACPI port 0x");
            push_hex2(&mut message, port as u32);
            return Err(message);
        }
        self.backend.write_port_u8(port, value)
    }

    fn wait_for_ec_status(&mut self, status: u8, is_set: bool) -> (r: Result<(), String>)
        ensures
            final(self).txn_spans() == old(self).txn_spans(),
            timeouts_logged(*old(self), *final(self)),
            final(self).curves() == old(self).curves(),
            final(self).allows_writes() == old(self).allows_writes(),
            final(self).identity() == old(self).identity(),
            final(self).txns() == old(self).txns(),
            extends(old(self).port_log(), final(self).port_log()),
            forall|k: int|
                old(self).port_log().len() <= k < final(self).port_log().len() ==> is_status_read(
                    #[trigger] final(self).port_log()[k],
                ),
            r is Ok ==> final(self).port_log().len() > old(self).port_log().len() && status_ready(
                status,
                is_set,
                final(self).port_log().last()->Read_value,
            ),
            wait_ended(*old(self), *final(self), status, is_set, r is Ok),
            old(self).io().simulated() is None ==> final(self).io().simulated() is None,
            old(self).io().simulated() matches Some(m) ==> {
                &&& final(self).io().simulated() == Some(m)
                &&& final(self).io().failures() == old(self).io().failures()
                &&& (r is Ok <==> status_ready(status, is_set, status_spec(m)))
                &&& r is Ok ==> final(self).port_log() == old(self).port_log().push(
                    PortOp::Read { port: EC_COMMAND_PORT, value: status_spec(m) },
                )
                &&& r matches Err(e) ==> e@ == wait_timeout_text(is_set)
            },
    {
        let mut attempt: u32 = 0;
        while attempt < RW_TIMEOUT
            invariant
                self.txn_spans() == old(self).txn_spans(),
                self.curves() == old(self).curves(),
                self.allows_writes() == old(self).allows_writes(),
                self.identity() == old(self).identity(),
                self.txns() == old(self).txns(),
                self.timeouts() == old(self).timeouts(),
                self.io().failures() == old(self).io().failures(),
                attempt <= RW_TIMEOUT,
                self.port_log().len() == old(self).port_log().len() + attempt,
                extends(old(self).port_log(), self.port_log()),
                forall|k: int|
                    old(self).port_log().len() <= k < self.port_log().len() ==> is_status_read(
                        #[trigger] self.port_log()[k],
                    ),
                forall|k: int|
                    old(self).port_log().len() <= k < self.port_log().len() ==> !status_ready(
                        status,
                        is_set,
                        (#[trigger] self.port_log()[k])->Read_value,
                    ),
                old(self).io().simulated() is None ==> self.io().simulated() is None,
                old(self).io().simulated() matches Some(m) ==> self.io().simulated() == Some(m) && (attempt > 0
                    ==> !status_ready(status, is_set, status_spec(m))) && (attempt == 0 ==> self.port_log()
                    == old(self).port_log()),
            decreases RW_TIMEOUT - attempt,
        {
            let mut value = self.read_io_port(EC_COMMAND_PORT)?;
            let ghost raw = value;
            if is_set {
                value = !value;
            }
            if (status & value) == 0 {
                assert(self.port_log().last() == PortOp::Read { port: EC_COMMAND_PORT, value: raw });
                return Ok(());
            }
            assert(self.port_log().last() == PortOp::Read { port: EC_COMMAND_PORT, value: raw });
            assert(!status_ready(status, is_set, raw));
            attempt = attempt + 1;
        }
        self.timeouts = Ghost(self.timeouts@ + 1);
        if is_set {
            Err(owned("EC timeout waiting for output buffer to fill"))
        } else {
            Err(owned("EC timeout waiting for input buffer to clear"))
        }
    }

    fn wait_write(&mut self) -> (r: Result<(), String>)
        ensures
            final(self).txn_spans() == old(self).txn_spans(),
            timeouts_logged(*old(self), *final(self)),
            final(self).curves() == old(self).curves(),
            final(self).allows_writes() == old(self).allows_writes(),
            final(self).identity() == old(self).identity(),
            final(self).txns() == old(self).txns(),
            extends(old(self).port_log(), final(self).port_log()),
            forall|k: int|
                old(self).port_log().len() <= k < final(self).port_log().len() ==> is_status_read(
                    #[trigger] final(self).port_log()[k],
                ),
            wait_ended(*old(self), *final(self), EC_STATUS_INPUT_BUFFER_FULL, false, r is Ok),
            old(self).io().simulated() is None ==> final(self).io().simulated() is None,
            old(self).io().simulated() matches Some(m) ==> {
                &&& final(self).io().simulated() == Some(m)
                &&& final(self).io().failures() == old(self).io().failures()
                &&& (r is Ok <==> status_ready(EC_STATUS_INPUT_BUFFER_FULL, false, status_spec(m)))
                &&& r is Ok ==> final(self).port_log() == old(self).port_log().push(
                    PortOp::Read { port: EC_COMMAND_PORT, value: status_spec(m) },
                )
                &&& r matches Err(e) ==> e@ == wait_timeout_text(false)
            },
    {
        self.wait_for_ec_status(EC_STATUS_INPUT_BUFFER_FULL, false)
    }

    fn wait_read(&mut self) -> (r: Result<(), String>)
        ensures
            final(self).txn_spans() == old(self).txn_spans(),
            timeouts_logged(*old(self), *final(self)),
            final(self).curves() == old(self).curves(),
            final(self).allows_writes() == old(self).allows_writes(),
            final(self).identity() == old(self).identity(),
            final(self).txns() == old(self).txns(),
            extends(old(self).port_log(), final(self).port_log()),
            forall|k: int|
                old(self).port_log().len() <= k < final(self).port_log().len() ==> is_status_read(
                    #[trigger] final(self).port_log()[k],
                ),
            wait_ended(*old(self), *final(self), EC_STATUS_OUTPUT_BUFFER_FULL, true, r is Ok),
            old(self).io().simulated() is None ==> final(self).io().simulated() is None,
            old(self).io().simulated() matches Some(m) ==> {
                &&& final(self).io().simulated() == Some(m)
                &&& final(self).io().failures() == old(self).io().failures()
                &&& (r is Ok <==> status_ready(EC_STATUS_OUTPUT_BUFFER_FULL, true, status_spec(m)))
                &&& r is Ok ==> final(self).port_log() == old(self).port_log().push(
                    PortOp::Read { port: EC_COMMAND_PORT, value: status_spec(m) },
                )
                &&& r matches Err(e) ==> e@ == wait_timeout_text(true)
            },
    {
        self.wait_for_ec_status(EC_STATUS_OUTPUT_BUFFER_FULL, true)
    }

    fn try_read_byte(&mut self, register: u8) -> (r: Result<u8, String>)
        ensures
            final(self).txn_spans() == old(self).txn_spans(),
            timeouts_logged(*old(self), *final(self)),
            final(self).curves() == old(self).curves(),
            final(self).allows_writes() == old(self).allows_writes(),
            final(self).identity() == old(self).identity(),
            final(self).txns() == old(self).txns(),
            extends(old(self).port_log(), final(self).port_log()),
            acpi_only(final(self).port_log(), old(self).port_log().len() as int),
            r matches Ok(v) ==> read_attempt_after(
                final(self).port_log(),
                old(self).port_log().len() as int,
                register,
                v,
            ),
            final(self).trouble() >= old(self).trouble(),
            r is Ok ==> final(self).trouble() == old(self).trouble(),
            r is Err ==> final(self).trouble() > old(self).trouble(),
            old(self).io().simulated() is None ==> final(self).io().simulated() is None,
            old(self).io().simulated() matches Some(m) ==> {
                &&& final(self).io().failures() == old(self).io().failures()
                &&& m.ibf_stuck ==> final(self).io().simulated() == Some(m) && (r matches Err(e) && e@
                    == wait_timeout_text(false))
                &&& !m.ibf_stuck ==> r == Ok::<u8, String>(m.registers[register as int])
                    && final(self).io().simulated() == Some(
                    txn_step(m, (EcTxn::ReadByte { register, value: m.registers[register as int] })),
                ) && final(self).port_log() == old(self).port_log() + txn_ports(
                    m,
                    (EcTxn::ReadByte { register, value: m.registers[register as int] }),
                )
            },
    {
        let ghost lo = self.port_log().len() as int;
        proof {
            if let Some(m) = self.io().simulated() {
                lemma_status_ready(m);
                lemma_status_ready(MockModel { pending: PendingCommand::Read, ..m });
                lemma_status_ready(MockModel { data: m.registers[register as int], obf: true, pending: PendingCommand::Idle, ..m });
            }
        }
        self.wait_write()?;
        self.write_io_port(EC_COMMAND_PORT, EC_COMMAND_READ)?;
        let ghost c = self.port_log().len() - 1;
        self.wait_write()?;
        self.write_io_port(EC_DATA_PORT, register)?;
        let ghost d = self.port_log().len() - 1;
        self.wait_write()?;
        self.wait_read()?;
        let v = self.read_io_port(EC_DATA_PORT)?;
        assert(read_attempt_at(self.port_log(), lo, c, d, register, v));
        Ok(v)
    }

    fn try_write_byte(&mut self, register: u8, value: u8) -> (r: Result<(), String>)
        ensures
            final(self).txn_spans() == old(self).txn_spans(),
            timeouts_logged(*old(self), *final(self)),
            final(self).curves() == old(self).curves(),
            final(self).allows_writes() == old(self).allows_writes(),
            final(self).identity() == old(self).identity(),
            final(self).txns() == old(self).txns(),
            extends(old(self).port_log(), final(self).port_log()),
            acpi_only(final(self).port_log(), old(self).port_log().len() as int),
            r is Ok ==> write_attempt_after(
                final(self).port_log(),
                old(self).port_log().len() as int,
                register,
                value,
            ),
            final(self).trouble() >= old(self).trouble(),
            r is Ok ==> final(self).trouble() == old(self).trouble(),
            r is Err ==> final(self).trouble() > old(self).trouble(),
            old(self).io().simulated() is None ==> final(self).io().simulated() is None,
            old(self).io().simulated() matches Some(m) ==> {
                &&& final(self).io().failures() == old(self).io().failures()
                &&& m.ibf_stuck ==> final(self).io().simulated() == Some(m) && (r matches Err(e) && e@
                    == wait_timeout_text(false))
                &&& !m.ibf_stuck ==> r is Ok && final(self).io().simulated() == Some(
                    txn_step(m, (EcTxn::WriteByte { register, value })),
                ) && final(self).port_log() == old(self).port_log() + txn_ports(
                    m,
                    (EcTxn::WriteByte { register, value }),
                )
            },
    {
        let ghost lo = self.port_log().len() as int;
        proof {
            if let Some(m) = self.io().simulated() {
                lemma_status_ready(m);
                lemma_status_ready(MockModel { pending: PendingCommand::WriteAddress, ..m });
                lemma_status_ready(MockModel { pending: PendingCommand::WriteData(register), ..m });
            }
        }
        self.wait_write()?;
        self.write_io_port(EC_COMMAND_PORT, EC_COMMAND_WRITE)?;
        let ghost c = self.port_log().len() - 1;
        self.wait_write()?;
        self.write_io_port(EC_DATA_PORT, register)?;
        let ghost d = self.port_log().len() - 1;
        self.wait_write()?;
        self.write_io_port(EC_DATA_PORT, value)?;
        assert(write_attempt_at(self.port_log(), lo, c, d, register, value));
        Ok(())
    }

    /// One register read as a locked transaction, retried up to five times.
    fn read_byte(&mut self, register: u8) -> (r: Result<u8, String>)
        ensures
            io_frame(*old(self), *final(self)),
            on_ports(*old(self), *final(self)),
            timeouts_logged(*old(self), *final(self)),
            final(self).curves() == old(self).curves(),
            final(self).allows_writes() == old(self).allows_writes(),
            final(self).identity() == old(self).identity(),
            extends(old(self).port_log(), final(self).port_log()),
            acpi_only(final(self).port_log(), old(self).port_log().len() as int),
            r matches Ok(v) ==> final(self).txns() == old(self).txns().push(
                EcTxn::ReadByte { register, value: v },
            ) && read_attempt_after(
                final(self).port_log(),
                old(self).port_log().len() as int,
                register,
                v,
            ),
            r is Err ==> final(self).txns() == old(self).txns(),
            final(self).trouble() >= old(self).trouble(),
            r is Err ==> final(self).trouble() > old(self).trouble(),
            !final(self).io().in_transaction(),
            old(self).io().simulated() is None ==> final(self).io().simulated() is None,
            old(self).io().simulated() matches Some(m) ==> {
                &&& final(self).io().failures() == old(self).io().failures()
                &&& m.ibf_stuck ==> final(self).io().simulated() == Some(m) && (r matches Err(e) && e@
                    == wait_timeout_text(false))
                &&& !m.ibf_stuck ==> r == Ok::<u8, String>(m.registers[register as int])
                    && final(self).io().simulated() == Some(
                    txn_step(m, (EcTxn::ReadByte { register, value: m.registers[register as int] })),
                ) && final(self).port_log() == old(self).port_log() + txn_ports(
                    m,
                    (EcTxn::ReadByte { register, value: m.registers[register as int] }),
                )
            },
    {
        let ghost lo = self.port_log().len() as int;
        self.backend.begin_transaction()?;
        let mut last_error = owned("Failed to read byte after retries");
        let mut attempt: u32 = 0;
        while attempt < MAX_RETRIES
            invariant
                self.curves() == old(self).curves(),
                self.allows_writes() == old(self).allows_writes(),
                self.identity() == old(self).identity(),
                self.txns() == old(self).txns(),
                lo == old(self).port_log().len(),
                extends(old(self).port_log(), self.port_log()),
                acpi_only(self.port_log(), lo),
                self.trouble() >= old(self).trouble(),
                attempt > 0 ==> self.trouble() > old(self).trouble(),
                timeouts_logged(*old(self), *self),
                self.txn_spans() == old(self).txn_spans(),
                old(self).io().simulated() is None ==> self.io().simulated() is None,
                old(self).io().simulated() matches Some(m) ==> self.io().simulated() == Some(m)
                    && self.io().failures() == old(self).io().failures() && (attempt > 0 ==> m.ibf_stuck
                    && last_error@ == wait_timeout_text(false)) && (!m.ibf_stuck ==> self.timeouts()
                    == old(self).timeouts() && self.port_log() == old(self).port_log()),
            decreases MAX_RETRIES - attempt,
        {
            let ghost before = self.port_log().len() as int;
            match self.try_read_byte(register) {
                Ok(value) => {
                    self.backend.end_transaction();
                    let ghost (c, d) = choose|c: int, d: int|
                        #[trigger] read_attempt_at(self.port_log(), before, c, d, register, value);
                    let ghost i = self.txns@.len() as int;
                    self.txns = Ghost(self.txns@.push(EcTxn::ReadByte { register, value }));
                    self.spans = Ghost(self.spans@.insert(i, (c, d, self.port_log().len() - 1)));
                    proof {
                        assert(read_attempt_at(self.port_log(), lo, c, d, register, value));
                        if let Some(m) = old(self).io().simulated() {
                            lemma_model_after_push(m, Seq::<EcTxn>::empty(), EcTxn::ReadByte { register, value });
                            lemma_ports_after_push(m, Seq::<EcTxn>::empty(), EcTxn::ReadByte { register, value });
                            assert(Seq::<PortOp>::empty() + txn_ports(m, EcTxn::ReadByte { register, value }) =~= txn_ports(m, EcTxn::ReadByte { register, value }));
                            assert(Self::new_txns(old(self), self) =~= Seq::<EcTxn>::empty().push(EcTxn::ReadByte { register, value }));
                        }
                        assert(txn_on_ports(self.port_log(), lo, self.txn_spans()[i], self.txns()[i]));
                    }
                    return Ok(value);
                },
                Err(error) => {
                    last_error = error;
                },
            }
            attempt = attempt + 1;
        }
        self.backend.end_transaction();
        assert(Self::new_txns(old(self), self) =~= Seq::<EcTxn>::empty());
        Err(last_error)
    }

    /// One register write as a locked transaction, retried up to five times.
    fn write_byte(&mut self, register: u8, value: u8) -> (r: Result<(), String>)
        ensures
            io_frame(*old(self), *final(self)),
            on_ports(*old(self), *final(self)),
            timeouts_logged(*old(self), *final(self)),
            final(self).curves() == old(self).curves(),
            final(self).allows_writes() == old(self).allows_writes(),
            final(self).identity() == old(self).identity(),
            extends(old(self).port_log(), final(self).port_log()),
            acpi_only(final(self).port_log(), old(self).port_log().len() as int),
            r is Ok ==> final(self).txns() == old(self).txns().push(
                EcTxn::WriteByte { register, value },
            ) && write_attempt_after(
                final(self).port_log(),
                old(self).port_log().len() as int,
                register,
                value,
            ),
            r is Err ==> final(self).txns() == old(self).txns(),
            final(self).trouble() >= old(self).trouble(),
            r is Err ==> final(self).trouble() > old(self).trouble(),
            !final(self).io().in_transaction(),
            old(self).io().simulated() is None ==> final(self).io().simulated() is None,
            old(self).io().simulated() matches Some(m) ==> {
                &&& final(self).io().failures() == old(self).io().failures()
                &&& m.ibf_stuck ==> final(self).io().simulated() == Some(m) && (r matches Err(e) && e@
                    == wait_timeout_text(false))
                &&& !m.ibf_stuck ==> r is Ok && final(self).io().simulated() == Some(
                    txn_step(m, (EcTxn::WriteByte { register, value })),
                ) && final(self).port_log() == old(self).port_log() + txn_ports(
                    m,
                    (EcTxn::WriteByte { register, value }),
                )
            },
    {
        let ghost lo = self.port_log().len() as int;
        self.backend.begin_transaction()?;
        let mut last_error = owned("Failed to write byte after retries");
        let mut attempt: u32 = 0;
        while attempt < MAX_RETRIES
            invariant
                self.curves() == old(self).curves(),
                self.allows_writes() == old(self).allows_writes(),
                self.identity() == old(self).identity(),
                self.txns() == old(self).txns(),
                lo == old(self).port_log().len(),
                extends(old(self).port_log(), self.port_log()),
                acpi_only(self.port_log(), lo),
                self.trouble() >= old(self).trouble(),
                attempt > 0 ==> self.trouble() > old(self).trouble(),
                timeouts_logged(*old(self), *self),
                self.txn_spans() == old(self).txn_spans(),
                old(self).io().simulated() is None ==> self.io().simulated() is None,
                old(self).io().simulated() matches Some(m) ==> self.io().simulated() == Some(m)
                    && self.io().failures() == old(self).io().failures() && (attempt > 0 ==> m.ibf_stuck
                    && last_error@ == wait_timeout_text(false)) && (!m.ibf_stuck ==> self.timeouts()
                    == old(self).timeouts() && self.port_log() == old(self).port_log()),
            decreases MAX_RETRIES - attempt,
        {
            let ghost before = self.port_log().len() as int;
            match self.try_write_byte(register, value) {
                Ok(()) => {
                    self.backend.end_transaction();
                    let ghost (c, d) = choose|c: int, d: int|
                        #[trigger] write_attempt_at(self.port_log(), before, c, d, register, value);
                    let ghost i = self.txns@.len() as int;
                    self.txns = Ghost(self.txns@.push(EcTxn::WriteByte { register, value }));
                    self.spans = Ghost(self.spans@.insert(i, (c, d, self.port_log().len() - 1)));
                    proof {
                        assert(write_attempt_at(self.port_log(), lo, c, d, register, value));
                        if let Some(m) = old(self).io().simulated() {
                            lemma_model_after_push(m, Seq::<EcTxn>::empty(), EcTxn::WriteByte { register, value });
                            lemma_ports_after_push(m, Seq::<EcTxn>::empty(), EcTxn::WriteByte { register, value });
                            assert(Seq::<PortOp>::empty() + txn_ports(m, EcTxn::WriteByte { register, value }) =~= txn_ports(m, EcTxn::WriteByte { register, value }));
                            assert(Self::new_txns(old(self), self) =~= Seq::<EcTxn>::empty().push(EcTxn::WriteByte { register, value }));
                        }
                        assert(txn_on_ports(self.port_log(), lo, self.txn_spans()[i], self.txns()[i]));
                    }
                    return Ok(());
                },
                Err(error) => {
                    last_error = error;
                },
            }
            attempt = attempt + 1;
        }
        self.backend.end_transaction();
        assert(Self::new_txns(old(self), self) =~= Seq::<EcTxn>::empty());
        Err(last_error)
    }
}

impl<B: EcIoBackend> EcController<B> {
    /// What one EC command does, given the controller before (`pre`) and after
    /// (`post`) and the command's answer `r`. `t` is the list of register
    /// transactions the command completed; values read from the EC appear in it.
    pub open spec fn op_effect(pre: Self, post: Self, op: EcOperation, r: Result<EcResult, String>) -> bool {
        let t = Self::new_txns(&pre, &post);
        let quiet = t.len() == 0 && post.port_log() == pre.port_log();
        let same_curves = post.curves() == pre.curves();
        let v0 = txn_value(t[0]);
        let v1 = txn_value(t[1]);
        let troubled = post.trouble() > pre.trouble();
        match op {
            EcOperation::GetFirmwareVersion => {
                &&& same_curves
                &&& t.len() <= 2
                &&& t.len() >= 1 ==> is_read_of(t[0], EC_REG_FIRMWARE_MAJOR)
                &&& t.len() == 2 ==> is_read_of(t[1], EC_REG_FIRMWARE_MINOR)
                &&& (r is Ok <==> (t.len() == 2 && firmware_bytes_valid(v0, v1)))
                &&& r matches Ok(x) ==> x == (EcResult::FirmwareVersion { major: v0, minor: v1 })
                &&& r matches Err(e) ==> t.len() == 2 ==> e@ == "Invalid firmware version detected"@
                &&& t.len() < 2 ==> troubled
            },
            EcOperation::GetApuPowerMode => {
                &&& same_curves
                &&& t.len() <= 1
                &&& t.len() == 1 ==> is_read_of(t[0], EC_REG_APU_POWER_MODE)
                &&& (r is Ok <==> (t.len() == 1 && power_mode_from_value(v0) is Some))
                &&& r matches Ok(x) ==> (x matches EcResult::ApuPowerMode(s) && s@ == power_mode_name(
                    power_mode_from_value(v0)->0,
                ))
                &&& r matches Err(e) ==> t.len() == 1 ==> e@ == "Unknown power mode: 0x"@ + hex2(v0 as nat)
                &&& t.len() < 1 ==> troubled
            },
            EcOperation::SetApuPowerMode(mode) => {
                &&& same_curves
                &&& if !pre.allows_writes() {
                    quiet && (r matches Err(e) && e@ == unsupported_msg(pre.identity()))
                } else if power_mode_from_name(mode@) is None {
                    quiet && (r matches Err(e) && e@ == "Invalid power mode: "@ + mode@)
                } else {
                    let pm = power_mode_from_name(mode@)->0;
                    &&& t.len() <= 1
                    &&& t.len() == 1 ==> t[0] == (EcTxn::WriteByte {
                        register: EC_REG_APU_POWER_MODE,
                        value: power_mode_value(pm),
                    })
                    &&& (r is Ok <==> t.len() == 1)
                    &&& r matches Ok(x) ==> (x matches EcResult::ApuPowerMode(s) && s@ == power_mode_name(pm))
                    &&& t.len() < 1 ==> troubled
                }
            },
            EcOperation::GetApuTemperature => {
                &&& same_curves
                &&& t.len() <= 1
                &&& t.len() == 1 ==> is_read_of(t[0], EC_REG_APU_TEMPERATURE)
                &&& (r is Ok <==> t.len() == 1)
                &&& r matches Ok(x) ==> x == EcResult::ApuTemperature(v0)
                &&& t.len() < 1 ==> troubled
            },
            EcOperation::GetFanRpm(fan_id) => {
                &&& same_curves
                &&& if fan_speed_regs(fan_id) is None {
                    quiet && (r matches Err(e) && e@ == invalid_fan_msg(fan_id))
                } else {
                    let regs = fan_speed_regs(fan_id)->0;
                    &&& t.len() <= 2
                    &&& t.len() >= 1 ==> is_read_of(t[0], regs.0)
                    &&& t.len() == 2 ==> is_read_of(t[1], regs.1)
                    &&& (r is Ok <==> t.len() == 2)
                    &&& r matches Ok(x) ==> x == EcResult::FanRpm(rpm_spec(fan_id, v0, v1))
                    &&& t.len() < 2 ==> troubled
                }
            },
            EcOperation::GetFanMode(fan_id) => {
                &&& same_curves
                &&& if fan_mode_reg(fan_id) is None {
                    quiet && (r matches Err(e) && e@ == invalid_fan_msg(fan_id))
                } else {
                    let text = fan_mode_text(v0, pre.curves()[fan_id - 1].mode);
                    &&& t.len() <= 1
                    &&& t.len() == 1 ==> is_read_of(t[0], fan_mode_reg(fan_id)->0)
                    &&& (r is Ok <==> (t.len() == 1 && text is Some))
                    &&& r matches Ok(x) ==> (x matches EcResult::FanMode(s) && s@ == text->0)
                    &&& r matches Err(e) ==> t.len() == 1 ==> e@ == "Unknown fan mode: 0x"@ + hex2(v0 as nat)
                    &&& t.len() < 1 ==> troubled
                }
            },
            EcOperation::SetFanMode(fan_id, mode) => {
                if !pre.allows_writes() {
                    same_curves && quiet && (r matches Err(e) && e@ == unsupported_msg(pre.identity()))
                } else if fan_mode_reg(fan_id) is None {
                    same_curves && quiet && (r matches Err(e) && e@ == invalid_fan_msg(fan_id))
                } else if fan_mode_from_name(mode@) is None {
                    same_curves && quiet && (r matches Err(e) && e@ == "Invalid fan mode: "@ + mode@)
                } else {
                    let fm = fan_mode_from_name(mode@)->0;
                    let idx = fan_id - 1;
                    let reg = fan_mode_reg(fan_id)->0;
                    &&& post.curves() == pre.curves().update(idx, FanCurveData { mode: fm, ..pre.curves()[idx] })
                    &&& t.len() >= 1 ==> t[0] == (EcTxn::WriteByte { register: reg, value: mode_byte(fan_id, fm) })
                    &&& r matches Ok(x) ==> (x matches EcResult::FanMode(s) && s@ == mode@)
                    &&& if fm == FanMode::Curve {
                        &&& t.len() <= 3
                        &&& t.len() >= 2 ==> is_read_of(t[1], EC_REG_APU_TEMPERATURE)
                        &&& t.len() == 3 ==> t[2] == (EcTxn::WriteByte {
                            register: (reg + 1) as u8,
                            value: level_byte(fan_id, initial_level_spec(v1, pre.curves()[idx].rampup_curve@)),
                        })
                        &&& (r is Ok <==> (t.len() == 1 || t.len() == 3))
                        &&& t.len() < 3 ==> troubled
                    } else {
                        &&& t.len() <= 1
                        &&& (r is Ok <==> t.len() == 1)
                        &&& t.len() < 1 ==> troubled
                    }
                }
            },
            EcOperation::GetFanLevel(fan_id) => {
                &&& same_curves
                &&& if fan_mode_reg(fan_id) is None {
                    quiet && (r matches Err(e) && e@ == invalid_fan_msg(fan_id))
                } else {
                    &&& t.len() <= 1
                    &&& t.len() == 1 ==> is_read_of(t[0], (fan_mode_reg(fan_id)->0 + 1) as u8)
                    &&& (r is Ok <==> t.len() == 1)
                    &&& r matches Ok(x) ==> x == EcResult::FanLevel(decode_level_spec(v0))
                    &&& t.len() < 1 ==> troubled
                }
            },
            EcOperation::SetFanLevel(fan_id, level) => {
                &&& same_curves
                &&& if !pre.allows_writes() {
                    quiet && (r matches Err(e) && e@ == unsupported_msg(pre.identity()))
                } else if level > 5 {
                    quiet && (r matches Err(e) && e@ == "Fan level must be 0-5"@)
                } else if fan_mode_reg(fan_id) is None {
                    quiet && (r matches Err(e) && e@ == invalid_fan_msg(fan_id))
                } else {
                    &&& t.len() <= 1
                    &&& t.len() == 1 ==> t[0] == (EcTxn::WriteByte {
                        register: (fan_mode_reg(fan_id)->0 + 1) as u8,
                        value: level_byte(fan_id, level),
                    })
                    &&& (r is Ok <==> t.len() == 1)
                    &&& r matches Ok(x) ==> x == EcResult::FanLevel(level)
                    &&& t.len() < 1 ==> troubled
                }
            },
            EcOperation::GetFanRampupCurve(fan_id) => {
                &&& same_curves
                &&& quiet
                &&& if !valid_fan(fan_id) {
                    r matches Err(e) && e@ == invalid_fan_msg(fan_id)
                } else {
                    r == Ok::<EcResult, String>(EcResult::FanRampupCurve(pre.curves()[fan_id - 1].rampup_curve))
                }
            },
            EcOperation::SetFanRampupCurve(fan_id, curve) => {
                &&& quiet
                &&& if !valid_fan(fan_id) {
                    same_curves && (r matches Err(e) && e@ == invalid_fan_msg(fan_id))
                } else if !curve_in_range(curve@) {
                    same_curves && (r matches Err(e) && e@ == "Temperature values must be 0-100°C"@)
                } else {
                    &&& post.curves() == pre.curves().update(
                        fan_id - 1,
                        FanCurveData { rampup_curve: curve, ..pre.curves()[fan_id - 1] },
                    )
                    &&& r == Ok::<EcResult, String>(EcResult::FanRampupCurve(curve))
                }
            },
            EcOperation::GetFanRampdownCurve(fan_id) => {
                &&& same_curves
                &&& quiet
                &&& if !valid_fan(fan_id) {
                    r matches Err(e) && e@ == invalid_fan_msg(fan_id)
                } else {
                    r == Ok::<EcResult, String>(EcResult::FanRampdownCurve(pre.curves()[fan_id - 1].rampdown_curve))
                }
            },
            EcOperation::SetFanRampdownCurve(fan_id, curve) => {
                &&& quiet
                &&& if !valid_fan(fan_id) {
                    same_curves && (r matches Err(e) && e@ == invalid_fan_msg(fan_id))
                } else if !curve_in_range(curve@) {
                    same_curves && (r matches Err(e) && e@ == "Temperature values must be 0-100°C"@)
                } else {
                    &&& post.curves() == pre.curves().update(
                        fan_id - 1,
                        FanCurveData { rampdown_curve: curve, ..pre.curves()[fan_id - 1] },
                    )
                    &&& r == Ok::<EcResult, String>(EcResult::FanRampdownCurve(curve))
                }
            },
        }
    }

    /// Reads the firmware version bytes; `0.00` and `255.255` are rejected.
    fn read_firmware_version(&mut self) -> (r: Result<(u8, u8), String>)
        ensures
            io_frame(*old(self), *final(self)),
            on_ports(*old(self), *final(self)),
            timeouts_logged(*old(self), *final(self)),
            final(self).curves() == old(self).curves(),
            final(self).allows_writes() == old(self).allows_writes(),
            final(self).identity() == old(self).identity(),
            extends(old(self).txns(), final(self).txns()),
            extends(old(self).port_log(), final(self).port_log()),
            acpi_only(final(self).port_log(), old(self).port_log().len() as int),
            ({
                let t = Self::new_txns(old(self), final(self));
                &&& t.len() <= 2
                &&& t.len() >= 1 ==> is_read_of(t[0], EC_REG_FIRMWARE_MAJOR)
                &&& t.len() == 2 ==> is_read_of(t[1], EC_REG_FIRMWARE_MINOR)
                &&& (r is Ok <==> (t.len() == 2 && firmware_bytes_valid(txn_value(t[0]), txn_value(t[1]))))
                &&& r matches Ok(p) ==> p == (txn_value(t[0]), txn_value(t[1]))
                &&& r matches Err(e) ==> t.len() == 2 ==> e@ == "Invalid firmware version detected"@
                &&& t.len() < 2 ==> final(self).trouble() > old(self).trouble()
            }),
            final(self).trouble() >= old(self).trouble(),
            stuck_answer(*old(self), *final(self), r),
            old(self).io().simulated() matches Some(m) ==> (m.ibf_stuck ==> (r matches Err(e) && e@
                == wait_timeout_text(false))),
            old(self).io().simulated() matches Some(m) ==> (!m.ibf_stuck ==> if firmware_bytes_valid(
                m.registers[EC_REG_FIRMWARE_MAJOR as int],
                m.registers[EC_REG_FIRMWARE_MINOR as int],
            ) {
                r == Ok::<(u8, u8), String>(
                    (m.registers[EC_REG_FIRMWARE_MAJOR as int], m.registers[EC_REG_FIRMWARE_MINOR as int]),
                )
            } else {
                r matches Err(e) && e@ == "Invalid firmware version detected"@
            }),
    {
        let ghost pre = *self;
        let major = self.read_byte(EC_REG_FIRMWARE_MAJOR);
        let major = match major {
            Ok(v) => v,
            Err(e) => {
                assert(Self::new_txns(&pre, self) =~= Seq::<EcTxn>::empty());
                return Err(e);
            },
        };
        let ghost mid = *self;
        let minor = self.read_byte(EC_REG_FIRMWARE_MINOR);
        proof {
            lemma_io_frame_trans(pre, mid, *self);
        }
        let minor = match minor {
            Ok(v) => v,
            Err(e) => {
                assert(Self::new_txns(&pre, self) =~= seq![EcTxn::ReadByte { register: EC_REG_FIRMWARE_MAJOR, value: major }]);
                return Err(e);
            },
        };
        assert(Self::new_txns(&pre, self) =~= seq![
            EcTxn::ReadByte { register: EC_REG_FIRMWARE_MAJOR, value: major },
            EcTxn::ReadByte { register: EC_REG_FIRMWARE_MINOR, value: minor },
        ]);
        if (major == 0 && minor == 0) || (major == 0xFF && minor == 0xFF) {
            return Err(owned("Invalid firmware version detected"));
        }
        Ok((major, minor))
    }
}

/// Transaction `t` went over the ports at `span = (c, d, e)`, at or after
/// position `lo`: the command byte (`0x80` read, `0x81` write) at `c`, the
/// register number at `d`, and the data byte (read back, or written) at `e`,
/// with only status polls in between.
pub open spec fn txn_on_ports(log: Seq<PortOp>, lo: int, span: (int, int, int), t: EcTxn) -> bool {
    let (c, d, e) = span;
    &&& 0 <= lo <= c < d < e < log.len()
    &&& forall|k: int| c < k < e && k != d ==> is_status_read(#[trigger] log[k])
    &&& match t {
        EcTxn::ReadByte { register, value } => {
            &&& log[c] == PortOp::Write { port: EC_COMMAND_PORT, value: EC_COMMAND_READ }
            &&& log[d] == PortOp::Write { port: EC_DATA_PORT, value: register }
            &&& log[e] == PortOp::Read { port: EC_DATA_PORT, value }
        },
        EcTxn::WriteByte { register, value } => {
            &&& log[c] == PortOp::Write { port: EC_COMMAND_PORT, value: EC_COMMAND_WRITE }
            &&& log[d] == PortOp::Write { port: EC_DATA_PORT, value: register }
            &&& log[e] == PortOp::Write { port: EC_DATA_PORT, value }
        },
    }
}

/// Every transaction completed between `pre` and `post` went over the ports,
/// after everything in `pre`'s port log; earlier transactions keep their place.
pub open spec fn on_ports<B: EcIoBackend>(pre: EcController<B>, post: EcController<B>) -> bool {
    &&& forall|i: int| 0 <= i < pre.txns().len() ==> #[trigger] post.txn_spans()[i] == pre.txn_spans()[i]
    &&& forall|i: int|
        pre.txns().len() <= i < post.txns().len() ==> #[trigger] txn_on_ports(
            post.port_log(),
            pre.port_log().len() as int,
            post.txn_spans()[i],
            post.txns()[i],
        )
}

/// A transaction's place in the port log survives more traffic.
pub proof fn lemma_txn_on_ports_extend(log1: Seq<PortOp>, log2: Seq<PortOp>, lo: int, span: (int, int, int), t: EcTxn)
    requires
        txn_on_ports(log1, lo, span, t),
        extends(log1, log2),
    ensures
        txn_on_ports(log2, lo, span, t),
{
    let (c, d, e) = span;
    assert(log2[c] == log1[c] && log2[d] == log1[d] && log2[e] == log1[e]);
    assert forall|k: int| c < k < e && k != d implies is_status_read(#[trigger] log2[k]) by {
        assert(log2[k] == log1[k]);
    }
}

/// Two steps in a row keep the transactions of both on the ports.
pub proof fn lemma_on_ports_trans<B: EcIoBackend>(a: EcController<B>, b: EcController<B>, c: EcController<B>)
    requires
        on_ports(a, b),
        on_ports(b, c),
        extends(a.txns(), b.txns()),
        extends(b.txns(), c.txns()),
        extends(a.port_log(), b.port_log()),
        extends(b.port_log(), c.port_log()),
    ensures
        on_ports(a, c),
{
    assert forall|i: int| 0 <= i < a.txns().len() implies #[trigger] c.txn_spans()[i] == a.txn_spans()[i] by {
        assert(b.txn_spans()[i] == a.txn_spans()[i]);
        assert(c.txn_spans()[i] == b.txn_spans()[i]);
    }
    assert forall|i: int| a.txns().len() <= i < c.txns().len() implies #[trigger] txn_on_ports(
        c.port_log(),
        a.port_log().len() as int,
        c.txn_spans()[i],
        c.txns()[i],
    ) by {
        if i < b.txns().len() {
            assert(txn_on_ports(b.port_log(), a.port_log().len() as int, b.txn_spans()[i], b.txns()[i]));
            assert(c.txn_spans()[i] == b.txn_spans()[i]);
            assert(c.txns()[i] == b.txns()[i]);
            lemma_txn_on_ports_extend(b.port_log(), c.port_log(), a.port_log().len() as int, b.txn_spans()[i], b.txns()[i]);
        } else {
            assert(txn_on_ports(c.port_log(), b.port_log().len() as int, c.txn_spans()[i], c.txns()[i]));
        }
    }
}

/// How a wait for the EC status ended. Ready (`ok`): nothing went wrong and
/// the last status read shows the awaited condition. Otherwise either one
/// status read failed, or the wait timed out after `RW_TIMEOUT` status reads
/// none of which showed the condition.
pub open spec fn wait_ended<B: EcIoBackend>(
    pre: EcController<B>,
    post: EcController<B>,
    status: u8,
    is_set: bool,
    ok: bool,
) -> bool {
    let lo = pre.port_log().len() as int;
    if ok {
        &&& post.io().failures() == pre.io().failures()
        &&& post.timeouts() == pre.timeouts()
        &&& post.port_log().len() > lo
        &&& status_ready(status, is_set, post.port_log().last()->Read_value)
    } else {
        ||| post.io().failures() == pre.io().failures() + 1 && post.timeouts() == pre.timeouts()
        ||| {
            &&& post.timeouts() == pre.timeouts() + 1
            &&& post.io().failures() == pre.io().failures()
            &&& post.port_log().len() == lo + RW_TIMEOUT
            &&& forall|k: int|
                lo <= k < post.port_log().len() ==> !status_ready(
                    status,
                    is_set,
                    (#[trigger] post.port_log()[k])->Read_value,
                )
        }
    }
}

/// Frame kept by every EC command: permissions and identity stay, the
/// transaction and port logs only grow, on ACPI EC ports only, and what went
/// wrong is never forgotten.
pub open spec fn io_frame<B: EcIoBackend>(pre: EcController<B>, post: EcController<B>) -> bool {
    &&& post.allows_writes() == pre.allows_writes()
    &&& post.identity() == pre.identity()
    &&& extends(pre.txns(), post.txns())
    &&& extends(pre.port_log(), post.port_log())
    &&& acpi_only(post.port_log(), pre.port_log().len() as int)
    &&& post.trouble() >= pre.trouble()
    &&& timeouts_logged(pre, post)
    &&& on_ports(pre, post)
    &&& sim_frame(pre, post)
}

/// Every wait that timed out left its `RW_TIMEOUT` status polls in the port
/// log: the count of timeouts never grows faster than the log.
pub open spec fn timeouts_logged<B: EcIoBackend>(pre: EcController<B>, post: EcController<B>) -> bool {
    &&& post.timeouts() >= pre.timeouts()
    &&& post.port_log().len() - pre.port_log().len() >= RW_TIMEOUT * (post.timeouts() - pre.timeouts())
}

/// Two commands in a row keep the frame of one.
pub proof fn lemma_io_frame_trans<B: EcIoBackend>(a: EcController<B>, b: EcController<B>, c: EcController<B>)
    requires
        io_frame(a, b),
        io_frame(b, c),
    ensures
        io_frame(a, c),
{
    assert forall|k: int| a.port_log().len() <= k < c.port_log().len() implies acpi_port(op_port(#[trigger] c.port_log()[k])) by {
        if k < b.port_log().len() {
            assert(c.port_log()[k] == b.port_log()[k]);
        }
    }
    lemma_on_ports_trans(a, b, c);
    if let Some(m) = a.io().simulated() {
        let t1 = EcController::<B>::new_txns(&a, &b);
        let t2 = EcController::<B>::new_txns(&b, &c);
        assert(EcController::<B>::new_txns(&a, &c) =~= t1 + t2);
        lemma_model_after_concat(m, t1, t2);
        lemma_ports_after_concat(m, t1, t2);
        if !m.ibf_stuck {
            assert(c.port_log() =~= a.port_log() + ports_after(m, t1 + t2));
        }
        if m.ibf_stuck {
            assert(t1 =~= Seq::<EcTxn>::empty());
            assert(t1 + t2 =~= t2);
        }
    }
}

/// What one completed transaction leaves in the simulated EC: a read puts the
/// register in the (then emptied) data buffer, a write stores the value.
pub open spec fn txn_step(m: MockModel, t: EcTxn) -> MockModel {
    match t {
        EcTxn::ReadByte { register, .. } => MockModel {
            data: m.registers[register as int],
            obf: false,
            pending: PendingCommand::Idle,
            ..m
        },
        EcTxn::WriteByte { register, value } => MockModel {
            registers: m.registers.update(register as int, value),
            pending: PendingCommand::Idle,
            ..m
        },
    }
}

/// The simulated EC after the transactions `t`, in order.
pub open spec fn model_after(m: MockModel, t: Seq<EcTxn>) -> MockModel
    decreases t.len(),
{
    if t.len() == 0 {
        m
    } else {
        txn_step(model_after(m, t.drop_last()), t.last())
    }
}

/// A read transaction got the register's value at the time it ran.
pub open spec fn read_agrees(m: MockModel, t: EcTxn) -> bool {
    t matches EcTxn::ReadByte { register, value } ==> value == m.registers[register as int]
}

/// Every read among the transactions `t` got what the registers held then.
pub open spec fn reads_agree(m: MockModel, t: Seq<EcTxn>) -> bool
    decreases t.len(),
{
    t.len() == 0 || (reads_agree(m, t.drop_last()) && read_agrees(model_after(m, t.drop_last()), t.last()))
}

/// One more transaction at the end.
pub proof fn lemma_model_after_push(m: MockModel, t: Seq<EcTxn>, x: EcTxn)
    ensures
        model_after(m, t.push(x)) == txn_step(model_after(m, t), x),
        reads_agree(m, t.push(x)) == (reads_agree(m, t) && read_agrees(model_after(m, t), x)),
        model_after(m, Seq::<EcTxn>::empty()) == m,
        reads_agree(m, Seq::<EcTxn>::empty()),
{
    assert(t.push(x).drop_last() =~= t);
}

/// Transactions in two runs replay as one run.
pub proof fn lemma_model_after_concat(m: MockModel, t1: Seq<EcTxn>, t2: Seq<EcTxn>)
    ensures
        model_after(m, t1 + t2) == model_after(model_after(m, t1), t2),
        reads_agree(m, t1 + t2) == (reads_agree(m, t1) && reads_agree(model_after(m, t1), t2)),
        model_after(m, t1).ibf_stuck == m.ibf_stuck,
    decreases t2.len(), t1.len(),
{
    if t2.len() == 0 {
        assert(t1 + t2 =~= t1);
        if t1.len() > 0 {
            lemma_model_after_concat(m, t1.drop_last(), t2);
        }
    } else {
        lemma_model_after_concat(m, t1, t2.drop_last());
        assert((t1 + t2).drop_last() =~= t1 + t2.drop_last());
        assert((t1 + t2).last() == t2.last());
    }
}

/// The port traffic of one transaction on a working simulated EC in state
/// `m`: each wait takes one status poll, and a read waits once more for the
/// output buffer before it takes the data byte.
pub open spec fn txn_ports(m: MockModel, t: EcTxn) -> Seq<PortOp> {
    let s = status_spec(m);
    match t {
        EcTxn::WriteByte { register, value } => seq![
            PortOp::Read { port: EC_COMMAND_PORT, value: s },
            PortOp::Write { port: EC_COMMAND_PORT, value: EC_COMMAND_WRITE },
            PortOp::Read { port: EC_COMMAND_PORT, value: s },
            PortOp::Write { port: EC_DATA_PORT, value: register },
            PortOp::Read { port: EC_COMMAND_PORT, value: s },
            PortOp::Write { port: EC_DATA_PORT, value },
        ],
        EcTxn::ReadByte { register, value } => {
            let full = status_spec(MockModel { obf: true, ..m });
            seq![
                PortOp::Read { port: EC_COMMAND_PORT, value: s },
                PortOp::Write { port: EC_COMMAND_PORT, value: EC_COMMAND_READ },
                PortOp::Read { port: EC_COMMAND_PORT, value: s },
                PortOp::Write { port: EC_DATA_PORT, value: register },
                PortOp::Read { port: EC_COMMAND_PORT, value: full },
                PortOp::Read { port: EC_COMMAND_PORT, value: full },
                PortOp::Read { port: EC_DATA_PORT, value },
            ]
        },
    }
}

/// The port traffic of the transactions `t`, in order, on a working
/// simulated EC that starts in state `m`.
pub open spec fn ports_after(m: MockModel, t: Seq<EcTxn>) -> Seq<PortOp>
    decreases t.len(),
{
    if t.len() == 0 {
        Seq::empty()
    } else {
        ports_after(m, t.drop_last()) + txn_ports(model_after(m, t.drop_last()), t.last())
    }
}

/// One more transaction at the end adds its traffic at the end.
pub proof fn lemma_ports_after_push(m: MockModel, t: Seq<EcTxn>, x: EcTxn)
    ensures
        ports_after(m, t.push(x)) == ports_after(m, t) + txn_ports(model_after(m, t), x),
        ports_after(m, Seq::<EcTxn>::empty()) == Seq::<PortOp>::empty(),
{
    assert(t.push(x).drop_last() =~= t);
}

/// The traffic of two runs is the traffic of one.
pub proof fn lemma_ports_after_concat(m: MockModel, t1: Seq<EcTxn>, t2: Seq<EcTxn>)
    ensures
        ports_after(m, t1 + t2) == ports_after(m, t1) + ports_after(model_after(m, t1), t2),
    decreases t2.len(),
{
    if t2.len() == 0 {
        assert(t1 + t2 =~= t1);
        assert(ports_after(m, t1) + ports_after(model_after(m, t1), t2) =~= ports_after(m, t1));
    } else {
        lemma_ports_after_concat(m, t1, t2.drop_last());
        lemma_model_after_concat(m, t1, t2.drop_last());
        assert((t1 + t2).drop_last() =~= t1 + t2.drop_last());
        assert((t1 + t2).last() == t2.last());
        let a = ports_after(m, t1);
        let b = ports_after(model_after(m, t1), t2.drop_last());
        let c = txn_ports(model_after(model_after(m, t1), t2.drop_last()), t2.last());
        assert(a + b + c =~= a + (b + c));
    }
}

/// The text of a wait that timed out.
pub open spec fn wait_timeout_text(is_set: bool) -> Seq<char> {
    if is_set {
        "EC timeout waiting for output buffer to fill"@
    } else {
        "EC timeout waiting for input buffer to clear"@
    }
}

/// The simulated EC answers as its state says: its status byte shows the
/// input buffer free unless it is stuck, and the output buffer full once it
/// holds data.
proof fn lemma_status_bits(obf: bool, stuck: bool)
    by (bit_vector)
    ensures
        ((2u8 & (((if obf { 1u8 } else { 0u8 }) + (if stuck { 2u8 } else { 0u8 })) as u8)) == 0u8) == !stuck,
        ((1u8 & !(((if obf { 1u8 } else { 0u8 }) + (if stuck { 2u8 } else { 0u8 })) as u8)) == 0u8) == obf,
{
}

proof fn lemma_status_ready(m: MockModel)
    ensures
        status_ready(EC_STATUS_INPUT_BUFFER_FULL, false, status_spec(m)) == !m.ibf_stuck,
        status_ready(EC_STATUS_OUTPUT_BUFFER_FULL, true, status_spec(m)) == m.obf,
{
    lemma_status_bits(m.obf, m.ibf_stuck);
}

/// Where the backend is the simulated EC, the transactions between `pre` and
/// `post` are exactly what it went through: each read got the register's
/// value at its turn, and the EC ends in the state they leave. A stuck EC
/// completes no transaction; a working one never times out, and its port
/// traffic is exactly that of the transactions; neither fails an I/O request.
pub open spec fn sim_frame<B: EcIoBackend>(pre: EcController<B>, post: EcController<B>) -> bool {
    match pre.io().simulated() {
        None => post.io().simulated() is None,
        Some(m) => {
            let t = EcController::<B>::new_txns(&pre, &post);
            &&& post.io().simulated() == Some(model_after(m, t))
            &&& reads_agree(m, t)
            &&& post.io().failures() == pre.io().failures()
            &&& m.ibf_stuck ==> t.len() == 0
            &&& !m.ibf_stuck ==> post.timeouts() == pre.timeouts()
            &&& !m.ibf_stuck ==> post.port_log() == pre.port_log() + ports_after(m, t)
        }
    }
}

/// On a simulated EC whose input buffer never clears, a command that touched
/// the ports answers with the input-buffer timeout.
pub open spec fn stuck_answer<B: EcIoBackend, T>(pre: EcController<B>, post: EcController<B>, r: Result<T, String>) -> bool {
    pre.io().simulated() matches Some(m) ==> (m.ibf_stuck && post.port_log() != pre.port_log() ==> (
    r matches Err(e) && e@ == wait_timeout_text(false)))
}

/// Nothing happened: the frame of an empty step.
pub proof fn lemma_io_frame_refl<B: EcIoBackend>(a: EcController<B>)
    ensures
        io_frame(a, a),
{
}

/// A level written to a fan's level register reads back as the same level.
pub proof fn lemma_level_byte_roundtrip(fan_id: u8, level: u8)
    requires
        valid_fan(fan_id),
        level <= 5,
    ensures
        decode_level_spec(level_byte(fan_id, level)) == level,
{
    let b = fan_base(fan_id);
    let c = level_code(level);
    assert(b & 0xF == 0) by (bit_vector)
        requires
            b == 0x10 || b == 0x20 || b == 0x30,
    ;
    lemma_low_nibble(b, c);
}

proof fn lemma_low_nibble(b: u8, c: u8)
    requires
        b & 0xF == 0,
        c < 16,
        b <= 0x30,
    ensures
        ((b + c) as u8) & 0xF == c,
{
    assert(((b + c) as u8) & 0xF == c) by (bit_vector)
        requires
            b & 0xF == 0,
            c < 16,
            b <= 0x30,
    ;
}

/// The mode byte written for a fan mode reports that mode again when read,
/// given the software mode the write recorded.
pub proof fn lemma_mode_byte_roundtrip(fan_id: u8, mode: FanMode)
    requires
        valid_fan(fan_id),
    ensures
        fan_mode_text(mode_byte(fan_id, mode), mode) == Some(fan_mode_name(mode)),
{
}

/// Level a fan in curve mode starts at for temperature `temp`.
fn initial_level(temp: u8, rampup: &[u8; 5]) -> (r: u8)
    ensures
        r == initial_level_spec(temp, rampup@),
        r <= 5,
{
    if temp >= rampup[4] {
        5
    } else if temp >= rampup[3] {
        4
    } else if temp >= rampup[2] {
        3
    } else if temp >= rampup[1] {
        2
    } else if temp >= rampup[0] {
        1
    } else {
        0
    }
}

/// Whether any point of a curve is above 100°C.
fn curve_out_of_range(curve: &[u8; 5]) -> (r: bool)
    ensures
        r == !curve_in_range(curve@),
{
    let mut i: usize = 0;
    while i < 5
        invariant
            i <= 5,
            forall|j: int| 0 <= j < i ==> curve@[j] <= 100,
        decreases 5 - i,
    {
        if curve[i] > 100 {
            return true;
        }
        i = i + 1;
    }
    false
}

fn ramp_message(fan_id: u8, up: bool, level: u8, temp: u8, threshold: u8) -> (r: String)
    ensures
        r@ == ramp_msg(fan_id, up, level, temp, threshold),
{
    let mut m = owned("Fan");
    push_dec(&mut m, fan_id as u32);
    if up {
        push_str(&mut m, " ramping up to level ");
    } else {
        push_str(&mut m, " ramping down to level ");
    }
    push_dec(&mut m, level as u32);
    push_str(&mut m, " (temp: ");
    push_dec(&mut m, temp as u32);
    push_str(&mut m, "°C, threshold: ");
    push_dec(&mut m, threshold as u32);
    push_str(&mut m, "°C)");
    m
}

impl<B: EcIoBackend> EcController<B> {
    fn write_fan_level(&mut self, fan_id: u8, level: u8) -> (r: Result<(), String>)
        ensures
            stuck_answer(*old(self), *final(self), r),
            final(self).curves() == old(self).curves(),
            io_frame(*old(self), *final(self)),
            level > 5 ==> final(self).txns() == old(self).txns() && final(self).port_log() == old(
                self,
            ).port_log() && (r matches Err(e) && e@ == "Fan level must be 0-5"@),
            level <= 5 && !valid_fan(fan_id) ==> final(self).txns() == old(self).txns()
                && final(self).port_log() == old(self).port_log() && (r matches Err(e) && e@
                == invalid_fan_msg(fan_id)),
            level <= 5 && valid_fan(fan_id) ==> {
                &&& r is Ok ==> final(self).txns() == old(self).txns().push(
                    EcTxn::WriteByte {
                        register: (fan_mode_reg(fan_id)->0 + 1) as u8,
                        value: level_byte(fan_id, level),
                    },
                )
                &&& r is Err ==> final(self).txns() == old(self).txns()
                &&& r is Err ==> final(self).trouble() > old(self).trouble()
            },
    {
        if level > 5 {
            return Err(owned("Fan level must be 0-5"));
        }
        let mode_reg = self.get_fan_mode_register(fan_id)?;
        let base_val: u8 = match fan_id {
            1 => 0x10,
            2 => 0x20,
            3 => 0x30,
            _ => return Err(invalid_fan_error(fan_id)),
        };
        let code: u8 = match level {
            0 => 0x7,
            1 => 0x2,
            2 => 0x3,
            3 => 0x4,
            4 => 0x5,
            5 => 0x6,
            _ => 0x7,
        };
        self.write_byte(mode_reg + 1, base_val + code)
    }

    fn read_fan_level(&mut self, fan_id: u8) -> (r: Result<u8, String>)
        ensures
            stuck_answer(*old(self), *final(self), r),
            final(self).curves() == old(self).curves(),
            io_frame(*old(self), *final(self)),
            !valid_fan(fan_id) ==> final(self).txns() == old(self).txns() && final(self).port_log()
                == old(self).port_log() && (r matches Err(e) && e@ == invalid_fan_msg(fan_id)),
            valid_fan(fan_id) ==> {
                &&& r matches Ok(level) ==> exists|v: u8|
                    final(self).txns() == old(self).txns().push(
                        EcTxn::ReadByte { register: (fan_mode_reg(fan_id)->0 + 1) as u8, value: v },
                    ) && level == decode_level_spec(v)
                &&& r is Err ==> final(self).txns() == old(self).txns()
                &&& r is Err ==> final(self).trouble() > old(self).trouble()
            },
    {
        let mode_reg = self.get_fan_mode_register(fan_id)?;
        let level_val = self.read_byte(mode_reg + 1)?;
        Ok(decode_fan_level(level_val))
    }

    fn op_get_firmware(&mut self) -> (r: Result<EcResult, String>)
        ensures
            io_frame(*old(self), *final(self)),
            Self::op_effect(*old(self), *final(self), EcOperation::GetFirmwareVersion, r),
            stuck_answer(*old(self), *final(self), r),
    {
        let (major, minor) = self.read_firmware_version()?;
        Ok(EcResult::FirmwareVersion { major, minor })
    }

    fn op_get_power_mode(&mut self) -> (r: Result<EcResult, String>)
        ensures
            io_frame(*old(self), *final(self)),
            Self::op_effect(*old(self), *final(self), EcOperation::GetApuPowerMode, r),
            stuck_answer(*old(self), *final(self), r),
    {
        let ghost pre = *self;
        let mode_val = match self.read_byte(EC_REG_APU_POWER_MODE) {
            Ok(v) => v,
            Err(e) => {
                assert(Self::new_txns(&pre, self) =~= Seq::<EcTxn>::empty());
                return Err(e);
            },
        };
        assert(Self::new_txns(&pre, self) =~= seq![EcTxn::ReadByte { register: EC_REG_APU_POWER_MODE, value: mode_val }]);
        match PowerMode::from_ec_value(mode_val) {
            Some(mode) => Ok(EcResult::ApuPowerMode(owned(mode.as_str()))),
            None => {
                let mut message = owned("Unknown power mode: 0x");
                push_hex2(&mut message, mode_val as u32);
                Err(message)
            },
        }
    }

    fn op_set_power_mode(&mut self, mode: String) -> (r: Result<EcResult, String>)
        ensures
            io_frame(*old(self), *final(self)),
            Self::op_effect(*old(self), *final(self), EcOperation::SetApuPowerMode(mode), r),
            stuck_answer(*old(self), *final(self), r),
    {
        let ghost pre = *self;
        self.ensure_writes_allowed()?;
        let parsed = match PowerMode::from_name(mode.as_str()) {
            Some(p) => p,
            None => {
                let mut message = owned("Invalid power mode: ");
                push_str(&mut message, mode.as_str());
                assert(Self::new_txns(&pre, self) =~= Seq::<EcTxn>::empty());
                return Err(message);
            },
        };
        match self.write_byte(EC_REG_APU_POWER_MODE, parsed.to_ec_value()) {
            Ok(()) => {},
            Err(e) => {
                assert(Self::new_txns(&pre, self) =~= Seq::<EcTxn>::empty());
                return Err(e);
            },
        }
        assert(Self::new_txns(&pre, self) =~= seq![EcTxn::WriteByte { register: EC_REG_APU_POWER_MODE, value: power_mode_value(parsed) }]);
        Ok(EcResult::ApuPowerMode(owned(parsed.as_str())))
    }

    fn op_get_temperature(&mut self) -> (r: Result<EcResult, String>)
        ensures
            io_frame(*old(self), *final(self)),
            Self::op_effect(*old(self), *final(self), EcOperation::GetApuTemperature, r),
            stuck_answer(*old(self), *final(self), r),
    {
        let ghost pre = *self;
        match self.read_byte(EC_REG_APU_TEMPERATURE) {
            Ok(temp) => {
                assert(Self::new_txns(&pre, self) =~= seq![EcTxn::ReadByte { register: EC_REG_APU_TEMPERATURE, value: temp }]);
                Ok(EcResult::ApuTemperature(temp))
            },
            Err(e) => {
                assert(Self::new_txns(&pre, self) =~= Seq::<EcTxn>::empty());
                Err(e)
            },
        }
    }

    fn op_get_fan_rpm(&mut self, fan_id: u8) -> (r: Result<EcResult, String>)
        ensures
            io_frame(*old(self), *final(self)),
            Self::op_effect(*old(self), *final(self), EcOperation::GetFanRpm(fan_id), r),
            stuck_answer(*old(self), *final(self), r),
    {
        let ghost pre = *self;
        let (high_reg, low_reg) = match self.get_fan_speed_registers(fan_id) {
            Ok(p) => p,
            Err(e) => {
                assert(Self::new_txns(&pre, self) =~= Seq::<EcTxn>::empty());
                return Err(e);
            },
        };
        let high = match self.read_byte(high_reg) {
            Ok(v) => v,
            Err(e) => {
                assert(Self::new_txns(&pre, self) =~= Seq::<EcTxn>::empty());
                return Err(e);
            },
        };
        let ghost s1 = *self;
        let low = self.read_byte(low_reg);
        proof {
            lemma_io_frame_trans(pre, s1, *self);
        }
        let low = match low {
            Ok(v) => v,
            Err(e) => {
                assert(Self::new_txns(&pre, self) =~= seq![EcTxn::ReadByte { register: high_reg, value: high }]);
                return Err(e);
            },
        };
        assert(Self::new_txns(&pre, self) =~= seq![
            EcTxn::ReadByte { register: high_reg, value: high },
            EcTxn::ReadByte { register: low_reg, value: low },
        ]);
        let mut rpm: u16 = (high as u16) * 256 + (low as u16);
        if fan_id == 3 && rpm == 8000 {
            rpm = 0;
        }
        Ok(EcResult::FanRpm(rpm))
    }

    fn op_get_fan_mode(&mut self, fan_id: u8) -> (r: Result<EcResult, String>)
        ensures
            io_frame(*old(self), *final(self)),
            Self::op_effect(*old(self), *final(self), EcOperation::GetFanMode(fan_id), r),
            stuck_answer(*old(self), *final(self), r),
    {
        let ghost pre = *self;
        let mode_reg = match self.get_fan_mode_register(fan_id) {
            Ok(p) => p,
            Err(e) => {
                assert(Self::new_txns(&pre, self) =~= Seq::<EcTxn>::empty());
                return Err(e);
            },
        };
        let mode_val = match self.read_byte(mode_reg) {
            Ok(v) => v,
            Err(e) => {
                assert(Self::new_txns(&pre, self) =~= Seq::<EcTxn>::empty());
                return Err(e);
            },
        };
        assert(Self::new_txns(&pre, self) =~= seq![EcTxn::ReadByte { register: mode_reg, value: mode_val }]);
        let fan_idx = (fan_id - 1) as usize;
        let text = if mode_val == 0x10 || mode_val == 0x20 || mode_val == 0x30 {
            "auto"
        } else if mode_val == 0x11 || mode_val == 0x21 || mode_val == 0x31 {
            if self.fan_curves[fan_idx].mode == FanMode::Curve {
                "curve"
            } else {
                "fixed"
            }
        } else {
            let mut message = owned("Unknown fan mode: 0x");
            push_hex2(&mut message, mode_val as u32);
            return Err(message);
        };
        Ok(EcResult::FanMode(owned(text)))
    }

    fn op_set_fan_mode(&mut self, fan_id: u8, mode: String) -> (r: Result<EcResult, String>)
        ensures
            io_frame(*old(self), *final(self)),
            Self::op_effect(*old(self), *final(self), EcOperation::SetFanMode(fan_id, mode), r),
            stuck_answer(*old(self), *final(self), r),
    {
        let ghost pre = *self;
        self.ensure_writes_allowed()?;
        let mode_reg = self.get_fan_mode_register(fan_id)?;
        let base_val: u8 = match fan_id {
            1 => 0x10,
            2 => 0x20,
            3 => 0x30,
            _ => return Err(invalid_fan_error(fan_id)),
        };
        let fan_mode = match FanMode::from_name(mode.as_str()) {
            Some(m) => m,
            None => {
                let mut message = owned("Invalid fan mode: ");
                push_str(&mut message, mode.as_str());
                assert(Self::new_txns(&pre, self) =~= Seq::<EcTxn>::empty());
                return Err(message);
            },
        };
        let mode_val = match fan_mode {
            FanMode::Auto => base_val,
            FanMode::Fixed | FanMode::Curve => base_val + 1,
        };
        let fan_idx = (fan_id - 1) as usize;
        let mut entry = self.fan_curves[fan_idx];
        entry.mode = fan_mode;
        self.fan_curves[fan_idx] = entry;
        assert(self.curves() =~= pre.curves().update(fan_idx as int, FanCurveData { mode: fan_mode, ..pre.curves()[fan_idx as int] }));
        let ghost s0 = *self;
        assert(io_frame(pre, s0));
        let written = self.write_byte(mode_reg, mode_val);
        proof {
            lemma_io_frame_trans(pre, s0, *self);
        }
        match written {
            Ok(()) => {},
            Err(e) => {
                assert(Self::new_txns(&pre, self) =~= Seq::<EcTxn>::empty());
                return Err(e);
            },
        }
        let ghost first = EcTxn::WriteByte { register: mode_reg, value: mode_val };
        assert(Self::new_txns(&pre, self) =~= seq![first]);
        if fan_mode == FanMode::Curve {
            let ghost s1 = *self;
            let temp = self.read_byte(EC_REG_APU_TEMPERATURE);
            proof {
                lemma_io_frame_trans(pre, s1, *self);
            }
            match temp {
                Ok(temp) => {
                    let ghost second = EcTxn::ReadByte { register: EC_REG_APU_TEMPERATURE, value: temp };
                    assert(Self::new_txns(&pre, self) =~= seq![first, second]);
                    let level = initial_level(temp, &self.fan_curves[fan_idx].rampup_curve);
                    let ghost s2 = *self;
                    let lv = self.write_fan_level(fan_id, level);
                    proof {
                        lemma_io_frame_trans(pre, s2, *self);
                    }
                    match lv {
                        Ok(()) => {
                            assert(Self::new_txns(&pre, self) =~= seq![
                                first,
                                second,
                                EcTxn::WriteByte {
                                    register: (mode_reg + 1) as u8,
                                    value: level_byte(fan_id, level),
                                },
                            ]);
                        },
                        Err(e) => {
                            return Err(e);
                        },
                    }
                },
                Err(_) => {},
            }
        }
        Ok(EcResult::FanMode(mode))
    }

    fn op_get_fan_level(&mut self, fan_id: u8) -> (r: Result<EcResult, String>)
        ensures
            io_frame(*old(self), *final(self)),
            Self::op_effect(*old(self), *final(self), EcOperation::GetFanLevel(fan_id), r),
            stuck_answer(*old(self), *final(self), r),
    {
        let ghost pre = *self;
        let mode_reg = match self.get_fan_mode_register(fan_id) {
            Ok(p) => p,
            Err(e) => {
                assert(Self::new_txns(&pre, self) =~= Seq::<EcTxn>::empty());
                return Err(e);
            },
        };
        match self.read_byte(mode_reg + 1) {
            Ok(level_val) => {
                assert(Self::new_txns(&pre, self) =~= seq![EcTxn::ReadByte { register: (mode_reg + 1) as u8, value: level_val }]);
                Ok(EcResult::FanLevel(decode_fan_level(level_val)))
            },
            Err(e) => {
                assert(Self::new_txns(&pre, self) =~= Seq::<EcTxn>::empty());
                Err(e)
            },
        }
    }

    fn op_set_fan_level(&mut self, fan_id: u8, level: u8) -> (r: Result<EcResult, String>)
        ensures
            io_frame(*old(self), *final(self)),
            Self::op_effect(*old(self), *final(self), EcOperation::SetFanLevel(fan_id, level), r),
            stuck_answer(*old(self), *final(self), r),
    {
        let ghost pre = *self;
        self.ensure_writes_allowed()?;
        if level > 5 {
            return Err(owned("Fan level must be 0-5"));
        }
        match self.write_fan_level(fan_id, level) {
            Ok(()) => {
                assert(Self::new_txns(&pre, self) =~= seq![EcTxn::WriteByte {
                    register: (fan_mode_reg(fan_id)->0 + 1) as u8,
                    value: level_byte(fan_id, level),
                }]);
                Ok(EcResult::FanLevel(level))
            },
            Err(e) => {
                assert(Self::new_txns(&pre, self) =~= Seq::<EcTxn>::empty());
                Err(e)
            },
        }
    }

    fn op_get_curve(&mut self, fan_id: u8, rampup: bool) -> (r: Result<EcResult, String>)
        ensures
            io_frame(*old(self), *final(self)),
            rampup ==> Self::op_effect(*old(self), *final(self), EcOperation::GetFanRampupCurve(fan_id), r),
            !rampup ==> Self::op_effect(*old(self), *final(self), EcOperation::GetFanRampdownCurve(fan_id), r),
    {
        let ghost pre = *self;
        assert(Self::new_txns(&pre, self) =~= Seq::<EcTxn>::empty());
        if !(1 <= fan_id && fan_id <= 3) {
            return Err(invalid_fan_error(fan_id));
        }
        let fan_idx = (fan_id - 1) as usize;
        if rampup {
            Ok(EcResult::FanRampupCurve(self.fan_curves[fan_idx].rampup_curve))
        } else {
            Ok(EcResult::FanRampdownCurve(self.fan_curves[fan_idx].rampdown_curve))
        }
    }

    fn op_set_curve(&mut self, fan_id: u8, curve: [u8; 5], rampup: bool) -> (r: Result<EcResult, String>)
        ensures
            io_frame(*old(self), *final(self)),
            rampup ==> Self::op_effect(*old(self), *final(self), EcOperation::SetFanRampupCurve(fan_id, curve), r),
            !rampup ==> Self::op_effect(*old(self), *final(self), EcOperation::SetFanRampdownCurve(fan_id, curve), r),
    {
        let ghost pre = *self;
        assert(Self::new_txns(&pre, self) =~= Seq::<EcTxn>::empty());
        if !(1 <= fan_id && fan_id <= 3) {
            return Err(invalid_fan_error(fan_id));
        }
        if curve_out_of_range(&curve) {
            return Err(owned("Temperature values must be 0-100°C"));
        }
        let fan_idx = (fan_id - 1) as usize;
        let mut entry = self.fan_curves[fan_idx];
        if rampup {
            entry.rampup_curve = curve;
        } else {
            entry.rampdown_curve = curve;
        }
        self.fan_curves[fan_idx] = entry;
        assert(Self::new_txns(&pre, self) =~= Seq::<EcTxn>::empty());
        if rampup {
            assert(self.curves() =~= pre.curves().update(fan_idx as int, FanCurveData { rampup_curve: curve, ..pre.curves()[fan_idx as int] }));
            Ok(EcResult::FanRampupCurve(curve))
        } else {
            assert(self.curves() =~= pre.curves().update(fan_idx as int, FanCurveData { rampdown_curve: curve, ..pre.curves()[fan_idx as int] }));
            Ok(EcResult::FanRampdownCurve(curve))
        }
    }

    /// Runs one EC command. Writes are refused on unrecognised hardware, and
    /// invalid arguments are refused before any port I/O.
    pub fn execute_operation(&mut self, operation: EcOperation) -> (r: Result<EcResult, String>)
        ensures
            io_frame(*old(self), *final(self)),
            Self::op_effect(*old(self), *final(self), operation, r),
            stuck_answer(*old(self), *final(self), r),
    {
        match operation {
            EcOperation::GetFirmwareVersion => self.op_get_firmware(),
            EcOperation::GetApuPowerMode => self.op_get_power_mode(),
            EcOperation::SetApuPowerMode(mode) => self.op_set_power_mode(mode),
            EcOperation::GetApuTemperature => self.op_get_temperature(),
            EcOperation::GetFanRpm(fan_id) => self.op_get_fan_rpm(fan_id),
            EcOperation::GetFanMode(fan_id) => self.op_get_fan_mode(fan_id),
            EcOperation::SetFanMode(fan_id, mode) => self.op_set_fan_mode(fan_id, mode),
            EcOperation::GetFanLevel(fan_id) => self.op_get_fan_level(fan_id),
            EcOperation::SetFanLevel(fan_id, level) => self.op_set_fan_level(fan_id, level),
            EcOperation::GetFanRampupCurve(fan_id) => self.op_get_curve(fan_id, true),
            EcOperation::SetFanRampupCurve(fan_id, curve) => self.op_set_curve(fan_id, curve, true),
            EcOperation::GetFanRampdownCurve(fan_id) => self.op_get_curve(fan_id, false),
            EcOperation::SetFanRampdownCurve(fan_id, curve) => self.op_set_curve(fan_id, curve, false),
        }
    }

    /// Whether any fan is in curve mode.
    pub fn has_curve_fans(&self) -> (r: bool)
        ensures
            r == exists|i: int| 0 <= i < 3 && #[trigger] self.curves()[i].mode == FanMode::Curve,
    {
        let r = self.fan_curves[0].mode == FanMode::Curve || self.fan_curves[1].mode == FanMode::Curve
            || self.fan_curves[2].mode == FanMode::Curve;
        proof {
            if !r {
                assert forall|i: int| 0 <= i < 3 implies #[trigger] self.curves()[i].mode != FanMode::Curve by {
                    assert(i == 0 || i == 1 || i == 2);
                }
            }
        }
        r
    }

    /// Whether fan `fan_id` runs under curve control.
    pub fn is_curve_fan(&self, fan_id: u8) -> (r: bool)
        requires
            valid_fan(fan_id),
        ensures
            r == (self.curves()[fan_id - 1].mode == FanMode::Curve),
    {
        self.fan_curves[(fan_id - 1) as usize].mode == FanMode::Curve
    }
}

/// After a fan's mode is set, the fans under curve control are the others
/// that were, and this one exactly when its new mode is `curve`, whatever
/// the EC answered.
pub proof fn lemma_curve_fans_after_mode_change<B: EcIoBackend>(
    pre: EcController<B>,
    post: EcController<B>,
    fan_id: u8,
    mode: String,
    r: Result<EcResult, String>,
)
    requires
        EcController::<B>::op_effect(pre, post, EcOperation::SetFanMode(fan_id, mode), r),
        pre.allows_writes(),
        valid_fan(fan_id),
        fan_mode_from_name(mode@) is Some,
        pre.curves().len() == 3,
    ensures
        post.curves().len() == 3,
        forall|i: int|
            0 <= i < 3 ==> ((#[trigger] post.curves()[i]).mode == FanMode::Curve <==> if i == fan_id - 1 {
                fan_mode_from_name(mode@)->0 == FanMode::Curve
            } else {
                pre.curves()[i].mode == FanMode::Curve
            }),
{
}

/// On a working simulated EC, one command replaced by its single completed
/// transaction: the command's effect on the EC is that transaction's.
proof fn lemma_single_txn<B: EcIoBackend>(a: EcController<B>, b: EcController<B>)
    requires
        io_frame(a, b),
        a.io().simulated() is Some,
        EcController::<B>::new_txns(&a, &b).len() == 1,
    ensures
        ({
            let m = a.io().simulated()->0;
            let x = EcController::<B>::new_txns(&a, &b)[0];
            &&& b.io().simulated() == Some(txn_step(m, x))
            &&& read_agrees(m, x)
        }),
{
    let m = a.io().simulated()->0;
    let t = EcController::<B>::new_txns(&a, &b);
    assert(t =~= Seq::<EcTxn>::empty().push(t[0]));
    lemma_model_after_push(m, Seq::<EcTxn>::empty(), t[0]);
}

/// The mode fan `fan_id` is left in by the commands `ops`, starting from
/// `start`: that of the last `SetFanMode` for it with a known mode name, when
/// writes are allowed, and `start` when there is none.
pub open spec fn mode_after(start: FanMode, allowed: bool, fan_id: u8, ops: Seq<EcOperation>) -> FanMode
    decreases ops.len(),
{
    if ops.len() == 0 {
        start
    } else {
        let prev = mode_after(start, allowed, fan_id, ops.drop_last());
        match ops.last() {
            EcOperation::SetFanMode(f, m) => if allowed && f == fan_id && fan_mode_from_name(m@) is Some {
                fan_mode_from_name(m@)->0
            } else {
                prev
            },
            _ => prev,
        }
    }
}

/// Over any run of commands `ops` taking the controller through `states`,
/// each fan ends in the mode the last accepted mode change gave it, whatever
/// the EC answered; so a fan is under curve control exactly when that change
/// named `curve`.
pub proof fn lemma_modes_follow_history<B: EcIoBackend>(
    states: Seq<EcController<B>>,
    ops: Seq<EcOperation>,
    rs: Seq<Result<EcResult, String>>,
    fan_id: u8,
)
    requires
        valid_fan(fan_id),
        states.len() == ops.len() + 1,
        rs.len() == ops.len(),
        states[0].curves().len() == 3,
        forall|k: int|
            0 <= k < ops.len() ==> io_frame(#[trigger] states[k], states[k + 1]) && EcController::<B>::op_effect(
                states[k],
                states[k + 1],
                ops[k],
                rs[k],
            ),
    ensures
        states.last().curves().len() == 3,
        states.last().allows_writes() == states[0].allows_writes(),
        states.last().curves()[fan_id - 1].mode == mode_after(
            states[0].curves()[fan_id - 1].mode,
            states[0].allows_writes(),
            fan_id,
            ops,
        ),
    decreases ops.len(),
{
    if ops.len() > 0 {
        let n = ops.len() as int;
        let st = states.drop_last();
        assert forall|k: int| 0 <= k < ops.drop_last().len() implies io_frame(#[trigger] st[k], st[k + 1])
            && EcController::<B>::op_effect(st[k], st[k + 1], ops.drop_last()[k], rs.drop_last()[k]) by {
            assert(io_frame(states[k], states[k + 1]));
        }
        lemma_modes_follow_history(st, ops.drop_last(), rs.drop_last(), fan_id);
        assert(st.last() == states[n - 1]);
        assert(io_frame(states[n - 1], states[n]));
        assert(states.last() == states[n]);
    }
}

/// A command that completed no transaction and touched no port leaves the
/// EC behind the ports as it was.
pub proof fn lemma_quiet_leaves_ec_alone<B: EcIoBackend>(pre: EcController<B>, post: EcController<B>)
    requires
        io_frame(pre, post),
        EcController::<B>::new_txns(&pre, &post).len() == 0,
        post.port_log() == pre.port_log(),
    ensures
        post.io().simulated() == pre.io().simulated(),
{
}

/// The EC's level encoding: fan `f`'s level register is `0x20 + 2f`, and the
/// byte for level `L` is `0x10 * f` with a low nibble of 7 for level 0 and
/// `L + 1` for levels 1 to 5.
pub proof fn lemma_level_byte_values(fan_id: u8, level: u8)
    requires
        valid_fan(fan_id),
        level <= 5,
    ensures
        fan_mode_reg(fan_id)->0 + 1 == 0x20 + 2 * fan_id,
        level_byte(fan_id, level) == 0x10 * fan_id + (if level == 0 { 7 } else { level + 1 }),
{
}

/// Reading a level byte: a low nibble of 7 is level 0, and a low nibble of 2
/// to 6 is that nibble minus one.
pub proof fn lemma_decode_level_values(v: u8)
    ensures
        v % 16 == 7 ==> decode_level_spec(v) == 0,
        2 <= v % 16 <= 6 ==> decode_level_spec(v) == v % 16 - 1,
{
    assert(v & 0xF == v % 16) by (bit_vector);
}

/// The initial level of a fan put under curve control is the number of
/// points of its (rising) ramp-up curve that the temperature has reached.
pub proof fn lemma_initial_level_counts_points(temp: u8, up: Seq<u8>, k: int)
    requires
        up.len() == 5,
        forall|i: int, j: int| 0 <= i <= j < 5 ==> up[i] <= up[j],
        0 <= k <= 5,
        k > 0 ==> up[k - 1] <= temp,
        k < 5 ==> temp < up[k],
    ensures
        initial_level_spec(temp, up) == k,
{
}

/// A fan's RPM on a working simulated EC is 256 times its high speed register
/// plus its low speed register; for the system fan a reading of 8000 means
/// stopped. The speed registers are 0x35 / 0x36 (fan 1), 0x37 / 0x38 (fan 2)
/// and 0x28 / 0x29 (fan 3), high byte first.
pub proof fn lemma_rpm_from_registers<B: EcIoBackend>(
    a: EcController<B>,
    b: EcController<B>,
    fan_id: u8,
    r: Result<EcResult, String>,
)
    requires
        a.io().simulated() is Some,
        !a.io().simulated()->0.ibf_stuck,
        a.io().simulated()->0.registers.len() == 256,
        valid_fan(fan_id),
        io_frame(a, b),
        EcController::<B>::op_effect(a, b, EcOperation::GetFanRpm(fan_id), r),
    ensures
        ({
            let regs = a.io().simulated()->0.registers;
            let high = if fan_id == 1 {
                0x35u8
            } else if fan_id == 2 {
                0x37u8
            } else {
                0x28u8
            };
            let low = if fan_id == 1 {
                0x36u8
            } else if fan_id == 2 {
                0x38u8
            } else {
                0x29u8
            };
            let raw = 256 * regs[high as int] + regs[low as int];
            r == Ok::<EcResult, String>(
                EcResult::FanRpm(if fan_id == 3 && raw == 8000 { 0 } else { raw as u16 }),
            )
        }),
{
    let m = a.io().simulated()->0;
    let t = EcController::<B>::new_txns(&a, &b);
    assert(t =~= Seq::<EcTxn>::empty().push(t[0]).push(t[1]));
    lemma_model_after_push(m, Seq::<EcTxn>::empty(), t[0]);
    lemma_model_after_push(m, Seq::<EcTxn>::empty().push(t[0]), t[1]);
}

/// Setting fan `f` to level `L` on a working simulated EC stores the level
/// code in register `0x20 + 2f` and changes no other register.
pub proof fn lemma_set_level_register<B: EcIoBackend>(
    a: EcController<B>,
    b: EcController<B>,
    fan_id: u8,
    level: u8,
    r: Result<EcResult, String>,
)
    requires
        a.io().simulated() is Some,
        !a.io().simulated()->0.ibf_stuck,
        a.io().simulated()->0.registers.len() == 256,
        a.allows_writes(),
        valid_fan(fan_id),
        level <= 5,
        io_frame(a, b),
        EcController::<B>::op_effect(a, b, EcOperation::SetFanLevel(fan_id, level), r),
    ensures
        r == Ok::<EcResult, String>(EcResult::FanLevel(level)),
        b.io().simulated()->0.registers == a.io().simulated()->0.registers.update(
            0x20 + 2 * fan_id,
            (0x10 * fan_id + (if level == 0 { 7 } else { level + 1 })) as u8,
        ),
{
    lemma_single_txn(a, b);
    lemma_level_byte_values(fan_id, level);
}

/// Reading fan `f`'s level on a working simulated EC decodes register
/// `0x20 + 2f`: low nibble 7 is level 0, low nibble 2 to 6 is that minus one.
pub proof fn lemma_get_level_register<B: EcIoBackend>(
    a: EcController<B>,
    b: EcController<B>,
    fan_id: u8,
    r: Result<EcResult, String>,
)
    requires
        a.io().simulated() is Some,
        !a.io().simulated()->0.ibf_stuck,
        a.io().simulated()->0.registers.len() == 256,
        valid_fan(fan_id),
        io_frame(a, b),
        EcController::<B>::op_effect(a, b, EcOperation::GetFanLevel(fan_id), r),
    ensures
        ({
            let low = a.io().simulated()->0.registers[0x20 + 2 * fan_id] % 16;
            &&& low == 7 ==> r == Ok::<EcResult, String>(EcResult::FanLevel(0))
            &&& 2 <= low <= 6 ==> r == Ok::<EcResult, String>(EcResult::FanLevel((low - 1) as u8))
        }),
{
    lemma_single_txn(a, b);
    let v = a.io().simulated()->0.registers[0x20 + 2 * fan_id];
    lemma_decode_level_values(v);
}

/// The EC's fan-mode encoding: fan `f`'s mode register is `0x1F + 2f`; AUTO
/// is `0x10 * f` and software control (fixed or curve) is `0x10 * f + 1`.
pub proof fn lemma_mode_byte_values(fan_id: u8, mode: FanMode)
    requires
        valid_fan(fan_id),
    ensures
        fan_mode_reg(fan_id)->0 == 0x1F + 2 * fan_id,
        mode_byte(fan_id, mode) == 0x10 * fan_id + (if mode == FanMode::Auto { 0int } else { 1int }),
{
}

/// Reading a fan-mode byte: `0x10 * f` for a fan `f` of 1 to 3 is AUTO,
/// `0x10 * f + 1` is the software mode the controller has for the fan, and
/// every other byte is unknown.
pub proof fn lemma_fan_mode_text_values(v: u8, soft: FanMode)
    ensures
        1 <= v / 16 <= 3 && v % 16 == 0 ==> fan_mode_text(v, soft) == Some("auto"@),
        1 <= v / 16 <= 3 && v % 16 == 1 ==> fan_mode_text(v, soft) == Some(
            if soft == FanMode::Curve { "curve"@ } else { "fixed"@ },
        ),
        !(1 <= v / 16 <= 3 && v % 16 <= 1) ==> fan_mode_text(v, soft) is None,
{
}

/// The EC's power-mode byte in register 0x31: balanced is 0, performance 1,
/// quiet 2; no other byte names a mode.
pub proof fn lemma_power_mode_byte_values(v: u8)
    ensures
        EC_REG_APU_POWER_MODE == 0x31,
        power_mode_value(PowerMode::Balanced) == 0,
        power_mode_value(PowerMode::Performance) == 1,
        power_mode_value(PowerMode::Quiet) == 2,
        power_mode_from_value(v) is Some <==> v <= 2,
{
}

/// Firmware `major.minor` is supported exactly when it is 1.04 or later.
pub proof fn lemma_firmware_supported_order(major: u8, minor: u8)
    ensures
        firmware_supported_spec(major, minor) <==> 256 * major + minor >= 256 * 1 + 4,
{
}

/// On a working simulated EC the temperature read is register 0x70 and the
/// power mode read is the mode register 0x31 decodes to.
pub proof fn lemma_reads_come_from_registers<B: EcIoBackend>(
    a: EcController<B>,
    b: EcController<B>,
    op: EcOperation,
    r: Result<EcResult, String>,
)
    requires
        a.io().simulated() is Some,
        !a.io().simulated()->0.ibf_stuck,
        a.io().simulated()->0.registers.len() == 256,
        op is GetApuTemperature || op is GetApuPowerMode,
        io_frame(a, b),
        EcController::<B>::op_effect(a, b, op, r),
    ensures
        ({
            let regs = a.io().simulated()->0.registers;
            &&& op is GetApuTemperature ==> r == Ok::<EcResult, String>(EcResult::ApuTemperature(regs[0x70]))
            &&& op is GetApuPowerMode && regs[0x31] <= 2 ==> (r matches Ok(EcResult::ApuPowerMode(s))
                && s@ == (if regs[0x31] == 0 {
                "balanced"@
            } else if regs[0x31] == 1 {
                "performance"@
            } else {
                "quiet"@
            }))
        }),
{
    lemma_single_txn(a, b);
}

/// On a working simulated EC, a fan level that was set reads back as that
/// level, and both commands succeed.
pub proof fn lemma_level_reads_back<B: EcIoBackend>(
    a: EcController<B>,
    b: EcController<B>,
    c: EcController<B>,
    fan_id: u8,
    level: u8,
    r1: Result<EcResult, String>,
    r2: Result<EcResult, String>,
)
    requires
        a.io().simulated() is Some,
        !a.io().simulated()->0.ibf_stuck,
        a.io().simulated()->0.registers.len() == 256,
        a.allows_writes(),
        valid_fan(fan_id),
        level <= 5,
        io_frame(a, b),
        EcController::<B>::op_effect(a, b, EcOperation::SetFanLevel(fan_id, level), r1),
        io_frame(b, c),
        EcController::<B>::op_effect(b, c, EcOperation::GetFanLevel(fan_id), r2),
    ensures
        r1 == Ok::<EcResult, String>(EcResult::FanLevel(level)),
        r2 == Ok::<EcResult, String>(EcResult::FanLevel(level)),
{
    lemma_single_txn(a, b);
    lemma_single_txn(b, c);
    lemma_level_byte_roundtrip(fan_id, level);
}

/// On a working simulated EC, a power mode that was set reads back as that
/// mode, and both commands succeed.
pub proof fn lemma_power_mode_reads_back<B: EcIoBackend>(
    a: EcController<B>,
    b: EcController<B>,
    c: EcController<B>,
    mode: String,
    r1: Result<EcResult, String>,
    r2: Result<EcResult, String>,
)
    requires
        a.io().simulated() is Some,
        !a.io().simulated()->0.ibf_stuck,
        a.io().simulated()->0.registers.len() == 256,
        a.allows_writes(),
        power_mode_from_name(mode@) is Some,
        io_frame(a, b),
        EcController::<B>::op_effect(a, b, EcOperation::SetApuPowerMode(mode), r1),
        io_frame(b, c),
        EcController::<B>::op_effect(b, c, EcOperation::GetApuPowerMode, r2),
    ensures
        r1 is Ok,
        r2 matches Ok(EcResult::ApuPowerMode(s)) && s@ == power_mode_name(power_mode_from_name(mode@)->0),
{
    lemma_single_txn(a, b);
    lemma_single_txn(b, c);
    lemma_power_mode_value_roundtrip(power_mode_from_name(mode@)->0, 0);
}

/// The level fan `i + 1` is at, by the EC registers `regs`.
pub open spec fn level_in(regs: Seq<u8>, i: int) -> u8 {
    decode_level_spec(regs[level_reg_of_index(i) as int])
}

/// The level the curve of fan `i + 1` asks for at temperature `temp`.
pub open spec fn next_in(curves: Seq<FanCurveData>, temp: u8, regs: Seq<u8>, i: int) -> u8 {
    next_level_spec(level_in(regs, i), temp, curves[i].rampup_curve@, curves[i].rampdown_curve@)
}

/// The first fan from index `i` on that is under curve control and whose
/// curve would change its level, if any.
pub open spec fn first_mover(curves: Seq<FanCurveData>, temp: u8, regs: Seq<u8>, i: int) -> Option<int>
    decreases 3 - i,
{
    if i >= 3 || i < 0 {
        None
    } else if curves[i].mode == FanMode::Curve && next_in(curves, temp, regs, i) != level_in(regs, i) {
        Some(i)
    } else {
        first_mover(curves, temp, regs, i + 1)
    }
}

/// On the simulated EC, a successful scan from fan `i + 1` on writes the
/// level of the first fan that moves, and no other register.
proof fn lemma_scan_on_model(
    curves: Seq<FanCurveData>,
    temp: u8,
    s: Seq<EcTxn>,
    i: int,
    msgs: Seq<Seq<char>>,
    m: MockModel,
)
    requires
        0 <= i <= 3,
        curves.len() == 3,
        scan_ok(curves, temp, s, i, msgs),
        reads_agree(m, s),
        m.registers.len() == 256,
    ensures
        match first_mover(curves, temp, m.registers, i) {
            Some(f) => model_after(m, s).registers == m.registers.update(
                level_reg_of_index(f) as int,
                level_byte((f + 1) as u8, next_in(curves, temp, m.registers, f)),
            ) && msgs.len() == 1,
            None => model_after(m, s).registers == m.registers && msgs.len() == 0,
        },
    decreases 3 - i,
{
    if i < 3 {
        if curves[i].mode != FanMode::Curve {
            lemma_scan_on_model(curves, temp, s, i + 1, msgs, m);
        } else {
            let first = seq![s[0]];
            let rest = s.skip(1);
            assert(s =~= first + rest);
            assert(first =~= Seq::<EcTxn>::empty().push(s[0]));
            lemma_model_after_push(m, Seq::<EcTxn>::empty(), s[0]);
            lemma_model_after_concat(m, first, rest);
            let m1 = txn_step(m, s[0]);
            assert(m1.registers == m.registers);
            let cur = decode_level_spec(txn_value(s[0]));
            let next = next_level_spec(cur, temp, curves[i].rampup_curve@, curves[i].rampdown_curve@);
            if next != cur {
                assert(rest =~= Seq::<EcTxn>::empty().push(s[1]));
                lemma_model_after_push(m1, Seq::<EcTxn>::empty(), s[1]);
            } else {
                lemma_scan_on_model(curves, temp, rest, i + 1, msgs, m1);
            }
        }
    } else {
        assert(s =~= Seq::<EcTxn>::empty());
    }
}

/// Level register (mode register + 1) of fan `i + 1`.
pub open spec fn level_reg_of_index(i: int) -> u8 {
    (fan_mode_reg((i + 1) as u8)->0 + 1) as u8
}

/// What scanning one curve fan (index `i`) left in `seg` when it changed nothing.
pub open spec fn scan_seg_quiet(curves: Seq<FanCurveData>, temp: u8, seg: Seq<EcTxn>, i: int) -> bool {
    if curves[i].mode != FanMode::Curve {
        seg.len() == 0
    } else {
        &&& seg.len() == 1
        &&& is_read_of(seg[0], level_reg_of_index(i))
        &&& next_level_spec(
            decode_level_spec(txn_value(seg[0])),
            temp,
            curves[i].rampup_curve@,
            curves[i].rampdown_curve@,
        ) == decode_level_spec(txn_value(seg[0]))
    }
}

proof fn lemma_scan_ok_step(curves: Seq<FanCurveData>, temp: u8, seg: Seq<EcTxn>, rest: Seq<EcTxn>, i: int, msgs: Seq<Seq<char>>)
    requires
        0 <= i < 3,
        curves.len() == 3,
        scan_seg_quiet(curves, temp, seg, i),
        scan_ok(curves, temp, rest, i + 1, msgs),
    ensures
        scan_ok(curves, temp, seg + rest, i, msgs),
{
    if curves[i].mode != FanMode::Curve {
        assert(seg + rest =~= rest);
    } else {
        assert((seg + rest)[0] == seg[0]);
        assert((seg + rest).skip(1) =~= rest);
    }
}

proof fn lemma_scan_failed_step(curves: Seq<FanCurveData>, temp: u8, seg: Seq<EcTxn>, rest: Seq<EcTxn>, i: int)
    requires
        0 <= i < 3,
        curves.len() == 3,
        scan_seg_quiet(curves, temp, seg, i),
        scan_failed(curves, temp, rest, i + 1),
    ensures
        scan_failed(curves, temp, seg + rest, i),
{
    if curves[i].mode != FanMode::Curve {
        assert(seg + rest =~= rest);
    } else {
        assert((seg + rest)[0] == seg[0]);
        assert((seg + rest).skip(1) =~= rest);
    }
}

impl<B: EcIoBackend> EcController<B> {
    /// One curve fan: read its level and move it one step if the curve says so.
    fn scan_fan(&mut self, fan_id: u8, temp: u8) -> (r: Result<Option<String>, String>)
        requires
            valid_fan(fan_id),
            old(self).curves().len() == 3,
        ensures
            final(self).curves() == old(self).curves(),
            io_frame(*old(self), *final(self)),
            ({
                let i = fan_id - 1;
                let t = Self::new_txns(old(self), final(self));
                let c = old(self).curves()[i];
                let cur = decode_level_spec(txn_value(t[0]));
                let next = next_level_spec(cur, temp, c.rampup_curve@, c.rampdown_curve@);
                &&& r matches Ok(None) ==> scan_seg_quiet(old(self).curves(), temp, t, i)
                &&& r matches Ok(Some(m)) ==> scan_ok(old(self).curves(), temp, t, i, seq![m@])
                &&& r is Err ==> scan_failed(old(self).curves(), temp, t, i)
            }),
            r is Err ==> final(self).trouble() > old(self).trouble(),
    {
        let ghost pre = *self;
        let fan_idx = (fan_id - 1) as usize;
        if self.fan_curves[fan_idx].mode != FanMode::Curve {
            assert(Self::new_txns(&pre, self) =~= Seq::<EcTxn>::empty());
            return Ok(None);
        }
        let current = match self.read_fan_level(fan_id) {
            Ok(level) => level,
            Err(e) => {
                assert(Self::new_txns(&pre, self) =~= Seq::<EcTxn>::empty());
                return Err(e);
            },
        };
        let ghost v = choose|v: u8|
            self.txns() == pre.txns().push(
                EcTxn::ReadByte { register: (fan_mode_reg(fan_id)->0 + 1) as u8, value: v },
            ) && current == decode_level_spec(v);
        let ghost first = EcTxn::ReadByte { register: (fan_mode_reg(fan_id)->0 + 1) as u8, value: v };
        assert(Self::new_txns(&pre, self) =~= seq![first]);
        let rampup = self.fan_curves[fan_idx].rampup_curve;
        let rampdown = self.fan_curves[fan_idx].rampdown_curve;
        let next = next_fan_level(current, temp, &rampup, &rampdown);
        if next == current {
            return Ok(None);
        }
        let up = next > current;
        let threshold = if up {
            rampup[current as usize]
        } else {
            rampdown[(current - 1) as usize]
        };
        let message = ramp_message(fan_id, up, next, temp, threshold);
        let ghost mid = *self;
        let written = self.write_fan_level(fan_id, next);
        proof {
            lemma_io_frame_trans(pre, mid, *self);
        }
        match written {
            Ok(()) => {},
            Err(e) => {
                return Err(e);
            },
        }
        assert(Self::new_txns(&pre, self) =~= seq![
            first,
            EcTxn::WriteByte { register: (fan_mode_reg(fan_id)->0 + 1) as u8, value: level_byte(fan_id, next) },
        ]);
        Ok(Some(message))
    }

    /// One step of curve control: reads the APU temperature, then moves the
    /// first curve-mode fan whose level the curve would change by one level,
    /// and reports that change. Does nothing when writes are not permitted.
    /// On a working simulated EC it always succeeds, and writes the new level
    /// of the least such fan and no other register.
    pub fn update_curve_fans(&mut self) -> (r: Result<Vec<String>, String>)
        ensures
            final(self).curves() == old(self).curves(),
            io_frame(*old(self), *final(self)),
            ({
                let t = Self::new_txns(old(self), final(self));
                if !old(self).allows_writes() {
                    &&& t.len() == 0
                    &&& final(self).port_log() == old(self).port_log()
                    &&& r matches Ok(m) && m@.len() == 0
                } else {
                    &&& t.len() >= 1 ==> is_read_of(t[0], EC_REG_APU_TEMPERATURE)
                    &&& r matches Ok(m) ==> t.len() >= 1 && scan_ok(
                        old(self).curves(),
                        txn_value(t[0]),
                        t.skip(1),
                        0,
                        m@.map_values(|s: String| s@),
                    )
                    &&& r is Err ==> t.len() == 0 || scan_failed(old(self).curves(), txn_value(t[0]), t.skip(1), 0)
                }
            }),
            r is Err ==> final(self).trouble() > old(self).trouble(),
            old(self).allows_writes() && old(self).io().simulated() is Some && !old(self).io().simulated()->0.ibf_stuck
                && old(self).io().simulated()->0.registers.len() == 256 ==> {
                let regs = old(self).io().simulated()->0.registers;
                let temp = regs[EC_REG_APU_TEMPERATURE as int];
                let after = final(self).io().simulated()->0.registers;
                &&& r is Ok
                &&& match first_mover(old(self).curves(), temp, regs, 0) {
                    Some(f) => after == regs.update(
                        level_reg_of_index(f) as int,
                        level_byte((f + 1) as u8, next_in(old(self).curves(), temp, regs, f)),
                    ) && r->Ok_0@.len() == 1,
                    None => after == regs && r->Ok_0@.len() == 0,
                }
            },
    {
        let ghost pre = *self;
        let r = self.scan_curve_fans();
        proof {
            if pre.allows_writes() && pre.io().simulated() is Some && !pre.io().simulated()->0.ibf_stuck
                && pre.io().simulated()->0.registers.len() == 256 {
                let m = pre.io().simulated()->0;
                let t = Self::new_txns(&pre, self);
                assert(r is Ok);
                let msgs = r->Ok_0@.map_values(|s: String| s@);
                let first = seq![t[0]];
                let rest = t.skip(1);
                assert(t =~= first + rest);
                assert(first =~= Seq::<EcTxn>::empty().push(t[0]));
                lemma_model_after_push(m, Seq::<EcTxn>::empty(), t[0]);
                lemma_model_after_concat(m, first, rest);
                let m1 = txn_step(m, t[0]);
                lemma_scan_on_model(pre.curves(), txn_value(t[0]), rest, 0, msgs, m1);
            }
        }
        r
    }

    /// One step of curve control, as transactions: the temperature read,
    /// then the scan of the curve fans.
    fn scan_curve_fans(&mut self) -> (r: Result<Vec<String>, String>)
        ensures
            final(self).curves() == old(self).curves(),
            io_frame(*old(self), *final(self)),
            ({
                let t = Self::new_txns(old(self), final(self));
                if !old(self).allows_writes() {
                    &&& t.len() == 0
                    &&& final(self).port_log() == old(self).port_log()
                    &&& r matches Ok(m) && m@.len() == 0
                } else {
                    &&& t.len() >= 1 ==> is_read_of(t[0], EC_REG_APU_TEMPERATURE)
                    &&& r matches Ok(m) ==> t.len() >= 1 && scan_ok(
                        old(self).curves(),
                        txn_value(t[0]),
                        t.skip(1),
                        0,
                        m@.map_values(|s: String| s@),
                    )
                    &&& r is Err ==> t.len() == 0 || scan_failed(old(self).curves(), txn_value(t[0]), t.skip(1), 0)
                }
            }),
            r is Err ==> final(self).trouble() > old(self).trouble(),
    {
        let ghost pre = *self;
        if !self.writes_allowed {
            let empty: Vec<String> = Vec::new();
            assert(Self::new_txns(&pre, self) =~= Seq::<EcTxn>::empty());
            return Ok(empty);
        }
        let temp = match self.read_byte(EC_REG_APU_TEMPERATURE) {
            Ok(v) => v,
            Err(e) => {
                assert(Self::new_txns(&pre, self) =~= Seq::<EcTxn>::empty());
                return Err(e);
            },
        };
        let ghost curves = pre.curves();
        let ghost a = self.txns().len() as int;
        assert(Self::new_txns(&pre, self)[0] == EcTxn::ReadByte { register: EC_REG_APU_TEMPERATURE, value: temp });
        let ghost s0 = *self;
        let r1 = self.scan_fan(1, temp);
        let ghost s1 = Self::new_txns(&s0, self);
        proof {
            lemma_io_frame_trans(pre, s0, *self);
            assert(Self::new_txns(&pre, self) =~= seq![EcTxn::ReadByte { register: EC_REG_APU_TEMPERATURE, value: temp }] + s1);
            assert(Self::new_txns(&pre, self).skip(1) =~= s1);
        }
        match r1 {
            Ok(Some(m)) => {
                let out = vec![m];
                assert(out@.map_values(|s: String| s@) =~= seq![m@]);
                return Ok(out);
            },
            Ok(None) => {},
            Err(e) => {
                return Err(e);
            },
        }
        let ghost s1_state = *self;
        let r2 = self.scan_fan(2, temp);
        let ghost s2 = Self::new_txns(&s1_state, self);
        proof {
            lemma_io_frame_trans(pre, s1_state, *self);
            assert(Self::new_txns(&pre, self).skip(1) =~= s1 + s2);
        }
        match r2 {
            Ok(Some(m)) => {
                let out = vec![m];
                proof {
                    assert(out@.map_values(|s: String| s@) =~= seq![m@]);
                    lemma_scan_ok_step(curves, temp, s1, s2, 0, seq![m@]);
                }
                return Ok(out);
            },
            Ok(None) => {},
            Err(e) => {
                proof {
                    lemma_scan_failed_step(curves, temp, s1, s2, 0);
                }
                return Err(e);
            },
        }
        let ghost s2_state = *self;
        let r3 = self.scan_fan(3, temp);
        let ghost s3 = Self::new_txns(&s2_state, self);
        proof {
            lemma_io_frame_trans(pre, s2_state, *self);
            assert(Self::new_txns(&pre, self).skip(1) =~= s1 + (s2 + s3));
        }
        match r3 {
            Ok(Some(m)) => {
                let out = vec![m];
                proof {
                    assert(out@.map_values(|s: String| s@) =~= seq![m@]);
                    lemma_scan_ok_step(curves, temp, s2, s3, 1, seq![m@]);
                    lemma_scan_ok_step(curves, temp, s1, s2 + s3, 0, seq![m@]);
                }
                return Ok(out);
            },
            Ok(None) => {},
            Err(e) => {
                proof {
                    lemma_scan_failed_step(curves, temp, s2, s3, 1);
                    lemma_scan_failed_step(curves, temp, s1, s2 + s3, 0);
                }
                return Err(e);
            },
        }
        let out: Vec<String> = Vec::new();
        proof {
            let nil = Seq::<EcTxn>::empty();
            assert(scan_ok(curves, temp, nil, 3, Seq::empty()));
            lemma_scan_ok_step(curves, temp, s3, nil, 2, Seq::empty());
            assert(s3 + nil =~= s3);
            lemma_scan_ok_step(curves, temp, s2, s3, 1, Seq::empty());
            lemma_scan_ok_step(curves, temp, s1, s2 + s3, 0, Seq::empty());
            assert(out@.map_values(|s: String| s@) =~= Seq::<Seq<char>>::empty());
        }
        Ok(out)
    }
}

/// `Invalid fan ID: <id>`.
fn invalid_fan_error(fan_id: u8) -> (r: String)
    ensures
        r@ == invalid_fan_msg(fan_id),
{
    let mut message = owned("Invalid fan ID: ");
    push_dec(&mut message, fan_id as u32);
    message
}

/// Level that a level-register byte stands for.
pub fn decode_fan_level(level_val: u8) -> (r: u8)
    ensures
        r == decode_level_spec(level_val),
        r <= 5,
{
    match level_val & 0xF {
        0x7 => 0,
        0x2 => 1,
        0x3 => 2,
        0x4 => 3,
        0x5 => 4,
        0x6 => 5,
        _ => 0,
    }
}

/// Firmware 1.04 or newer is supported.
pub fn firmware_supported(major: u8, minor: u8) -> (r: bool)
    ensures
        r == firmware_supported_spec(major, minor),
{
    major > MIN_FIRMWARE_MAJOR || (major == MIN_FIRMWARE_MAJOR && minor >= MIN_FIRMWARE_MINOR)
}

/// Why firmware `major.minor` is refused.
pub fn unsupported_firmware_message(major: u8, minor: u8) -> (r: String)
    ensures
        r@ == firmware_msg(major, minor),
{
    let mut message = owned("Unsupported EC firmware ");
    push_dec(&mut message, major as u32);
    push_str(&mut message, ".");
    push_dec2(&mut message, minor as u32);
    push_str(&mut message, ". This software requires EC firmware ");
    push_dec(&mut message, MIN_FIRMWARE_MAJOR as u32);
    push_str(&mut message, ".");
    push_dec2(&mut message, MIN_FIRMWARE_MINOR as u32);
    push_str(&mut message, " or higher.");
    proof {
        reveal_strlit("Unsupported EC firmware ");
        reveal_strlit(".");
        reveal_strlit(". This software requires EC firmware ");
        reveal_strlit(" or higher.");
        reveal_strlit(". This software requires EC firmware 1.04 or higher.");
    }
    message
}

/// `major.minor` with the minor number padded to two digits.
pub fn format_firmware_version(major: u8, minor: u8) -> (r: String)
    ensures
        r@ == dec(major as nat) + "."@ + dec2(minor as nat),
{
    let mut out = String::new();
    push_dec(&mut out, major as u32);
    push_str(&mut out, ".");
    push_dec2(&mut out, minor as u32);
    out
}

} // verus!
