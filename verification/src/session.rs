//! One running session's data: the status probed at start-up, per-fan and
//! overall readings, and the decisions taken while starting and restoring.
use vstd::prelude::*;
use crate::ec::{
    decode_level_spec, fan_mode_text, firmware_bytes_valid, format_firmware_version, io_frame,
    is_read_of, lemma_io_frame_trans, power_mode_from_value, power_mode_name, txn_value, valid_fan,
    EcController, EcOperation, EcResult, EcTxn, FanMode, EC_REG_APU_POWER_MODE,
    EC_REG_FIRMWARE_MAJOR, EC_REG_FIRMWARE_MINOR, invalid_fan_msg, unsupported_msg,
    fan_mode_from_name, power_mode_from_name, power_mode_value, curve_in_range, FanCurveData,
    PowerMode, lemma_io_frame_refl, EC_REG_APU_TEMPERATURE, fan_mode_reg, level_byte, mode_byte,
    fan_speed_regs, rpm_spec,
};
use crate::text::hex2;
use crate::ec_io::EcIoBackend;
use crate::config::{
    copy_opt, copy_opt_fan, default_fan_spec, fan_of, fan_parts, opt_fan_view, opt_view, sanitize_opt,
    sanitize_opt_name, FanConfig, FanModel, ServerConfig, ServerModel,
};
use crate::logger::LogLevel;
use crate::hardware::{summary_spec, supported_spec, HardwareIdentity};
use crate::text::{dec, dec2, owned, push_dec, push_str};
use crate::thermal::{resolve_spec, resolve_with_source, TemperatureSource};
use crate::pawnio::PAWNIO_MISSING_MESSAGE;
use crate::text::str_contains;
use crate::text::contains;

verus! {

/// What was found at start-up.
#[derive(Debug, Clone)]
pub struct RuntimeStatus {
    pub pawnio: String,
    pub lpcacpiec: String,
    pub secure_boot: String,
    pub hardware: String,
    pub hardware_supported: bool,
}

/// One fan's state as read from the EC.
#[derive(Debug, Clone)]
pub struct FanSnapshot {
    pub mode: String,
    pub level: u8,
    pub rpm: u16,
    pub rampup_curve: [u8; 5],
    pub rampdown_curve: [u8; 5],
}

/// Everything the window shows on each refresh.
#[derive(Debug, Clone)]
pub struct MetricsSnapshot {
    pub power_mode: String,
    pub temperature: u8,
    pub temperature_source: TemperatureSource,
    pub gpu_temp: Option<u8>,
    pub cpu_temp: Option<u8>,
    pub soc_temp: Option<u8>,
    pub hotspot_temp: Option<u8>,
    pub ec_raw_temp: u8,
    pub fans: [FanSnapshot; 3],
}

/// How a session is started.
#[derive(Debug, Clone, Copy)]
pub struct StartOptions {
    pub service_mode: bool,
    pub exclusive: bool,
    pub restore: bool,
    pub quiet: bool,
    pub monitor_curves: bool,
}

/// Translation key of a temperature source's name.
pub open spec fn source_key(s: TemperatureSource) -> Seq<char> {
    match s {
        TemperatureSource::Gpu => "temp_src_gpu"@,
        TemperatureSource::Adl => "temp_src_adl"@,
        TemperatureSource::Ec => "temp_src_ec"@,
    }
}

/// The start-up status from what was probed.
pub fn runtime_status(
    pawnio_connected: bool,
    lpcacpiec_loaded: bool,
    secure_boot: &str,
    hardware: &HardwareIdentity,
) -> (r: RuntimeStatus)
    ensures
        r.pawnio@ == (if pawnio_connected { "connected"@ } else { "unavailable"@ }),
        r.lpcacpiec@ == (if lpcacpiec_loaded { "loaded"@ } else { "not loaded"@ }),
        r.secure_boot@ == secure_boot@,
        r.hardware@ == summary_spec(*hardware),
        r.hardware_supported == supported_spec(*hardware),
{
    RuntimeStatus {
        pawnio: if pawnio_connected { owned("connected") } else { owned("unavailable") },
        lpcacpiec: if lpcacpiec_loaded { owned("loaded") } else { owned("not loaded") },
        secure_boot: owned(secure_boot),
        hardware: hardware.summary(),
        hardware_supported: hardware.is_supported_axb35(),
    }
}

/// Register transactions performed between two states of a controller.
pub open spec fn txns_since<B: EcIoBackend>(pre: EcController<B>, post: EcController<B>) -> Seq<EcTxn> {
    post.txns().skip(pre.txns().len() as int)
}

/// A register read whose byte names no power mode (from the power-mode
/// register) or no fan mode (from a fan's mode register).
pub open spec fn undecodable_reply(t: EcTxn) -> bool {
    match t {
        EcTxn::ReadByte { register, value } => {
            ||| register == EC_REG_APU_POWER_MODE && power_mode_from_value(value) is None
            ||| exists|fan_id: u8|
                valid_fan(fan_id) && fan_mode_reg(fan_id) == Some(register) && fan_mode_text(
                    value,
                    FanMode::Auto,
                ) is None
        },
        EcTxn::WriteByte { .. } => false,
    }
}

/// Reads the current power mode's name.
pub fn power_mode<B: EcIoBackend>(c: &mut EcController<B>) -> (r: Result<String, String>)
    ensures
        io_frame(*old(c), *final(c)),
        final(c).curves() == old(c).curves(),
        ({
            let t = txns_since(*old(c), *final(c));
            &&& t.len() <= 1
            &&& r is Ok <==> (t.len() == 1 && power_mode_from_value(txn_value(t[0])) is Some)
            &&& r matches Ok(s) ==> is_read_of(t[0], EC_REG_APU_POWER_MODE) && s@ == power_mode_name(
                power_mode_from_value(txn_value(t[0]))->0,
            )
            &&& t.len() == 1 ==> is_read_of(t[0], EC_REG_APU_POWER_MODE)
            &&& r matches Err(e) ==> t.len() == 1 ==> e@ == "Unknown power mode: 0x"@ + hex2(txn_value(t[0]) as nat)
            &&& t.len() < 1 ==> final(c).trouble() > old(c).trouble()
        }),
{
    match c.execute_operation(EcOperation::GetApuPowerMode) {
        Ok(EcResult::ApuPowerMode(mode)) => Ok(mode),
        Ok(_) => Err(owned("Unexpected power mode response")),
        Err(e) => Err(e),
    }
}

/// Reads the firmware version as text (`1.04`).
pub fn firmware_version<B: EcIoBackend>(c: &mut EcController<B>) -> (r: Result<String, String>)
    ensures
        io_frame(*old(c), *final(c)),
        final(c).curves() == old(c).curves(),
        ({
            let t = txns_since(*old(c), *final(c));
            &&& t.len() <= 2
            &&& r is Ok <==> (t.len() == 2 && firmware_bytes_valid(txn_value(t[0]), txn_value(t[1])))
            &&& r matches Ok(s) ==> is_read_of(t[0], EC_REG_FIRMWARE_MAJOR) && is_read_of(
                t[1],
                EC_REG_FIRMWARE_MINOR,
            ) && s@ == dec(txn_value(t[0]) as nat) + "."@ + dec2(txn_value(t[1]) as nat)
            &&& r matches Err(e) ==> t.len() == 2 ==> e@ == "Invalid firmware version detected"@
            &&& t.len() < 2 ==> final(c).trouble() > old(c).trouble()
        }),
{
    match c.execute_operation(EcOperation::GetFirmwareVersion) {
        Ok(EcResult::FirmwareVersion { major, minor }) => Ok(format_firmware_version(major, minor)),
        Ok(_) => Err(owned("Unexpected firmware response")),
        Err(e) => Err(e),
    }
}

/// A fan's snapshot agrees with the controller's curve state for that fan:
/// the curves are the stored ones, the level is 0 to 5, and the mode is
/// `auto` or the manual mode the controller tracks.
pub open spec fn snapshot_read(s: FanSnapshot, cd: crate::ec::FanCurveData, fan_id: u8, t: Seq<EcTxn>) -> bool {
    let mreg = fan_mode_reg(fan_id)->0;
    let speed = fan_speed_regs(fan_id)->0;
    &&& t.len() == 4
    &&& is_read_of(t[0], mreg)
    &&& fan_mode_text(txn_value(t[0]), cd.mode) == Some(s.mode@)
    &&& is_read_of(t[1], (mreg + 1) as u8)
    &&& s.level == decode_level_spec(txn_value(t[1]))
    &&& is_read_of(t[2], speed.0)
    &&& is_read_of(t[3], speed.1)
    &&& s.rpm == rpm_spec(fan_id, txn_value(t[2]), txn_value(t[3]))
    &&& s.rampup_curve@ == cd.rampup_curve@
    &&& s.rampdown_curve@ == cd.rampdown_curve@
}

fn failed_to_get(fan_id: u8, what: &str) -> (r: String)
    ensures
        r@ == "Failed to get Fan"@ + dec(fan_id as nat) + " "@ + what@,
{
    let mut e = owned("Failed to get Fan");
    push_dec(&mut e, fan_id as u32);
    push_str(&mut e, " ");
    push_str(&mut e, what);
    e
}

/// Why a read of the EC failed: something went wrong in port I/O (a failed
/// port operation or a wait that timed out), or the last register read
/// returned a mode byte that names no mode.
pub open spec fn failed_on_ec<B: EcIoBackend>(pre: EcController<B>, post: EcController<B>) -> bool {
    let t = txns_since(pre, post);
    ||| post.trouble() > pre.trouble()
    ||| t.len() > 0 && undecodable_reply(t.last())
}

/// Reads one fan's mode, level, speed and curves.
pub fn fan_snapshot<B: EcIoBackend>(c: &mut EcController<B>, fan_id: u8) -> (r: Result<FanSnapshot, String>)
    ensures
        io_frame(*old(c), *final(c)),
        final(c).curves() == old(c).curves(),
        !valid_fan(fan_id) ==> (r matches Err(e) && e@ == invalid_fan_msg(fan_id) && final(c).port_log()
            == old(c).port_log()),
        r matches Ok(s) ==> valid_fan(fan_id) && snapshot_read(
            s,
            old(c).curves()[fan_id - 1],
            fan_id,
            txns_since(*old(c), *final(c)),
        ),
        r is Err && valid_fan(fan_id) ==> failed_on_ec(*old(c), *final(c)),
{
    let ghost s0 = *c;
    let mode = match c.execute_operation(EcOperation::GetFanMode(fan_id)) {
        Ok(EcResult::FanMode(m)) => m,
        Ok(_) => return Err(failed_to_get(fan_id, "mode")),
        Err(e) => return Err(e),
    };
    let ghost s1 = *c;
    let level = match c.execute_operation(EcOperation::GetFanLevel(fan_id)) {
        Ok(EcResult::FanLevel(l)) => l,
        Ok(_) => {
            proof { lemma_io_frame_trans(s0, s1, *c); }
            return Err(failed_to_get(fan_id, "level"));
        },
        Err(e) => {
            proof { lemma_io_frame_trans(s0, s1, *c); }
            return Err(e);
        },
    };
    proof { lemma_io_frame_trans(s0, s1, *c); }
    let ghost s2 = *c;
    let rpm = match c.execute_operation(EcOperation::GetFanRpm(fan_id)) {
        Ok(EcResult::FanRpm(v)) => v,
        Ok(_) => {
            proof { lemma_io_frame_trans(s0, s2, *c); }
            return Err(failed_to_get(fan_id, "RPM"));
        },
        Err(e) => {
            proof { lemma_io_frame_trans(s0, s2, *c); }
            return Err(e);
        },
    };
    proof { lemma_io_frame_trans(s0, s2, *c); }
    let ghost s3 = *c;
    let rampup_curve = match c.execute_operation(EcOperation::GetFanRampupCurve(fan_id)) {
        Ok(EcResult::FanRampupCurve(v)) => v,
        Ok(_) => {
            proof { lemma_io_frame_trans(s0, s3, *c); }
            return Err(failed_to_get(fan_id, "rampup curve"));
        },
        Err(e) => {
            proof { lemma_io_frame_trans(s0, s3, *c); }
            return Err(e);
        },
    };
    proof { lemma_io_frame_trans(s0, s3, *c); }
    let ghost s4 = *c;
    let rampdown_curve = match c.execute_operation(EcOperation::GetFanRampdownCurve(fan_id)) {
        Ok(EcResult::FanRampdownCurve(v)) => v,
        Ok(_) => {
            proof { lemma_io_frame_trans(s0, s4, *c); }
            return Err(failed_to_get(fan_id, "rampdown curve"));
        },
        Err(e) => {
            proof { lemma_io_frame_trans(s0, s4, *c); }
            return Err(e);
        },
    };
    proof {
        let s5 = *c;
        lemma_io_frame_trans(s0, s4, *c);
        lemma_txns_since_concat(s0, s1, s2);
        lemma_io_frame_trans(s0, s1, s2);
        lemma_txns_since_concat(s0, s2, s3);
        lemma_io_frame_trans(s0, s2, s3);
        lemma_txns_since_concat(s0, s3, s4);
        lemma_txns_since_concat(s0, s4, s5);
        let a = txns_since(s0, s1);
        let b = txns_since(s1, s2);
        let d = txns_since(s2, s3);
        assert(txns_since(s3, s4) =~= Seq::<EcTxn>::empty());
        assert(txns_since(s4, s5) =~= Seq::<EcTxn>::empty());
        assert(txns_since(s0, s5) =~= a + b + d);
    }
    Ok(FanSnapshot { mode, level, rpm, rampup_curve, rampdown_curve })
}

/// One setting of a fan in the configuration.
pub enum FanField {
    Mode(String),
    Level(u8),
    Rampup([u8; 5]),
    Rampdown([u8; 5]),
    Name(Option<String>),
}

pub enum FanFieldModel {
    Mode(Seq<char>),
    Level(u8),
    Rampup(Seq<u8>),
    Rampdown(Seq<u8>),
    Name(Option<Seq<char>>),
}

pub open spec fn field_view(f: FanField) -> FanFieldModel {
    match f {
        FanField::Mode(m) => FanFieldModel::Mode(m@),
        FanField::Level(l) => FanFieldModel::Level(l),
        FanField::Rampup(c) => FanFieldModel::Rampup(c@),
        FanField::Rampdown(c) => FanFieldModel::Rampdown(c@),
        FanField::Name(n) => FanFieldModel::Name(opt_view(n)),
    }
}

pub open spec fn set_field(f: FanModel, field: FanFieldModel) -> FanModel {
    match field {
        FanFieldModel::Mode(m) => FanModel { mode: m, ..f },
        FanFieldModel::Level(l) => FanModel { level: l, ..f },
        FanFieldModel::Rampup(c) => FanModel { rampup: c, ..f },
        FanFieldModel::Rampdown(c) => FanModel { rampdown: c, ..f },
        FanFieldModel::Name(n) => FanModel { name: n, ..f },
    }
}

/// A configuration with one fan setting changed. A fan without saved
/// settings gets the factory settings of the first fan first; an unknown fan
/// changes nothing.
pub open spec fn update_fan_spec(c: ServerModel, fan_id: u8, field: FanFieldModel) -> ServerModel {
    let fill = |o: Option<FanModel>| match o {
        Some(f) => f,
        None => default_fan_spec(1),
    };
    if fan_id == 1 {
        ServerModel { fan1: Some(set_field(fill(c.fan1), field)), ..c }
    } else if fan_id == 2 {
        ServerModel { fan2: Some(set_field(fill(c.fan2), field)), ..c }
    } else if fan_id == 3 {
        ServerModel { fan3: Some(set_field(fill(c.fan3), field)), ..c }
    } else {
        c
    }
}

fn apply_field(slot: &mut Option<FanConfig>, field: FanField)
    ensures
        crate::config::opt_fan_view(*final(slot)) == Some(set_field(
            match crate::config::opt_fan_view(*old(slot)) {
                Some(f) => f,
                None => default_fan_spec(1),
            },
            field_view(field),
        )),
{
    let mut fan = match slot.take() {
        Some(f) => f,
        None => FanConfig::default(),
    };
    match field {
        FanField::Mode(m) => {
            fan.mode = m;
        },
        FanField::Level(l) => {
            fan.level = l;
        },
        FanField::Rampup(c) => {
            fan.rampup_curve = c;
        },
        FanField::Rampdown(c) => {
            fan.rampdown_curve = c;
        },
        FanField::Name(n) => {
            fan.name = n;
        },
    }
    *slot = Some(fan);
}

/// Changes one setting of one fan in the configuration.
pub fn update_fan_config(config: &mut ServerConfig, fan_id: u8, field: FanField)
    ensures
        final(config)@ == update_fan_spec(old(config)@, fan_id, field_view(field)),
{
    match fan_id {
        1 => apply_field(&mut config.fan1, field),
        2 => apply_field(&mut config.fan2, field),
        3 => apply_field(&mut config.fan3, field),
        _ => {},
    }
}

/// Gives a fan a custom name (sanitised; `None` clears it).
pub fn set_fan_name(config: &mut ServerConfig, fan_id: u8, name: Option<String>)
    ensures
        final(config)@ == update_fan_spec(old(config)@, fan_id, FanFieldModel::Name(sanitize_opt(opt_view(name)))),
{
    let clean = sanitize_opt_name(&name);
    update_fan_config(config, fan_id, FanField::Name(clean));
}

/// The call failed with exactly this message.
pub open spec fn err_is<T>(r: Result<T, String>, msg: Seq<char>) -> bool {
    r matches Err(e) && e@ == msg
}

/// No port traffic, and the fan state unchanged.
pub open spec fn untouched<B: EcIoBackend>(pre: EcController<B>, post: EcController<B>) -> bool {
    post.port_log() == pre.port_log() && post.curves() == pre.curves()
}

/// The controller's fan state after a fan's mode is set to `mode`.
pub open spec fn curves_with_mode(curves: Seq<FanCurveData>, fan_id: u8, mode: Seq<char>) -> Seq<FanCurveData> {
    curves.update(fan_id - 1, FanCurveData { mode: fan_mode_from_name(mode)->0, ..curves[fan_id - 1] })
}

/// Sets a fan's mode; on success the configuration records it.
/// The write of `value` to `register` is among the transactions completed
/// between `pre` and `post`, or the EC gave trouble on the way.
pub open spec fn write_attempted<B: EcIoBackend>(pre: EcController<B>, post: EcController<B>, register: u8, value: u8) -> bool {
    ||| exists|k: int|
        pre.txns().len() <= k < post.txns().len() && #[trigger] post.txns()[k] == (EcTxn::WriteByte { register, value })
    ||| post.trouble() > pre.trouble()
}

/// A write attempted in the middle of a run of commands was attempted in the
/// whole run.
pub proof fn lemma_write_attempted_widen<B: EcIoBackend>(
    a: EcController<B>,
    b: EcController<B>,
    c: EcController<B>,
    d: EcController<B>,
    register: u8,
    value: u8,
)
    requires
        io_frame(a, b),
        io_frame(b, c),
        io_frame(c, d),
        write_attempted(b, c, register, value),
    ensures
        write_attempted(a, d, register, value),
{
    if c.trouble() <= b.trouble() {
        let k = choose|k: int|
            b.txns().len() <= k < c.txns().len() && #[trigger] c.txns()[k] == (EcTxn::WriteByte { register, value });
        assert(d.txns()[k] == c.txns()[k]);
    }
}

pub fn set_fan_mode<B: EcIoBackend>(c: &mut EcController<B>, config: &mut ServerConfig, fan_id: u8, mode: &str) -> (r: Result<String, String>)
    ensures
        io_frame(*old(c), *final(c)),
        !old(c).allows_writes() ==> untouched(*old(c), *final(c)) && err_is(r, unsupported_msg(old(c).identity())),
        old(c).allows_writes() && !valid_fan(fan_id) ==> untouched(*old(c), *final(c)) && err_is(r, invalid_fan_msg(fan_id)),
        old(c).allows_writes() && valid_fan(fan_id) && fan_mode_from_name(mode@) is None ==> untouched(
            *old(c),
            *final(c),
        ) && err_is(r, "Invalid fan mode: "@ + mode@),
        old(c).allows_writes() && valid_fan(fan_id) && fan_mode_from_name(mode@) is Some ==> final(c).curves()
            == curves_with_mode(old(c).curves(), fan_id, mode@) && write_attempted(
            *old(c),
            *final(c),
            fan_mode_reg(fan_id)->0,
            mode_byte(fan_id, fan_mode_from_name(mode@)->0),
        ),
        old(c).allows_writes() && valid_fan(fan_id) && fan_mode_from_name(mode@) is Some && r is Err
            ==> final(c).trouble() > old(c).trouble(),
        r matches Ok(applied) ==> applied@ == mode@ && final(config)@ == update_fan_spec(
            old(config)@,
            fan_id,
            FanFieldModel::Mode(mode@),
        ),
        r is Err ==> final(config)@ == old(config)@,
{
    match c.execute_operation(EcOperation::SetFanMode(fan_id, owned(mode))) {
        Ok(EcResult::FanMode(applied)) => {
            update_fan_config(config, fan_id, FanField::Mode(owned(applied.as_str())));
            Ok(applied)
        },
        Ok(_) => Err(owned("Unexpected fan mode response")),
        Err(e) => Err(e),
    }
}

/// Sets a fan's fixed level; on success the configuration records it.
pub fn set_fan_level<B: EcIoBackend>(c: &mut EcController<B>, config: &mut ServerConfig, fan_id: u8, level: u8) -> (r: Result<u8, String>)
    ensures
        io_frame(*old(c), *final(c)),
        final(c).curves() == old(c).curves(),
        !old(c).allows_writes() ==> untouched(*old(c), *final(c)) && err_is(r, unsupported_msg(old(c).identity())),
        old(c).allows_writes() && level > 5 ==> untouched(*old(c), *final(c)) && err_is(r, "Fan level must be 0-5"@),
        old(c).allows_writes() && level <= 5 && !valid_fan(fan_id) ==> untouched(*old(c), *final(c))
            && err_is(r, invalid_fan_msg(fan_id)),
        old(c).allows_writes() && level <= 5 && valid_fan(fan_id) ==> write_attempted(
            *old(c),
            *final(c),
            (fan_mode_reg(fan_id)->0 + 1) as u8,
            level_byte(fan_id, level),
        ),
        old(c).allows_writes() && level <= 5 && valid_fan(fan_id) && r is Err ==> final(c).trouble() > old(
            c,
        ).trouble(),
        r matches Ok(applied) ==> applied == level && final(config)@ == update_fan_spec(
            old(config)@,
            fan_id,
            FanFieldModel::Level(level),
        ),
        r is Err ==> final(config)@ == old(config)@,
{
    match c.execute_operation(EcOperation::SetFanLevel(fan_id, level)) {
        Ok(EcResult::FanLevel(applied)) => {
            update_fan_config(config, fan_id, FanField::Level(applied));
            Ok(applied)
        },
        Ok(_) => Err(owned("Unexpected fan level response")),
        Err(e) => Err(e),
    }
}

/// The controller's fan state after a curve is set: only the chosen curve
/// of the chosen fan changes.
pub open spec fn curves_with_curve(curves: Seq<FanCurveData>, fan_id: u8, curve: [u8; 5], up: bool) -> Seq<FanCurveData> {
    let cd = curves[fan_id - 1];
    curves.update(
        fan_id - 1,
        if up {
            FanCurveData { rampup_curve: curve, ..cd }
        } else {
            FanCurveData { rampdown_curve: curve, ..cd }
        },
    )
}

/// Sets a fan's ramp-up (`up`) or ramp-down curve; on success the
/// configuration records it. Curves are kept by the program, not the EC.
pub fn set_fan_curve<B: EcIoBackend>(c: &mut EcController<B>, config: &mut ServerConfig, fan_id: u8, curve: [u8; 5], up: bool) -> (r: Result<[u8; 5], String>)
    ensures
        io_frame(*old(c), *final(c)),
        final(c).port_log() == old(c).port_log(),
        !valid_fan(fan_id) ==> untouched(*old(c), *final(c)) && err_is(r, invalid_fan_msg(fan_id)),
        valid_fan(fan_id) && !curve_in_range(curve@) ==> untouched(*old(c), *final(c)) && err_is(r, "Temperature values must be 0-100°C"@),
        valid_fan(fan_id) && curve_in_range(curve@) ==> final(c).curves() == curves_with_curve(
            old(c).curves(),
            fan_id,
            curve,
            up,
        ) && r == Ok::<[u8; 5], String>(curve),
        r matches Ok(applied) ==> applied == curve && final(config)@ == update_fan_spec(
            old(config)@,
            fan_id,
            if up { FanFieldModel::Rampup(curve@) } else { FanFieldModel::Rampdown(curve@) },
        ),
        r is Err ==> final(config)@ == old(config)@,
{
    if up {
        match c.execute_operation(EcOperation::SetFanRampupCurve(fan_id, curve)) {
            Ok(EcResult::FanRampupCurve(applied)) => {
                update_fan_config(config, fan_id, FanField::Rampup(applied));
                Ok(applied)
            },
            Ok(_) => Err(owned("Unexpected rampup response")),
            Err(e) => Err(e),
        }
    } else {
        match c.execute_operation(EcOperation::SetFanRampdownCurve(fan_id, curve)) {
            Ok(EcResult::FanRampdownCurve(applied)) => {
                update_fan_config(config, fan_id, FanField::Rampdown(applied));
                Ok(applied)
            },
            Ok(_) => Err(owned("Unexpected rampdown response")),
            Err(e) => Err(e),
        }
    }
}

/// Transactions of two steps in a row are those of the first, then the second.
pub proof fn lemma_txns_since_concat<B: EcIoBackend>(a: EcController<B>, b: EcController<B>, c: EcController<B>)
    requires
        io_frame(a, b),
        io_frame(b, c),
    ensures
        txns_since(a, c) == txns_since(a, b) + txns_since(b, c),
{
    assert(txns_since(a, c) =~= txns_since(a, b) + txns_since(b, c));
}

proof fn lemma_power_mode_name_of_name(s: Seq<char>)
    requires
        power_mode_from_name(s) is Some,
    ensures
        power_mode_name(power_mode_from_name(s)->0) == s,
{
}

pub open spec fn power_change_msg(previous: Seq<char>, applied: Seq<char>) -> Seq<char> {
    "power mode changed: "@ + previous + " -> "@ + applied
}

/// Sets the power mode, first reading the current one for the log. On
/// success the configuration records the new mode, and the log line names
/// the previous mode when it could be read.
pub fn set_power_mode<B: EcIoBackend>(c: &mut EcController<B>, config: &mut ServerConfig, mode: &str) -> (r: Result<(String, Option<String>), String>)
    ensures
        io_frame(*old(c), *final(c)),
        final(c).curves() == old(c).curves(),
        !old(c).allows_writes() ==> err_is(r, unsupported_msg(old(c).identity())),
        old(c).allows_writes() && power_mode_from_name(mode@) is None ==> err_is(r, "Invalid power mode: "@ + mode@),
        old(c).allows_writes() && power_mode_from_name(mode@) is Some ==> write_attempted(
            *old(c),
            *final(c),
            EC_REG_APU_POWER_MODE,
            power_mode_value(power_mode_from_name(mode@)->0),
        ),
        r is Err ==> final(config)@ == old(config)@,
        r matches Ok(x) ==> ({
            let t = txns_since(*old(c), *final(c));
            let pm = power_mode_from_name(mode@)->0;
            &&& power_mode_from_name(mode@) is Some
            &&& x.0@ == mode@
            &&& final(config)@ == (ServerModel { apu_power_mode: Some(mode@), ..old(config)@ })
            &&& t.len() >= 1
            &&& t.last() == (EcTxn::WriteByte { register: EC_REG_APU_POWER_MODE, value: power_mode_value(pm) })
            &&& x.1 is Some <==> (t.len() == 2 && power_mode_from_value(txn_value(t[0])) is Some)
            &&& x.1 matches Some(l) ==> is_read_of(t[0], EC_REG_APU_POWER_MODE) && l@ == power_change_msg(
                power_mode_name(power_mode_from_value(txn_value(t[0]))->0),
                mode@,
            )
        }),
{
    let ghost s0 = *c;
    let previous = power_mode(c);
    let ghost s1 = *c;
    let result = c.execute_operation(EcOperation::SetApuPowerMode(owned(mode)));
    proof {
        lemma_io_frame_trans(s0, s1, *c);
        lemma_txns_since_concat(s0, s1, *c);
        if s0.allows_writes() && power_mode_from_name(mode@) is Some {
            if EcController::<B>::new_txns(&s1, c).len() == 1 {
                assert(c.txns()[s1.txns().len() as int] == EcController::<B>::new_txns(&s1, c)[0]);
            }
            lemma_io_frame_refl(*c);
            lemma_write_attempted_widen(s0, s1, *c, *c, EC_REG_APU_POWER_MODE, power_mode_value(power_mode_from_name(mode@)->0));
        }
    }
    match result {
        Ok(EcResult::ApuPowerMode(applied)) => {
            proof {
                lemma_power_mode_name_of_name(mode@);
            }
            let log = match previous {
                Ok(p) => {
                    let mut l = owned("power mode changed: ");
                    push_str(&mut l, p.as_str());
                    push_str(&mut l, " -> ");
                    push_str(&mut l, applied.as_str());
                    Some(l)
                },
                Err(_) => None,
            };
            config.apu_power_mode = Some(owned(applied.as_str()));
            Ok((applied, log))
        },
        Ok(_) => Err(owned("Unexpected power mode response")),
        Err(e) => Err(e),
    }
}

/// The configuration after an edit of one fan: the mode, then the level for
/// `fixed`, then the given curves for `curve`.
pub open spec fn edit_config_spec(c: ServerModel, fan_id: u8, mode: Seq<char>, level: u8, up: Option<[u8; 5]>, down: Option<[u8; 5]>) -> ServerModel {
    let c1 = update_fan_spec(c, fan_id, FanFieldModel::Mode(mode));
    let c2 = if mode == "fixed"@ { update_fan_spec(c1, fan_id, FanFieldModel::Level(level)) } else { c1 };
    let c3 = if mode == "curve"@ && up is Some { update_fan_spec(c2, fan_id, FanFieldModel::Rampup(up->0@)) } else { c2 };
    if mode == "curve"@ && down is Some { update_fan_spec(c3, fan_id, FanFieldModel::Rampdown(down->0@)) } else { c3 }
}

/// The controller's fan state after a successful edit.
pub open spec fn edit_curves_spec(curves: Seq<FanCurveData>, fan_id: u8, mode: Seq<char>, up: Option<[u8; 5]>, down: Option<[u8; 5]>) -> Seq<FanCurveData> {
    let k1 = curves_with_mode(curves, fan_id, mode);
    let k2 = if mode == "curve"@ && up is Some { curves_with_curve(k1, fan_id, up->0, true) } else { k1 };
    if mode == "curve"@ && down is Some { curves_with_curve(k2, fan_id, down->0, false) } else { k2 }
}

/// The configuration after the first `n` steps of an edit of one fan: the
/// mode, then the level for `fixed`, then each given curve for `curve`.
pub open spec fn edit_config_upto(
    c: ServerModel,
    fan_id: u8,
    mode: Seq<char>,
    level: u8,
    up: Option<[u8; 5]>,
    n: int,
) -> ServerModel {
    let c1 = update_fan_spec(c, fan_id, FanFieldModel::Mode(mode));
    let c2 = if mode == "fixed"@ { update_fan_spec(c1, fan_id, FanFieldModel::Level(level)) } else { c1 };
    let c3 = if mode == "curve"@ && up is Some { update_fan_spec(c2, fan_id, FanFieldModel::Rampup(up->0@)) } else { c2 };
    if n <= 0 {
        c
    } else if n == 1 {
        c1
    } else if n == 2 {
        c2
    } else {
        c3
    }
}

/// The controller's own complaint about an edit whose fan and mode it
/// accepts: a fixed level above 5, or a curve with a value above 100°C.
pub open spec fn edit_own_error(mode: Seq<char>, level: u8, up: Option<[u8; 5]>, down: Option<[u8; 5]>) -> Option<Seq<char>> {
    if mode == "fixed"@ && level > 5 {
        Some("Fan level must be 0-5"@)
    } else if mode == "curve"@ && up is Some && !curve_in_range(up->0@) {
        Some("Temperature values must be 0-100°C"@)
    } else if mode == "curve"@ && down is Some && !curve_in_range(down->0@) {
        Some("Temperature values must be 0-100°C"@)
    } else {
        None
    }
}

/// Applies an edit of one fan: its mode, then the level for `fixed`, then the
/// given curves for `curve`, stopping at the first failure. The
/// configuration records each step that succeeded.
pub fn apply_fan_edit<B: EcIoBackend>(
    c: &mut EcController<B>,
    config: &mut ServerConfig,
    fan_id: u8,
    mode: &str,
    level: u8,
    rampup: Option<[u8; 5]>,
    rampdown: Option<[u8; 5]>,
) -> (r: Result<(), String>)
    ensures
        io_frame(*old(c), *final(c)),
        !old(c).allows_writes() ==> untouched(*old(c), *final(c)) && err_is(r, unsupported_msg(old(c).identity()))
            && final(config)@ == old(config)@,
        old(c).allows_writes() && !valid_fan(fan_id) ==> untouched(*old(c), *final(c)) && err_is(r, invalid_fan_msg(fan_id))
            && final(config)@ == old(config)@,
        old(c).allows_writes() && valid_fan(fan_id) && fan_mode_from_name(mode@) is None ==> untouched(
            *old(c),
            *final(c),
        ) && err_is(r, "Invalid fan mode: "@ + mode@) && final(config)@ == old(config)@,
        old(c).allows_writes() && valid_fan(fan_id) && fan_mode_from_name(mode@) is Some ==> {
            let reg = fan_mode_reg(fan_id)->0;
            let own = edit_own_error(mode@, level, rampup, rampdown);
            &&& write_attempted(*old(c), *final(c), reg, mode_byte(fan_id, fan_mode_from_name(mode@)->0))
            &&& mode@ == "fixed"@ && level <= 5 ==> write_attempted(
                *old(c),
                *final(c),
                (reg + 1) as u8,
                level_byte(fan_id, level),
            )
            &&& r matches Err(e) ==> final(c).trouble() > old(c).trouble() || own == Some(e@)
            &&& own is Some && final(c).trouble() == old(c).trouble() ==> err_is(r, own->0)
            &&& r is Err ==> {
                ||| final(config)@ == old(config)@
                ||| final(config)@ == edit_config_upto(old(config)@, fan_id, mode@, level, rampup, 1)
                ||| final(config)@ == edit_config_upto(old(config)@, fan_id, mode@, level, rampup, 2)
                ||| final(config)@ == edit_config_upto(old(config)@, fan_id, mode@, level, rampup, 3)
            }
        },
        r is Ok ==> final(config)@ == edit_config_spec(old(config)@, fan_id, mode@, level, rampup, rampdown)
            && final(c).curves() == edit_curves_spec(old(c).curves(), fan_id, mode@, rampup, rampdown),
{
    let ghost s0 = *c;
    let ghost g0 = config@;
    let mut result: Result<(), String> = Ok(());
    match set_fan_mode(c, config, fan_id, mode) {
        Ok(_) => {},
        Err(e) => {
            result = Err(e);
        },
    }
    let ghost s1 = *c;
    let ghost g1 = config@;
    proof {
        lemma_io_frame_refl(s1);
    }
    let fixed = crate::text::str_eq(mode, "fixed");
    let curve = crate::text::str_eq(mode, "curve");
    if result.is_ok() && fixed {
        match set_fan_level(c, config, fan_id, level) {
            Ok(_) => {},
            Err(e) => {
                result = Err(e);
            },
        }
    }
    let ghost s2 = *c;
    let ghost g2 = config@;
    proof {
        lemma_io_frame_refl(s2);
    }
    if result.is_ok() && curve {
        if let Some(up) = rampup {
            match set_fan_curve(c, config, fan_id, up, true) {
                Ok(_) => {},
                Err(e) => {
                    result = Err(e);
                },
            }
        }
    }
    let ghost s3 = *c;
    let ghost g3 = config@;
    proof {
        lemma_io_frame_refl(s3);
    }
    if result.is_ok() && curve {
        if let Some(down) = rampdown {
            match set_fan_curve(c, config, fan_id, down, false) {
                Ok(_) => {},
                Err(e) => {
                    result = Err(e);
                },
            }
        }
    }
    proof {
        let s4 = *c;
        lemma_io_frame_trans(s0, s1, s2);
        lemma_io_frame_trans(s0, s2, s3);
        lemma_io_frame_trans(s0, s3, s4);
        lemma_io_frame_trans(s2, s3, s4);
        lemma_io_frame_trans(s1, s2, s4);
        lemma_io_frame_refl(s0);
        if s0.allows_writes() && valid_fan(fan_id) && fan_mode_from_name(mode@) is Some {
            let reg = fan_mode_reg(fan_id)->0;
            lemma_write_attempted_widen(s0, s0, s1, s4, reg, mode_byte(fan_id, fan_mode_from_name(mode@)->0));
            if mode@ == "fixed"@ && level <= 5 && s1.trouble() <= s0.trouble() {
                lemma_write_attempted_widen(s0, s1, s2, s4, (reg + 1) as u8, level_byte(fan_id, level));
            }
            reveal_strlit("fixed");
            reveal_strlit("curve");
            assert("fixed"@[0] != "curve"@[0]);
        }
    }
    result
}

/// The controller's fan state after one fan's saved settings (mode and
/// curves) are applied: its mode when the name is known, then each curve
/// whose values are in range.
pub open spec fn restored_curves(curves: Seq<FanCurveData>, fan_id: u8, mode: Seq<char>, up: [u8; 5], down: [u8; 5]) -> Seq<FanCurveData> {
    let k1 = if fan_mode_from_name(mode) is Some { curves_with_mode(curves, fan_id, mode) } else { curves };
    let k2 = if curve_in_range(up@) { curves_with_curve(k1, fan_id, up, true) } else { k1 };
    if curve_in_range(down@) { curves_with_curve(k2, fan_id, down, false) } else { k2 }
}

pub open spec fn restore_one(curves: Seq<FanCurveData>, fan_id: u8, p: Option<(Seq<char>, [u8; 5], [u8; 5])>) -> Seq<FanCurveData> {
    match p {
        Some(x) => restored_curves(curves, fan_id, x.0, x.1, x.2),
        None => curves,
    }
}

/// The controller's fan state after all saved fan settings are applied.
pub open spec fn restore_curves_spec(curves: Seq<FanCurveData>, c: ServerConfig) -> Seq<FanCurveData> {
    restore_one(restore_one(restore_one(curves, 1, fan_parts(c.fan1)), 2, fan_parts(c.fan2)), 3, fan_parts(c.fan3))
}

pub open spec fn log_views(v: Seq<(LogLevel, String)>) -> Seq<(LogLevel, Seq<char>)> {
    v.map_values(|e: (LogLevel, String)| (e.0, e.1@))
}

fn fan_not_found_msg(fan_id: u8) -> (r: String)
    ensures
        r@ == "Fan"@ + dec(fan_id as nat) + " configuration not found in config, leaving in original state"@,
{
    let mut m = owned("Fan");
    push_dec(&mut m, fan_id as u32);
    push_str(&mut m, " configuration not found in config, leaving in original state");
    m
}

/// Applies one fan's saved settings, ignoring failures.
fn restore_fan<B: EcIoBackend>(
    c: &mut EcController<B>,
    config: &mut ServerConfig,
    fan_id: u8,
    fan: &Option<FanConfig>,
    logs: &mut Vec<(LogLevel, String)>,
)
    requires
        valid_fan(fan_id),
        old(c).allows_writes(),
        old(c).curves().len() == 3,
        opt_fan_view(*fan) == fan_of(old(config)@, fan_id),
    ensures
        io_frame(*old(c), *final(c)),
        final(c).curves() == restore_one(old(c).curves(), fan_id, fan_parts(*fan)),
        final(c).curves().len() == 3,
        final(config)@ == old(config)@,
        fan is None ==> log_views(final(logs)@) == log_views(old(logs)@).push(
            (LogLevel::Info, "Fan"@ + dec(fan_id as nat) + " configuration not found in config, leaving in original state"@),
        ),
        fan is Some ==> final(logs)@ == old(logs)@,
        fan_restore_attempted(*old(c), *final(c), fan_id, opt_fan_view(*fan)),
        final(logs)@.len() >= old(logs)@.len(),
        forall|k: int| 0 <= k < old(logs)@.len() ==> final(logs)@[k] == old(logs)@[k],
{
    match fan {
        None => {
            let m = fan_not_found_msg(fan_id);
            logs.push((LogLevel::Info, m));
            assert(log_views(logs@) =~= log_views(old(logs)@).push(
                (LogLevel::Info, "Fan"@ + dec(fan_id as nat) + " configuration not found in config, leaving in original state"@),
            ));
        },
        Some(f) => {
            let ghost s0 = *c;
            let _ = set_fan_mode(c, config, fan_id, f.mode.as_str());
            let ghost s1 = *c;
            proof { lemma_io_frame_refl(s1); }
            if !crate::text::str_eq(f.mode.as_str(), "auto") {
                let _ = set_fan_level(c, config, fan_id, f.level);
            }
            proof { lemma_io_frame_trans(s0, s1, *c); }
            let ghost s2 = *c;
            let _ = set_fan_curve(c, config, fan_id, f.rampup_curve, true);
            proof { lemma_io_frame_trans(s0, s2, *c); }
            let ghost s3 = *c;
            let _ = set_fan_curve(c, config, fan_id, f.rampdown_curve, false);
            proof {
                lemma_io_frame_trans(s0, s3, *c);
                lemma_io_frame_trans(s2, s3, *c);
                lemma_io_frame_trans(s1, s2, *c);
                lemma_io_frame_refl(s0);
                if fan_mode_from_name(f.mode@) is Some {
                    let reg = fan_mode_reg(fan_id)->0;
                    lemma_write_attempted_widen(s0, s0, s1, *c, reg, mode_byte(fan_id, fan_mode_from_name(f.mode@)->0));
                    if f.mode@ != "auto"@ && f.level <= 5 {
                        lemma_write_attempted_widen(s0, s1, s2, *c, (reg + 1) as u8, level_byte(fan_id, f.level));
                    }
                }
            }
        },
    }
}

/// Where a fan's saved mode is one the controller knows, the restore wrote
/// it to the fan's mode register, and for any mode but `auto` a saved level
/// of 0-5 to its level register, or the EC gave trouble on the way.
pub open spec fn fan_restore_attempted<B: EcIoBackend>(
    pre: EcController<B>,
    post: EcController<B>,
    fan_id: u8,
    saved: Option<FanModel>,
) -> bool {
    match saved {
        Some(f) => fan_mode_from_name(f.mode) is Some ==> {
            let reg = fan_mode_reg(fan_id)->0;
            &&& write_attempted(pre, post, reg, mode_byte(fan_id, fan_mode_from_name(f.mode)->0))
            &&& f.mode != "auto"@ && f.level <= 5 ==> write_attempted(
                pre,
                post,
                (reg + 1) as u8,
                level_byte(fan_id, f.level),
            )
        },
        None => true,
    }
}

/// A fan restore attempted in the middle of a run of commands was attempted
/// in the whole run.
pub proof fn lemma_fan_restore_widen<B: EcIoBackend>(
    a: EcController<B>,
    b: EcController<B>,
    c: EcController<B>,
    d: EcController<B>,
    fan_id: u8,
    saved: Option<FanModel>,
)
    requires
        io_frame(a, b),
        io_frame(b, c),
        io_frame(c, d),
        fan_restore_attempted(b, c, fan_id, saved),
    ensures
        fan_restore_attempted(a, d, fan_id, saved),
{
    if let Some(f) = saved {
        if fan_mode_from_name(f.mode) is Some {
            let reg = fan_mode_reg(fan_id)->0;
            lemma_write_attempted_widen(a, b, c, d, reg, mode_byte(fan_id, fan_mode_from_name(f.mode)->0));
            if f.mode != "auto"@ && f.level <= 5 {
                lemma_write_attempted_widen(a, b, c, d, (reg + 1) as u8, level_byte(fan_id, f.level));
            }
        }
    }
}

/// Where the saved power mode is one the EC knows, the restore wrote it to
/// the power-mode register, or the EC gave trouble on the way.
pub open spec fn power_restore_attempted<B: EcIoBackend>(
    pre: EcController<B>,
    post: EcController<B>,
    saved: Option<Seq<char>>,
) -> bool {
    match saved {
        Some(p) => power_mode_from_name(p) is Some ==> write_attempted(
            pre,
            post,
            EC_REG_APU_POWER_MODE,
            power_mode_value(power_mode_from_name(p)->0),
        ),
        None => true,
    }
}

/// Applies the saved power mode and fan settings at start-up, skipping
/// everything when EC writes are refused. Returns the log lines.
pub fn restore_saved_state<B: EcIoBackend>(c: &mut EcController<B>, config: &mut ServerConfig) -> (logs: Vec<(LogLevel, String)>)
    requires
        old(c).curves().len() == 3,
    ensures
        io_frame(*old(c), *final(c)),
        final(config)@ == old(config)@,
        logs@.len() >= 2,
        log_views(logs@)[0] == (LogLevel::Info, "Restoring saved parameters from configuration..."@),
        !old(c).allows_writes() ==> untouched(*old(c), *final(c)) && log_views(logs@) == seq![
            (LogLevel::Info, "Restoring saved parameters from configuration..."@),
            (LogLevel::Warn, "Skipping configuration restore because EC writes are disabled"@),
        ],
        old(c).allows_writes() ==> final(c).curves() == restore_curves_spec(old(c).curves(), *old(config))
            && log_views(logs@).last() == (LogLevel::Info, "Parameter restoration completed"@),
        old(c).allows_writes() ==> {
            &&& power_restore_attempted(*old(c), *final(c), old(config)@.apu_power_mode)
            &&& fan_restore_attempted(*old(c), *final(c), 1, old(config)@.fan1)
            &&& fan_restore_attempted(*old(c), *final(c), 2, old(config)@.fan2)
            &&& fan_restore_attempted(*old(c), *final(c), 3, old(config)@.fan3)
        },
{
    let mut logs: Vec<(LogLevel, String)> = Vec::new();
    logs.push((LogLevel::Info, owned("Restoring saved parameters from configuration...")));
    if !c.writes_allowed() {
        logs.push((LogLevel::Warn, owned("Skipping configuration restore because EC writes are disabled")));
        assert(log_views(logs@) =~= seq![
            (LogLevel::Info, "Restoring saved parameters from configuration..."@),
            (LogLevel::Warn, "Skipping configuration restore because EC writes are disabled"@),
        ]);
        proof { lemma_io_frame_refl(*c); }
        return logs;
    }
    let ghost cfg0 = *config;
    let power = copy_opt(&config.apu_power_mode);
    let fan1 = copy_opt_fan(&config.fan1);
    let fan2 = copy_opt_fan(&config.fan2);
    let fan3 = copy_opt_fan(&config.fan3);
    let ghost s0 = *c;
    proof { lemma_io_frame_refl(*c); }
    if let Some(mode) = power {
        match set_power_mode(c, config, mode.as_str()) {
            Ok((_, change)) => {
                if let Some(line) = change {
                    logs.push((LogLevel::Info, line));
                }
                let mut m = owned("Restored power mode: ");
                push_str(&mut m, mode.as_str());
                logs.push((LogLevel::Info, m));
            },
            Err(_) => {},
        }
    }
    assert(config@ == cfg0@);
    assert(logs@.len() >= 1 && logs@[0].0 == LogLevel::Info && logs@[0].1@ == "Restoring saved parameters from configuration..."@);
    let ghost s1 = *c;
    restore_fan(c, config, 1, &fan1, &mut logs);
    proof { lemma_io_frame_trans(s0, s1, *c); }
    let ghost s2 = *c;
    restore_fan(c, config, 2, &fan2, &mut logs);
    proof { lemma_io_frame_trans(s0, s2, *c); }
    let ghost s3 = *c;
    restore_fan(c, config, 3, &fan3, &mut logs);
    proof {
        lemma_io_frame_trans(s0, s3, *c);
        lemma_io_frame_trans(s2, s3, *c);
        lemma_io_frame_trans(s1, s2, *c);
        lemma_io_frame_refl(s0);
        lemma_io_frame_refl(*c);
        if let Some(p) = cfg0@.apu_power_mode {
            if power_mode_from_name(p) is Some {
                lemma_write_attempted_widen(
                    s0,
                    s0,
                    s1,
                    *c,
                    EC_REG_APU_POWER_MODE,
                    power_mode_value(power_mode_from_name(p)->0),
                );
            }
        }
        lemma_fan_restore_widen(s0, s1, s2, *c, 1, cfg0@.fan1);
        lemma_fan_restore_widen(s0, s2, s3, *c, 2, cfg0@.fan2);
        lemma_fan_restore_widen(s0, s3, *c, *c, 3, cfg0@.fan3);
    }
    logs.push((LogLevel::Info, owned("Parameter restoration completed")));
    proof {
        assert(log_views(logs@)[0] == (LogLevel::Info, "Restoring saved parameters from configuration..."@));
        assert(log_views(logs@).last() == (LogLevel::Info, "Parameter restoration completed"@));
    }
    logs
}

/// The saved settings of one fan, as stored.
pub open spec fn saved_fan(c: ServerConfig, fan_id: u8) -> Option<FanConfig> {
    if fan_id == 1 {
        c.fan1
    } else if fan_id == 2 {
        c.fan2
    } else {
        c.fan3
    }
}

/// Saved settings that the controller accepts as they are.
pub open spec fn restorable(o: Option<FanConfig>) -> bool {
    match o {
        Some(f) => fan_mode_from_name(f.mode@) is Some && curve_in_range(f.rampup_curve@) && curve_in_range(
            f.rampdown_curve@,
        ),
        None => false,
    }
}

/// After a restore, every fan whose saved settings the controller accepts
/// runs in its saved mode with its saved curves.
pub proof fn lemma_restore_applies_saved(curves: Seq<FanCurveData>, c: ServerConfig, fan_id: u8)
    requires
        curves.len() == 3,
        1 <= fan_id <= 3,
        restorable(saved_fan(c, fan_id)),
    ensures
        ({
            let k = restore_curves_spec(curves, c);
            let f = saved_fan(c, fan_id)->0;
            &&& k[fan_id - 1].mode == fan_mode_from_name(f.mode@)->0
            &&& k[fan_id - 1].rampup_curve == f.rampup_curve
            &&& k[fan_id - 1].rampdown_curve == f.rampdown_curve
        }),
{
}

/// Reads everything the window shows: the EC temperature byte, the power
/// mode and the three fans. `wddm` and `adl` are the GPU driver's and AMD
/// ADL's readings, taken by the caller; the first available of them and the
/// EC byte is the temperature in use.
pub fn metrics<B: EcIoBackend>(c: &mut EcController<B>, wddm: Option<u8>, adl: Option<u8>) -> (r: Result<MetricsSnapshot, String>)
    ensures
        io_frame(*old(c), *final(c)),
        final(c).curves() == old(c).curves(),
        r matches Ok(m) ==> ({
            let t = txns_since(*old(c), *final(c));
            &&& t.len() == 14
            &&& is_read_of(t[0], EC_REG_APU_TEMPERATURE)
            &&& txn_value(t[0]) == m.ec_raw_temp
            &&& (m.temperature, m.temperature_source) == resolve_spec(wddm, adl, m.ec_raw_temp)
            &&& m.gpu_temp == wddm
            &&& m.cpu_temp is None && m.soc_temp is None && m.hotspot_temp is None
            &&& is_read_of(t[1], EC_REG_APU_POWER_MODE)
            &&& m.power_mode@ == power_mode_name(power_mode_from_value(txn_value(t[1]))->0)
            &&& snapshot_read(m.fans[0], old(c).curves()[0], 1, t.subrange(2, 6))
            &&& snapshot_read(m.fans[1], old(c).curves()[1], 2, t.subrange(6, 10))
            &&& snapshot_read(m.fans[2], old(c).curves()[2], 3, t.subrange(10, 14))
        }),
        r is Err ==> failed_on_ec(*old(c), *final(c)),
{
    let ghost s0 = *c;
    let ec_raw = match c.execute_operation(EcOperation::GetApuTemperature) {
        Ok(EcResult::ApuTemperature(v)) => v,
        Ok(_) => return Err(owned("Unexpected temperature response")),
        Err(e) => return Err(e),
    };
    let ghost s1 = *c;
    let (temperature, source) = resolve_with_source(wddm, adl, ec_raw);
    let power = match power_mode(c) {
        Ok(p) => p,
        Err(e) => {
            proof { lemma_io_frame_trans(s0, s1, *c); }
            return Err(e);
        },
    };
    proof {
        lemma_io_frame_trans(s0, s1, *c);
        lemma_txns_since_concat(s0, s1, *c);
        assert(power_mode_name(power_mode_from_value(txn_value(txns_since(s1, *c)[0]))->0) == power@);
    }
    let ghost s2 = *c;
    let f1 = match fan_snapshot(c, 1) {
        Ok(f) => f,
        Err(e) => {
            proof { lemma_io_frame_trans(s0, s2, *c); }
            return Err(e);
        },
    };
    proof {
        lemma_io_frame_trans(s0, s2, *c);
        lemma_txns_since_concat(s0, s2, *c);
    }
    let ghost s3 = *c;
    let f2 = match fan_snapshot(c, 2) {
        Ok(f) => f,
        Err(e) => {
            proof { lemma_io_frame_trans(s0, s3, *c); }
            return Err(e);
        },
    };
    proof {
        lemma_io_frame_trans(s0, s3, *c);
        lemma_txns_since_concat(s0, s3, *c);
    }
    let ghost s4 = *c;
    let f3 = match fan_snapshot(c, 3) {
        Ok(f) => f,
        Err(e) => {
            proof { lemma_io_frame_trans(s0, s4, *c); }
            return Err(e);
        },
    };
    proof {
        lemma_io_frame_trans(s0, s4, *c);
        lemma_txns_since_concat(s0, s4, *c);
        let s5 = *c;
        let t = txns_since(s0, s5);
        let p1 = txns_since(s0, s1);
        let p2 = txns_since(s1, s2);
        let f1t = txns_since(s2, s3);
        let f2t = txns_since(s3, s4);
        let f3t = txns_since(s4, s5);
        assert(t =~= p1 + p2 + f1t + f2t + f3t);
        assert(t.subrange(2, 6) =~= f1t);
        assert(t.subrange(6, 10) =~= f2t);
        assert(t.subrange(10, 14) =~= f3t);
    }
    Ok(MetricsSnapshot {
        power_mode: power,
        temperature,
        temperature_source: source,
        gpu_temp: wddm,
        cpu_temp: None,
        soc_temp: None,
        hotspot_temp: None,
        ec_raw_temp: ec_raw,
        fans: [f1, f2, f3],
    })
}

/// Refusal when the program is not elevated.
pub const NOT_ADMIN_MESSAGE: &'static str = "This application must be run as Administrator to access the EC through PawnIO.";

/// The error reported when PawnIO cannot be connected: an error that already
/// explains PawnIO is kept, anything else is prefixed with the explanation.
pub fn connect_error_message(error: &str) -> (r: String)
    ensures
        r@ == (if contains(error@, "PawnIO is required"@) {
            error@
        } else {
            PAWNIO_MISSING_MESSAGE@ + "\n\n"@ + error@
        }),
{
    if str_contains(error, "PawnIO is required") {
        owned(error)
    } else {
        let mut out = owned(PAWNIO_MISSING_MESSAGE);
        push_str(&mut out, "\n\n");
        push_str(&mut out, error);
        out
    }
}

/// `PawnIO driver version a.b.c` from the packed version number.
pub fn driver_version_text(version: u32) -> (r: String)
    ensures
        r@ == "PawnIO driver version "@ + dec(((version >> 16) & 0xFF) as nat) + "."@ + dec(
            ((version >> 8) & 0xFF) as nat,
        ) + "."@ + dec((version & 0xFF) as nat),
{
    let mut out = owned("PawnIO driver version ");
    push_dec(&mut out, (version >> 16) & 0xFF);
    push_str(&mut out, ".");
    push_dec(&mut out, (version >> 8) & 0xFF);
    push_str(&mut out, ".");
    push_dec(&mut out, version & 0xFF);
    out
}

/// The start-up log line about the detected board.
pub fn hardware_log_line(hardware: &HardwareIdentity) -> (r: (LogLevel, String))
    ensures
        supported_spec(*hardware) ==> r.0 == LogLevel::Info && r.1@ == "EVO-X2 EC platform identified"@,
        !supported_spec(*hardware) ==> r.0 == LogLevel::Warn && r.1@ == "Hardware '"@ + summary_spec(*hardware)
            + "' is not a known Sixunited AXB35 / GMKtec EVO-X2 board. EC writes will be refused."@,
{
    if hardware.is_supported_axb35() {
        (LogLevel::Info, owned("EVO-X2 EC platform identified"))
    } else {
        let mut out = owned("Hardware '");
        push_str(&mut out, hardware.summary().as_str());
        push_str(&mut out, "' is not a known Sixunited AXB35 / GMKtec EVO-X2 board. EC writes will be refused.");
        (LogLevel::Warn, out)
    }
}

/// One tick of the curve monitor: whether curve fans are being tracked
/// afterwards, the log line for a change, and whether to update the fans.
pub fn curve_monitor_step(active: bool, has_curve: bool) -> (r: (bool, Option<&'static str>, bool))
    ensures
        r.0 == has_curve,
        r.2 == has_curve,
        has_curve && !active ==> (r.1 matches Some(m) && m@ == "Curve monitoring started - fans in curve mode detected"@),
        !has_curve && active ==> (r.1 matches Some(m) && m@ == "Curve monitoring stopped - no fans in curve mode"@),
        has_curve == active ==> r.1 is None,
{
    if has_curve && !active {
        (true, Some("Curve monitoring started - fans in curve mode detected"), true)
    } else if !has_curve && active {
        (false, Some("Curve monitoring stopped - no fans in curve mode"), false)
    } else {
        (has_curve, None, has_curve)
    }
}


/// A fan's state once released: curve control hands it back to the EC.
pub open spec fn released(cd: FanCurveData) -> FanCurveData {
    if cd.mode == FanMode::Curve {
        FanCurveData { mode: FanMode::Auto, ..cd }
    } else {
        cd
    }
}

/// A transaction that hands one of the fans under curve control in `curves`
/// back to the EC's AUTO mode: a write of that fan's AUTO byte to its mode
/// register.
pub open spec fn is_release_write(curves: Seq<FanCurveData>, t: EcTxn) -> bool {
    ||| curves[0].mode == FanMode::Curve && t == (EcTxn::WriteByte {
        register: fan_mode_reg(1)->0,
        value: mode_byte(1, FanMode::Auto),
    })
    ||| curves[1].mode == FanMode::Curve && t == (EcTxn::WriteByte {
        register: fan_mode_reg(2)->0,
        value: mode_byte(2, FanMode::Auto),
    })
    ||| curves[2].mode == FanMode::Curve && t == (EcTxn::WriteByte {
        register: fan_mode_reg(3)->0,
        value: mode_byte(3, FanMode::Auto),
    })
}

/// How many fans run under curve control.
pub open spec fn curve_fan_count(curves: Seq<FanCurveData>) -> nat {
    (if curves[0].mode == FanMode::Curve { 1nat } else { 0nat }) + (if curves[1].mode == FanMode::Curve {
        1nat
    } else {
        0nat
    }) + (if curves[2].mode == FanMode::Curve { 1nat } else { 0nat })
}

/// Hands one curve-controlled fan back to the EC's AUTO mode.
fn release_fan<B: EcIoBackend>(c: &mut EcController<B>, fan_id: u8, logs: &mut Vec<(LogLevel, String)>)
    requires
        valid_fan(fan_id),
        old(c).allows_writes(),
        old(c).curves().len() == 3,
    ensures
        io_frame(*old(c), *final(c)),
        final(c).curves() == old(c).curves().update(fan_id - 1, released(old(c).curves()[fan_id - 1])),
        old(c).curves()[fan_id - 1].mode == FanMode::Curve ==> write_attempted(
            *old(c),
            *final(c),
            fan_mode_reg(fan_id)->0,
            mode_byte(fan_id, FanMode::Auto),
        ) && final(logs)@.len() == old(logs)@.len() + 1,
        old(c).curves()[fan_id - 1].mode != FanMode::Curve ==> final(c).port_log() == old(c).port_log()
            && final(logs)@ == old(logs)@,
        forall|k: int|
            old(c).txns().len() <= k < final(c).txns().len() ==> old(c).curves()[fan_id - 1].mode == FanMode::Curve
                && #[trigger] final(c).txns()[k] == (EcTxn::WriteByte {
                register: fan_mode_reg(fan_id)->0,
                value: mode_byte(fan_id, FanMode::Auto),
            }),
        forall|k: int| 0 <= k < old(logs)@.len() ==> final(logs)@[k] == old(logs)@[k],
{
    let ghost pre = *c;
    if !c.is_curve_fan(fan_id) {
        proof {
            lemma_io_frame_refl(*c);
            assert(c.curves() =~= pre.curves().update(fan_id - 1, released(pre.curves()[fan_id - 1])));
        }
        return;
    }
    let result = c.execute_operation(EcOperation::SetFanMode(fan_id, owned("auto")));
    proof {
        reveal_strlit("auto");
        let t = EcController::<B>::new_txns(&pre, c);
        if t.len() >= 1 {
            assert(c.txns()[pre.txns().len() as int] == t[0]);
        }
        assert forall|k: int| pre.txns().len() <= k < c.txns().len() implies #[trigger] c.txns()[k] == (EcTxn::WriteByte {
            register: fan_mode_reg(fan_id)->0,
            value: mode_byte(fan_id, FanMode::Auto),
        }) by {
            assert(c.txns()[k] == t[k - pre.txns().len()]);
        }
    }
    match result {
        Ok(_) => {
            let mut m = owned("Fan");
            push_dec(&mut m, fan_id as u32);
            push_str(&mut m, " returned to EC AUTO");
            logs.push((LogLevel::Info, m));
        },
        Err(e) => {
            let mut m = owned("Could not return fan");
            push_dec(&mut m, fan_id as u32);
            push_str(&mut m, " to EC AUTO: ");
            push_str(&mut m, e.as_str());
            logs.push((LogLevel::Warn, m));
        },
    }
}

/// On exit: every fan under curve control is handed back to the EC's AUTO
/// mode, so no fan stays on a software level once the program is gone; fixed
/// and auto fans are left alone. Nothing is written when EC writes are
/// refused. Returns one log line per curve fan.
pub fn release_curve_fans<B: EcIoBackend>(c: &mut EcController<B>) -> (logs: Vec<(LogLevel, String)>)
    requires
        old(c).curves().len() == 3,
    ensures
        io_frame(*old(c), *final(c)),
        !old(c).allows_writes() ==> final(c).port_log() == old(c).port_log() && final(c).curves() == old(
            c,
        ).curves() && logs@.len() == 0,
        old(c).allows_writes() ==> {
            &&& forall|f: u8|
                1 <= f <= 3 ==> #[trigger] final(c).curves()[f - 1] == released(old(c).curves()[f - 1])
            &&& forall|f: u8|
                1 <= f <= 3 && old(c).curves()[f - 1].mode == FanMode::Curve ==> #[trigger] write_attempted(
                    *old(c),
                    *final(c),
                    fan_mode_reg(f)->0,
                    mode_byte(f, FanMode::Auto),
                )
            &&& logs@.len() == curve_fan_count(old(c).curves())
            &&& forall|k: int|
                old(c).txns().len() <= k < final(c).txns().len() ==> is_release_write(
                    old(c).curves(),
                    #[trigger] final(c).txns()[k],
                )
        },
{
    let mut logs: Vec<(LogLevel, String)> = Vec::new();
    if !c.writes_allowed() {
        proof {
            lemma_io_frame_refl(*c);
        }
        return logs;
    }
    let ghost s0 = *c;
    release_fan(c, 1, &mut logs);
    let ghost s1 = *c;
    release_fan(c, 2, &mut logs);
    let ghost s2 = *c;
    release_fan(c, 3, &mut logs);
    proof {
        let s3 = *c;
        lemma_io_frame_refl(s0);
        lemma_io_frame_refl(s3);
        lemma_io_frame_trans(s0, s1, s2);
        lemma_io_frame_trans(s0, s2, s3);
        lemma_io_frame_trans(s1, s2, s3);
        let reg1 = fan_mode_reg(1)->0;
        let reg2 = fan_mode_reg(2)->0;
        let reg3 = fan_mode_reg(3)->0;
        if s0.curves()[0].mode == FanMode::Curve {
            lemma_write_attempted_widen(s0, s0, s1, s3, reg1, mode_byte(1, FanMode::Auto));
        }
        if s0.curves()[1].mode == FanMode::Curve {
            lemma_write_attempted_widen(s0, s1, s2, s3, reg2, mode_byte(2, FanMode::Auto));
        }
        if s0.curves()[2].mode == FanMode::Curve {
            lemma_write_attempted_widen(s0, s2, s3, s3, reg3, mode_byte(3, FanMode::Auto));
        }
        assert forall|k: int| s0.txns().len() <= k < s3.txns().len() implies is_release_write(
            s0.curves(),
            #[trigger] s3.txns()[k],
        ) by {
            if k < s1.txns().len() {
                assert(s3.txns()[k] == s1.txns()[k]);
                assert(s1.txns()[k] == s2.txns()[k]);
            } else if k < s2.txns().len() {
                assert(s3.txns()[k] == s2.txns()[k]);
            }
        }
        assert forall|f: u8| 1 <= f <= 3 implies #[trigger] s3.curves()[f - 1] == released(s0.curves()[f - 1]) by {
            if f == 1 {
            } else if f == 2 {
            } else {
            }
        }
    }
    logs
}

} // verus!
