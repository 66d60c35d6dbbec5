//! The `evox2ctl` command line: exit codes, argument checking and the text it
//! prints. Running the commands against the hardware is the caller's part.
use vstd::prelude::*;
use crate::curve::{average_temps};
use crate::ec::{power_mode_from_name, power_mode_name, power_mode_value, unsupported_msg, PowerMode};
use crate::fan::{
    alias, cli_label_key, fan_id_spec, parse_curve, parse_curve_spec, parse_fan_id, parse_u8,
    parse_u8_spec, unknown_fan_msg,
};
use crate::i18n::{t, translate, Language};
use crate::text::{
    ascii_lower, chars_of, contains, dec, hex2, lower_chars, owned, push_chars, push_dec,
    push_hex2, push_str, contains_chars, str_eq, lower_char, occurs_at,
};
use crate::hardware::{summary_spec, HardwareIdentity};
use crate::thermal::TemperatureSource;
use crate::session::{source_key, MetricsSnapshot, RuntimeStatus};

verus! {

pub const EXIT_OK: i32 = 0;
pub const EXIT_RUNTIME: i32 = 1;
pub const EXIT_USAGE: i32 = 2;
pub const EXIT_NOT_ADMIN: i32 = 3;
pub const EXIT_PAWNIO: i32 = 4;
pub const EXIT_UNSUPPORTED_HARDWARE: i32 = 5;
pub const EXIT_FIRMWARE: i32 = 6;

/// Parsed command line.
#[derive(Debug)]
pub struct Args {
    pub json: bool,
    pub command: Option<Command>,
}

/// The subcommands.
#[derive(Debug)]
pub enum Command {
    Mode { power_mode: Option<String>, dry_run: bool },
    Status,
    Diagnose,
    Fan {
        fan: Option<String>,
        action: Option<String>,
        spec: Option<String>,
        rampdown: Option<String>,
        dry_run: bool,
    },
}

/// A failed command: what to print and the process exit code.
#[derive(Debug)]
pub struct CliError {
    pub message: String,
    pub code: i32,
}

/// The exit code an error message calls for: administrator rights first,
/// then PawnIO, firmware, hardware, and anything else as a runtime error.
pub open spec fn exit_code_spec(s: Seq<char>) -> i32 {
    let lower = ascii_lower(s);
    if contains(s, "Administrator"@) || contains(lower, "administrator"@) {
        EXIT_NOT_ADMIN
    } else if contains(lower, "pawnio"@) {
        EXIT_PAWNIO
    } else if contains(lower, "unsupported ec firmware"@) {
        EXIT_FIRMWARE
    } else if contains(lower, "unsupported hardware"@) || contains(lower, "ec writes are disabled"@) {
        EXIT_UNSUPPORTED_HARDWARE
    } else {
        EXIT_RUNTIME
    }
}

fn has(hay: &[char], needle: &str) -> (r: bool)
    ensures
        r == contains(hay@, needle@),
{
    let n = chars_of(needle);
    contains_chars(hay, n.as_slice())
}

pub fn exit_code_from_error(error: &str) -> (r: i32)
    ensures
        r == exit_code_spec(error@),
{
    let chars = chars_of(error);
    let lower = lower_chars(chars.as_slice());
    if has(chars.as_slice(), "Administrator") || has(lower.as_slice(), "administrator") {
        EXIT_NOT_ADMIN
    } else if has(lower.as_slice(), "pawnio") {
        EXIT_PAWNIO
    } else if has(lower.as_slice(), "unsupported ec firmware") {
        EXIT_FIRMWARE
    } else if has(lower.as_slice(), "unsupported hardware") || has(
        lower.as_slice(),
        "ec writes are disabled",
    ) {
        EXIT_UNSUPPORTED_HARDWARE
    } else {
        EXIT_RUNTIME
    }
}

impl From<String> for CliError {
    fn from(message: String) -> (r: CliError) {
        let code = exit_code_from_error(message.as_str());
        CliError { message, code }
    }
}

impl vstd::std_specs::convert::FromSpecImpl<String> for CliError {
    open spec fn obeys_from_spec() -> bool {
        true
    }

    open spec fn from_spec(v: String) -> CliError {
        CliError { message: v, code: exit_code_spec(v@) }
    }
}

/// A usage error: the translated usage line, exit code 2.
pub fn usage_error(language: Language) -> (r: CliError)
    ensures
        r.message@ == translate(language, "usage_cli"@),
        r.code == EXIT_USAGE,
{
    CliError { message: owned(t(language, "usage_cli")), code: EXIT_USAGE }
}

/// Parses a fan specifier, reporting a bad one as a usage error.
pub fn parse_fan_or_usage(spec: &str) -> (r: Result<u8, CliError>)
    ensures
        r is Ok <==> fan_id_spec(spec@) is Some,
        r matches Ok(id) ==> fan_id_spec(spec@) == Some(id),
        r matches Err(e) ==> e.message@ == unknown_fan_msg(spec@) && e.code == EXIT_USAGE,
{
    match parse_fan_id(spec) {
        Ok(id) => Ok(id),
        Err(message) => Err(CliError { message, code: EXIT_USAGE }),
    }
}

/// What `mode` was asked: `None` reads the current mode.
pub open spec fn mode_request_spec(power_mode: Option<Seq<char>>) -> Option<Option<PowerMode>> {
    match power_mode {
        None => Some(None),
        Some(m) => match power_mode_from_name(m) {
            Some(pm) => Some(Some(pm)),
            None => None,
        },
    }
}

/// Checks the argument of `mode`; an unknown mode is a usage error.
pub fn plan_mode(language: Language, power_mode: Option<&str>) -> (r: Result<Option<PowerMode>, CliError>)
    ensures
        r is Ok <==> mode_request_spec(opt_str_view(power_mode)) is Some,
        r matches Ok(x) ==> mode_request_spec(opt_str_view(power_mode)) == Some(x),
        r matches Err(e) ==> e.message@ == translate(language, "invalid_power_mode"@) && e.code
            == EXIT_USAGE,
{
    match power_mode {
        None => Ok(None),
        Some(m) => match PowerMode::from_name(m) {
            Some(pm) => Ok(Some(pm)),
            None => Err(CliError { message: owned(t(language, "invalid_power_mode")), code: EXIT_USAGE }),
        },
    }
}

pub open spec fn opt_str_view(o: Option<&str>) -> Option<Seq<char>> {
    match o {
        Some(s) => Some(s@),
        None => None,
    }
}

/// Label, a space and a value.
pub open spec fn kv(language: Language, key: Seq<char>, value: Seq<char>) -> Seq<char> {
    translate(language, key) + " "@ + value
}

/// The four lines `mode <m> --dry-run` prints.
pub open spec fn mode_dry_run_spec(language: Language, mode: PowerMode) -> Seq<Seq<char>> {
    seq![
        translate(language, "would_set_pmode"@),
        translate(language, "register"@) + " 0x31"@,
        translate(language, "value_label"@) + "    0x"@ + hex2(power_mode_value(mode) as nat),
        translate(language, "mode_name"@) + "     "@ + translate(language, power_mode_name(mode)),
    ]
}

pub open spec fn string_views(v: Seq<String>) -> Seq<Seq<char>> {
    v.map_values(|s: String| s@)
}

pub fn mode_dry_run_lines(language: Language, mode: PowerMode) -> (r: Vec<String>)
    ensures
        string_views(r@) == mode_dry_run_spec(language, mode),
{
    let mut lines: Vec<String> = Vec::new();
    lines.push(owned(t(language, "would_set_pmode")));
    let mut l2 = owned(t(language, "register"));
    push_str(&mut l2, " 0x31");
    lines.push(l2);
    let mut l3 = owned(t(language, "value_label"));
    push_str(&mut l3, "    0x");
    push_hex2(&mut l3, mode.to_ec_value() as u32);
    lines.push(l3);
    let mut l4 = owned(t(language, "mode_name"));
    push_str(&mut l4, "     ");
    push_str(&mut l4, t(language, mode.as_str()));
    lines.push(l4);
    assert(string_views(lines@) =~= mode_dry_run_spec(language, mode));
    lines
}

/// A checked `fan <id> <mode> ...` request.
#[derive(Debug)]
pub struct FanEdit {
    pub fan_id: u8,
    pub mode: String,
    pub level: u8,
    pub rampup: Option<[u8; 5]>,
    pub rampdown: Option<[u8; 5]>,
}

/// What `fan` was asked for.
#[derive(Debug)]
pub enum FanRequest {
    ListAll,
    Show(u8),
    Edit(FanEdit),
}

/// Why a `fan` request was refused: a usage error, a curve edit while no
/// window is running to follow the curve, or a message of its own (an
/// unknown fan, a curve that does not parse).
pub enum PlanError {
    Usage,
    CurveNeedsWindow,
    Message(Seq<char>),
}

/// The text a refused request is answered with.
pub open spec fn plan_error_text(language: Language, e: PlanError) -> Seq<char> {
    match e {
        PlanError::Usage => translate(language, "usage_cli"@),
        PlanError::CurveNeedsWindow => translate(language, "curve_needs_gui"@),
        PlanError::Message(m) => m,
    }
}

/// Level and curves of a checked edit.
pub type EditModel = (u8, Option<Seq<u8>>, Option<Seq<u8>>);

/// Outcome of checking a fan edit, from the requested mode and the two
/// optional arguments.
pub open spec fn fan_edit_spec(mode: Seq<char>, spec: Option<Seq<char>>, rampdown: Option<Seq<char>>) -> Result<EditModel, PlanError> {
    let m = ascii_lower(mode);
    if m == "auto"@ && spec is None && rampdown is None {
        Ok((0u8, None, None))
    } else if m == "fixed"@ {
        match spec {
            None => Err(PlanError::Usage),
            Some(s) => match parse_u8_spec(s) {
                None => Err(PlanError::Usage),
                Some(level) => if level > 5 || rampdown is Some {
                    Err(PlanError::Usage)
                } else {
                    Ok((level, None, None))
                },
            },
        }
    } else if m == "curve"@ {
        match spec {
            None => Err(PlanError::Usage),
            Some(s) => match parse_curve_spec(s) {
                Err(e) => Err(PlanError::Message(e)),
                Ok(up) => match rampdown {
                    None => Err(PlanError::Usage),
                    Some(d) => match parse_curve_spec(d) {
                        Err(e) => Err(PlanError::Message(e)),
                        Ok(down) => Ok((0u8, Some(up), Some(down))),
                    },
                },
            },
        }
    } else {
        Err(PlanError::Usage)
    }
}

pub open spec fn opt_curve_view(c: Option<[u8; 5]>) -> Option<Seq<u8>> {
    match c {
        Some(a) => Some(a@),
        None => None,
    }
}

/// The settings an edit carries (level, ramp-up and ramp-down curves); its
/// fan and mode are stated on their own wherever an edit is described.
pub open spec fn edit_settings(e: FanEdit) -> EditModel {
    (e.level, opt_curve_view(e.rampup), opt_curve_view(e.rampdown))
}

/// Checks `fan <id> <mode> [spec] [rampdown]` for one fan.
pub fn plan_fan_edit(
    language: Language,
    fan_id: u8,
    mode: &str,
    spec: Option<&str>,
    rampdown: Option<&str>,
) -> (r: Result<FanEdit, CliError>)
    ensures
        ({
            let want = fan_edit_spec(mode@, opt_str_view(spec), opt_str_view(rampdown));
            &&& r is Ok <==> want is Ok
            &&& r matches Ok(e) ==> e.fan_id == fan_id && e.mode@ == ascii_lower(mode@) && want
                == Ok::<EditModel, PlanError>(edit_settings(e))
            &&& r matches Err(e) ==> e.code == EXIT_USAGE && e.message@ == plan_error_text(
                language,
                want->Err_0,
            )
        }),
{
    let mchars = chars_of(mode);
    let lower = lower_chars(mchars.as_slice());
    let mut mode_lower = String::new();
    push_chars(&mut mode_lower, lower.as_slice());
    if crate::text::chars_eq_str(lower.as_slice(), "auto") && spec.is_none() && rampdown.is_none() {
        return Ok(FanEdit { fan_id, mode: mode_lower, level: 0, rampup: None, rampdown: None });
    }
    if crate::text::chars_eq_str(lower.as_slice(), "fixed") {
        let s = match spec {
            None => return Err(usage_error(language)),
            Some(s) => s,
        };
        let sc = chars_of(s);
        let level = match parse_u8(sc.as_slice()) {
            None => return Err(usage_error(language)),
            Some(level) => level,
        };
        if level > 5 || rampdown.is_some() {
            return Err(usage_error(language));
        }
        return Ok(FanEdit { fan_id, mode: mode_lower, level, rampup: None, rampdown: None });
    }
    if crate::text::chars_eq_str(lower.as_slice(), "curve") {
        let s = match spec {
            None => return Err(usage_error(language)),
            Some(s) => s,
        };
        let up = match parse_curve(s) {
            Err(message) => return Err(CliError { message, code: EXIT_USAGE }),
            Ok(c) => c,
        };
        let d = match rampdown {
            None => return Err(usage_error(language)),
            Some(d) => d,
        };
        let down = match parse_curve(d) {
            Err(message) => return Err(CliError { message, code: EXIT_USAGE }),
            Ok(c) => c,
        };
        return Ok(FanEdit { fan_id, mode: mode_lower, level: 0, rampup: Some(up), rampdown: Some(down) });
    }
    Err(usage_error(language))
}

/// What a `fan` request asks for, in terms of its views.
pub enum FanRequestModel {
    ListAll,
    Show(u8),
    Edit(u8, Seq<char>, EditModel),
}

pub open spec fn request_view(r: FanRequest) -> FanRequestModel {
    match r {
        FanRequest::ListAll => FanRequestModel::ListAll,
        FanRequest::Show(id) => FanRequestModel::Show(id),
        FanRequest::Edit(e) => FanRequestModel::Edit(e.fan_id, e.mode@, edit_settings(e)),
    }
}

/// What `fan` answers for its four optional arguments: none lists all fans,
/// a fan alone shows it, a fan and a mode asks for an edit, anything else is
/// a usage error. A curve edit needs the running window, which keeps
/// adjusting the level; without it only a dry run is allowed.
pub open spec fn fan_request_spec(
    fan: Option<Seq<char>>,
    action: Option<Seq<char>>,
    spec: Option<Seq<char>>,
    rampdown: Option<Seq<char>>,
    dry_run: bool,
    window_running: bool,
) -> Result<FanRequestModel, PlanError> {
    match (fan, action) {
        (None, None) => if spec is None && rampdown is None {
            Ok(FanRequestModel::ListAll)
        } else {
            Err(PlanError::Usage)
        },
        (Some(f), None) => if spec is None && rampdown is None {
            match fan_id_spec(f) {
                Some(id) => Ok(FanRequestModel::Show(id)),
                None => Err(PlanError::Message(unknown_fan_msg(f))),
            }
        } else {
            Err(PlanError::Usage)
        },
        (Some(f), Some(mode)) => match fan_id_spec(f) {
            None => Err(PlanError::Message(unknown_fan_msg(f))),
            Some(id) => match fan_edit_spec(mode, spec, rampdown) {
                Ok(e) => if ascii_lower(mode) == "curve"@ && !dry_run && !window_running {
                    Err(PlanError::CurveNeedsWindow)
                } else {
                    Ok(FanRequestModel::Edit(id, ascii_lower(mode), e))
                },
                Err(e) => Err(e),
            },
        },
        (None, Some(_)) => Err(PlanError::Usage),
    }
}

/// Checks the arguments of `fan`.
pub fn plan_fan_request(
    language: Language,
    fan: Option<&str>,
    action: Option<&str>,
    spec: Option<&str>,
    rampdown: Option<&str>,
    dry_run: bool,
    window_running: bool,
) -> (r: Result<FanRequest, CliError>)
    ensures
        ({
            let want = fan_request_spec(
                opt_str_view(fan),
                opt_str_view(action),
                opt_str_view(spec),
                opt_str_view(rampdown),
                dry_run,
                window_running,
            );
            &&& r is Ok <==> want is Ok
            &&& r matches Ok(req) ==> want == Ok::<FanRequestModel, PlanError>(request_view(req))
            &&& r matches Err(e) ==> e.code == EXIT_USAGE && e.message@ == plan_error_text(
                language,
                want->Err_0,
            )
        }),
{
    match (fan, action) {
        (None, None) => {
            if spec.is_none() && rampdown.is_none() {
                Ok(FanRequest::ListAll)
            } else {
                Err(usage_error(language))
            }
        },
        (Some(f), None) => {
            if spec.is_none() && rampdown.is_none() {
                match parse_fan_or_usage(f) {
                    Ok(id) => Ok(FanRequest::Show(id)),
                    Err(e) => Err(e),
                }
            } else {
                Err(usage_error(language))
            }
        },
        (Some(f), Some(mode)) => {
            let id = match parse_fan_or_usage(f) {
                Ok(id) => id,
                Err(e) => return Err(e),
            };
            match plan_fan_edit(language, id, mode, spec, rampdown) {
                Ok(e) => {
                    if !dry_run && !window_running && str_eq(e.mode.as_str(), "curve") {
                        proof {
                            reveal_strlit("curve");
                        }
                        Err(CliError { message: owned(t(language, "curve_needs_gui")), code: EXIT_USAGE })
                    } else {
                        proof {
                            reveal_strlit("curve");
                        }
                        Ok(FanRequest::Edit(e))
                    }
                },
                Err(e) => Err(e),
            }
        },
        (None, Some(_)) => Err(usage_error(language)),
    }
}

pub open spec fn fan_label(language: Language, fan_id: u8) -> Seq<char> {
    translate(
        language,
        if fan_id == 1 { "cpu_fan"@ } else if fan_id == 2 { "secondary_fan"@ } else { "system_fan"@ },
    )
}

/// `<label> <mode> <level> <rpm> RPM`, one fan of `fan` output.
pub open spec fn fan_line_spec(language: Language, fan_id: u8, mode: Seq<char>, level: u8, rpm: u16) -> Seq<char> {
    fan_label(language, fan_id) + " "@ + mode + " "@ + dec(level as nat) + " "@ + dec(rpm as nat)
        + " RPM"@
}

pub fn fan_line(language: Language, fan_id: u8, mode: &str, level: u8, rpm: u16) -> (r: String)
    ensures
        r@ == fan_line_spec(language, fan_id, mode@, level, rpm),
{
    let mut out = owned(t(language, cli_label_key(fan_id)));
    push_str(&mut out, " ");
    push_str(&mut out, mode);
    push_str(&mut out, " ");
    push_dec(&mut out, level as u32);
    push_str(&mut out, " ");
    push_dec(&mut out, rpm as u32);
    push_str(&mut out, " RPM");
    out
}

/// The line `fan ... --dry-run` prints.
pub open spec fn fan_dry_run_spec(language: Language, fan_id: u8, mode: Seq<char>, level: u8) -> Seq<char> {
    translate(language, "would_set_pmode"@) + " "@ + fan_label(language, fan_id) + " "@ + mode + " "@
        + dec(level as nat)
}

pub fn fan_dry_run_line(language: Language, edit: &FanEdit) -> (r: String)
    ensures
        r@ == fan_dry_run_spec(language, edit.fan_id, edit.mode@, edit.level),
{
    let mut out = owned(t(language, "would_set_pmode"));
    push_str(&mut out, " ");
    push_str(&mut out, t(language, cli_label_key(edit.fan_id)));
    push_str(&mut out, " ");
    push_str(&mut out, edit.mode.as_str());
    push_str(&mut out, " ");
    push_dec(&mut out, edit.level as u32);
    out
}

/// The characters `char::to_uppercase` yields for a character: Unicode's
/// upper-case mapping, one to three characters.
pub uninterp spec fn uppercase_of(c: char) -> Seq<char>;

/// std's `char::to_uppercase`, collected.
///
/// Trusted: the contract only names the result as `uppercase_of(c)`; std
/// documents the mapping as Unicode's and it depends on `c` alone.
#[verifier::external_body]
fn to_uppercase_chars(c: char) -> (r: Vec<char>)
    ensures
        r@ == uppercase_of(c),
{
    c.to_uppercase().collect()
}

/// `value` with its first character replaced by `upper_first`.
pub open spec fn capitalized_spec(upper_first: Seq<char>, value: Seq<char>) -> Seq<char> {
    if value.len() == 0 {
        Seq::empty()
    } else {
        upper_first + value.drop_first()
    }
}

/// Joins an upper-cased first character with the rest of `value`.
pub fn capitalize_with(upper_first: &[char], value: &str) -> (r: String)
    ensures
        r@ == capitalized_spec(upper_first@, value@),
{
    let chars = chars_of(value);
    if chars.len() == 0 {
        return String::new();
    }
    let mut out = String::new();
    push_chars(&mut out, upper_first);
    let rest = crate::text::slice_to_vec_range(chars.as_slice(), 1, chars.len());
    push_chars(&mut out, rest.as_slice());
    assert(rest@ =~= value@.drop_first());
    out
}

/// `value` with its first character upper-cased.
pub fn title_case(value: &str) -> (r: String)
    ensures
        r@ == (if value@.len() == 0 {
            Seq::empty()
        } else {
            capitalized_spec(uppercase_of(value@[0]), value@)
        }),
{
    let chars = chars_of(value);
    if chars.len() == 0 {
        return String::new();
    }
    let upper = to_uppercase_chars(chars[0]);
    capitalize_with(upper.as_slice(), value)
}

/// The program runs as the command-line tool when its file is named
/// `evox2ctl` (any case).
pub fn is_cli_program_name(stem: &str) -> (r: bool)
    ensures
        r == (ascii_lower(stem@) == "evox2ctl"@),
{
    let c = chars_of(stem);
    let l = lower_chars(c.as_slice());
    crate::text::chars_eq_str(l.as_slice(), "evox2ctl")
}

pub open spec fn title_case_spec(value: Seq<char>) -> Seq<char> {
    if value.len() == 0 {
        Seq::empty()
    } else {
        capitalized_spec(uppercase_of(value[0]), value)
    }
}

/// The lines `evox2ctl status` prints.
pub open spec fn status_spec(language: Language, rt: RuntimeStatus, m: MetricsSnapshot) -> Seq<Seq<char>> {
    seq![
        kv(language, "model"@, rt.hardware@),
        kv(language, "power_mode_status"@, translate(language, m.power_mode@)),
        translate(language, "apu_temp"@) + " "@ + dec(m.temperature as nat) + " C ("@ + translate(
            language,
            source_key(m.temperature_source),
        ) + ")"@,
        translate(language, "cpu_fan"@) + " "@ + dec(m.fans[0].rpm as nat) + " RPM"@,
        translate(language, "secondary_fan"@) + " "@ + dec(m.fans[1].rpm as nat) + " RPM"@,
        translate(language, "system_fan"@) + " "@ + dec(m.fans[2].rpm as nat) + " RPM"@,
        kv(language, "pawnio"@, title_case_spec(rt.pawnio@)),
        kv(language, "secure_boot"@, rt.secure_boot@),
    ]
}

fn kv_string(language: Language, key: &str, value: &str) -> (r: String)
    ensures
        r@ == kv(language, key@, value@),
{
    let mut out = owned(t(language, key));
    push_str(&mut out, " ");
    push_str(&mut out, value);
    out
}

fn rpm_line(language: Language, key: &str, rpm: u16) -> (r: String)
    ensures
        r@ == translate(language, key@) + " "@ + dec(rpm as nat) + " RPM"@,
{
    let mut out = owned(t(language, key));
    push_str(&mut out, " ");
    push_dec(&mut out, rpm as u32);
    push_str(&mut out, " RPM");
    out
}

pub fn status_lines(language: Language, rt: &RuntimeStatus, m: &MetricsSnapshot) -> (r: Vec<String>)
    ensures
        string_views(r@) == status_spec(language, *rt, *m),
{
    let mut lines: Vec<String> = Vec::new();
    lines.push(kv_string(language, "model", rt.hardware.as_str()));
    lines.push(kv_string(language, "power_mode_status", t(language, m.power_mode.as_str())));
    let mut temp = owned(t(language, "apu_temp"));
    push_str(&mut temp, " ");
    push_dec(&mut temp, m.temperature as u32);
    push_str(&mut temp, " C (");
    push_str(&mut temp, t(language, m.temperature_source.i18n_key()));
    push_str(&mut temp, ")");
    lines.push(temp);
    lines.push(rpm_line(language, "cpu_fan", m.fans[0].rpm));
    lines.push(rpm_line(language, "secondary_fan", m.fans[1].rpm));
    lines.push(rpm_line(language, "system_fan", m.fans[2].rpm));
    let pawnio = title_case(rt.pawnio.as_str());
    lines.push(kv_string(language, "pawnio", pawnio.as_str()));
    lines.push(kv_string(language, "secure_boot", rt.secure_boot.as_str()));
    assert(string_views(lines@) =~= status_spec(language, *rt, *m));
    lines
}

/// What the start-up error dialog says, and whether to open the PawnIO
/// site: missing rights and a missing PawnIO get their own translated text.
pub open spec fn startup_error_spec(language: Language, error: Seq<char>) -> (Seq<char>, bool) {
    let pawnio = contains(ascii_lower(error), "pawnio"@);
    let message = if contains(error, "Administrator"@) {
        translate(language, "admin_required"@)
    } else if pawnio {
        translate(language, "pawnio_missing"@)
    } else {
        error
    };
    (message, pawnio)
}

pub fn startup_error_text(language: Language, error: &str) -> (r: (String, bool))
    ensures
        (r.0@, r.1) == startup_error_spec(language, error@),
{
    let chars = chars_of(error);
    let lower = lower_chars(chars.as_slice());
    let pawnio = has(lower.as_slice(), "pawnio");
    let message = if has(chars.as_slice(), "Administrator") {
        owned(t(language, "admin_required"))
    } else if pawnio {
        owned(t(language, "pawnio_missing"))
    } else {
        owned(error)
    };
    (message, pawnio)
}


/// `needle` cannot occur where a character it holds never appears.
proof fn lemma_absent_char(hay: Seq<char>, needle: Seq<char>, j: int)
    requires
        0 <= j < needle.len(),
        forall|k: int| 0 <= k < hay.len() ==> hay[k] != needle[j],
    ensures
        !contains(hay, needle),
{
    if contains(hay, needle) {
        let i = choose|i: int| occurs_at(hay, needle, i);
        assert(hay.subrange(i, i + needle.len())[j] == needle[j]);
    }
}

/// `needle` cannot occur where two characters it holds side by side never
/// appear side by side.
proof fn lemma_absent_pair(hay: Seq<char>, needle: Seq<char>, j: int)
    requires
        0 <= j && j + 1 < needle.len(),
        forall|k: int| 0 <= k && k + 1 < hay.len() ==> !(#[trigger] hay[k] == needle[j] && hay[k + 1] == needle[j + 1]),
    ensures
        !contains(hay, needle),
{
    if contains(hay, needle) {
        let i = choose|i: int| occurs_at(hay, needle, i);
        assert(hay.subrange(i, i + needle.len())[j] == needle[j]);
        assert(hay.subrange(i, i + needle.len())[j + 1] == needle[j + 1]);
    }
}

/// Between two quotes, a quote-free `needle` occurs in `x + s + y` only where
/// it occurs in one of the three.
proof fn lemma_not_across_quotes(x: Seq<char>, s: Seq<char>, y: Seq<char>, needle: Seq<char>)
    requires
        needle.len() >= 1,
        x.len() >= 1,
        y.len() >= 1,
        x.last() == '\'',
        y[0] == '\'',
        forall|k: int| 0 <= k < needle.len() ==> needle[k] != '\'',
        !contains(x, needle),
        !contains(s, needle),
        !contains(y, needle),
    ensures
        !contains(x + s + y, needle),
{
    let h = x + s + y;
    let n = needle.len() as int;
    let a = x.len() as int;
    let b = (x.len() + s.len()) as int;
    if contains(h, needle) {
        let i = choose|i: int| occurs_at(h, needle, i);
        let w = h.subrange(i, i + n);
        if i + n <= a {
            assert(x.subrange(i, i + n) =~= w);
            assert(occurs_at(x, needle, i));
        } else if i < a {
            assert(w[a - 1 - i] == h[a - 1]);
        } else if i + n <= b {
            assert(s.subrange(i - a, i - a + n) =~= w);
            assert(occurs_at(s, needle, i - a));
        } else if i < b {
            assert(w[b - i] == h[b]);
        } else {
            assert(y.subrange(i - b, i - b + n) =~= w);
            assert(occurs_at(y, needle, i - b));
        }
    }
}

/// A character that lower-cases to a lower-case letter is that letter or its
/// capital; one that lower-cases to anything else is itself.
proof fn lemma_lower_char_from(c: char)
    ensures
        'a' <= lower_char(c) <= 'z' ==> c == lower_char(c) || c as u32 + 32 == lower_char(c) as u32,
        !('a' <= lower_char(c) <= 'z') ==> c == lower_char(c),
{
}

/// The refusal on foreign hardware leads to the unsupported-hardware exit
/// code, as long as the hardware's own summary names none of the markers that
/// take precedence (administrator rights, PawnIO, EC firmware).
pub proof fn lemma_unsupported_hardware_exit_code(h: HardwareIdentity)
    requires
        !contains(summary_spec(h), "Administrator"@),
        !contains(ascii_lower(summary_spec(h)), "administrator"@),
        !contains(ascii_lower(summary_spec(h)), "pawnio"@),
        !contains(ascii_lower(summary_spec(h)), "unsupported ec firmware"@),
    ensures
        exit_code_spec(unsupported_msg(h)) == EXIT_UNSUPPORTED_HARDWARE,
{
    let x = "Unsupported hardware '"@;
    let y = "'. EC writes are disabled to avoid damaging unrelated machines."@;
    let s = summary_spec(h);
    reveal_strlit("Unsupported hardware '");
    reveal_strlit("'. EC writes are disabled to avoid damaging unrelated machines.");
    reveal_strlit("Administrator");
    reveal_strlit("administrator");
    reveal_strlit("pawnio");
    reveal_strlit("unsupported ec firmware");
    reveal_strlit("unsupported hardware");
    let msg = unsupported_msg(h);
    assert(msg =~= x + s + y);
    let lx = ascii_lower(x);
    let ly = ascii_lower(y);
    let lm = ascii_lower(msg);
    assert(lm =~= lx + ascii_lower(s) + ly);
    assert forall|k: int| 0 <= k < lx.len() implies lx[k] == lower_char(x[k]) by {}
    assert forall|k: int| 0 <= k < ly.len() implies ly[k] == lower_char(y[k]) by {}
    assert(lx.last() == '\'');
    assert(ly[0] == '\'');
    // administrator rights, in the original case
    lemma_absent_char(x, "Administrator"@, 0);
    lemma_absent_char(y, "Administrator"@, 0);
    lemma_not_across_quotes(x, s, y, "Administrator"@);
    // the lower-cased markers
    assert forall|k: int| 0 <= k < lx.len() implies lx[k] != 'm' && lx[k] != 'i' && lx[k] != 'f' by {
        lemma_lower_char_from(x[k]);
    }
    assert forall|k: int| 0 <= k < ly.len() implies ly[k] != 'p' by {
        lemma_lower_char_from(y[k]);
    }
    assert forall|k: int| 0 <= k && k + 1 < ly.len() implies !(#[trigger] ly[k] == 'd' && ly[k + 1] == 'm') by {
        lemma_lower_char_from(y[k]);
        lemma_lower_char_from(y[k + 1]);
    }
    lemma_absent_char(lx, "administrator"@, 2);
    lemma_absent_pair(ly, "administrator"@, 1);
    lemma_not_across_quotes(lx, ascii_lower(s), ly, "administrator"@);
    lemma_absent_char(lx, "pawnio"@, 4);
    lemma_absent_char(ly, "pawnio"@, 0);
    lemma_not_across_quotes(lx, ascii_lower(s), ly, "pawnio"@);
    lemma_absent_char(lx, "unsupported ec firmware"@, 15);
    lemma_absent_char(ly, "unsupported ec firmware"@, 4);
    lemma_not_across_quotes(lx, ascii_lower(s), ly, "unsupported ec firmware"@);
    assert(lm.subrange(0, 20) =~= "unsupported hardware"@);
    assert(occurs_at(lm, "unsupported hardware"@, 0));
}

} // verus!
