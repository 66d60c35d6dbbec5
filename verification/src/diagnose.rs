//! The diagnostics report: what it holds and how it reads as text.
use vstd::prelude::*;
use crate::config::{copy_opt, opt_view};
use crate::hardware::{summary_spec, supported_spec, HardwareIdentity};
use crate::i18n::{t, translate, Language};
use crate::session::RuntimeStatus;
use crate::text::{dec, owned, push_dec, push_str, str_eq};
use crate::thermal::TemperatureSource;

verus! {

pub const REPO_URL: &'static str = "https://github.com/Nardo021/ec-su_axb35-win";

/// Everything the diagnostics view and `evox2ctl diagnose` show.
#[derive(Clone, Debug)]
pub struct DiagnoseReport {
    pub app_version: String,
    pub os: String,
    pub architecture: String,
    pub admin: bool,
    pub pawnio: String,
    pub pawnio_version: Option<String>,
    pub lpcacpiec: String,
    pub hardware: String,
    pub hardware_supported: bool,
    pub firmware: Option<String>,
    pub power_mode: Option<String>,
    pub secure_boot: String,
    pub temperature: Option<u8>,
    pub temperature_source: Option<String>,
    pub ec_raw_temp: Option<u8>,
}

/// Lines joined with a newline between each two.
pub open spec fn join_lines(lines: Seq<Seq<char>>) -> Seq<char>
    decreases lines.len(),
{
    if lines.len() == 0 {
        Seq::empty()
    } else if lines.len() == 1 {
        lines[0]
    } else {
        join_lines(lines.drop_last()) + "\n"@ + lines.last()
    }
}

pub open spec fn kv_line(language: Language, key: Seq<char>, value: Seq<char>) -> Seq<char> {
    translate(language, key) + " "@ + value
}

/// The PawnIO line's value.
pub open spec fn pawnio_text(language: Language, pawnio: Seq<char>, version: Option<Seq<char>>) -> Seq<char> {
    if pawnio == "connected"@ {
        match version {
            Some(v) => translate(language, "pawnio_connected_ver"@) + v + ")"@,
            None => translate(language, "pawnio_connected"@),
        }
    } else {
        translate(language, "pawnio_unavailable"@)
    }
}

pub open spec fn or_unknown(language: Language, o: Option<Seq<char>>) -> Seq<char> {
    match o {
        Some(v) => v,
        None => translate(language, "unknown"@),
    }
}

/// The report's lines, in order.
pub open spec fn report_lines(r: DiagnoseReport, language: Language) -> Seq<Seq<char>> {
    let base = seq![
        "EVO-X2 Control "@ + r.app_version@,
        kv_line(language, "os"@, r.os@),
        kv_line(language, "architecture"@, r.architecture@),
        kv_line(
            language,
            "admin_status"@,
            if r.admin { translate(language, "administrator"@) } else { translate(language, "standard_user"@) },
        ),
        kv_line(language, "pawnio_status"@, pawnio_text(language, r.pawnio@, opt_view(r.pawnio_version))),
        kv_line(
            language,
            "lpcacpiec_status"@,
            if r.lpcacpiec@ == "unknown"@ { translate(language, "unknown"@) } else { r.lpcacpiec@ },
        ),
        kv_line(language, "motherboard"@, r.hardware@),
        kv_line(language, "firmware_status"@, or_unknown(language, opt_view(r.firmware))),
        kv_line(language, "current_pmode"@, or_unknown(language, opt_view(r.power_mode))),
        kv_line(language, "secure_boot_status"@, r.secure_boot@),
    ];
    let with_temp = match (r.temperature, opt_view(r.temperature_source)) {
        (Some(temp), Some(source)) => base.push(
            translate(language, "apu_temp"@) + " "@ + dec(temp as nat) + " C ("@ + translate(language, source)
                + ")"@,
        ),
        _ => base,
    };
    let with_ec = match r.ec_raw_temp {
        Some(ec) => with_temp.push(translate(language, "ec_raw_temp"@) + " "@ + dec(ec as nat) + " C"@),
        None => with_temp,
    };
    let with_hw = if !r.hardware_supported {
        with_ec.push(translate(language, "hardware_unsupported"@))
    } else {
        with_ec
    };
    with_hw.push(translate(language, "repository"@) + " "@ + REPO_URL@)
}

/// Appends a line, with a newline before it unless it is the first.
fn push_line(out: &mut String, lines: Ghost<Seq<Seq<char>>>, line: &String)
    requires
        old(out)@ == join_lines(lines@),
        lines@.len() > 0,
    ensures
        final(out)@ == join_lines(lines@.push(line@)),
{
    push_str(out, "\n");
    push_str(out, line.as_str());
    assert(lines@.push(line@).drop_last() =~= lines@);
}

fn kv(language: Language, key: &str, value: &str) -> (r: String)
    ensures
        r@ == kv_line(language, key@, value@),
{
    let mut out = owned(t(language, key));
    push_str(&mut out, " ");
    push_str(&mut out, value);
    out
}

fn opt_or_unknown(language: Language, o: &Option<String>) -> (r: String)
    ensures
        r@ == or_unknown(language, opt_view(*o)),
{
    match o {
        Some(v) => owned(v.as_str()),
        None => owned(t(language, "unknown")),
    }
}

impl DiagnoseReport {
    /// Builds a report from what was probed: the running session's status
    /// when there is one, the detected hardware and registry otherwise.
    pub fn assemble(
        app_version: &str,
        os: &str,
        architecture: &str,
        admin: bool,
        pawnio_present: bool,
        pawnio_version: Option<String>,
        identity: &HardwareIdentity,
        runtime: Option<&RuntimeStatus>,
        secure_boot_fallback: &str,
        firmware: Option<String>,
        power_mode: Option<String>,
        readings: Option<(u8, TemperatureSource, u8)>,
    ) -> (r: DiagnoseReport)
        ensures
            r.app_version@ == app_version@,
            r.os@ == os@,
            r.architecture@ == architecture@,
            r.admin == admin,
            r.pawnio@ == (if pawnio_present { "connected"@ } else { "unavailable"@ }),
            opt_view(r.pawnio_version) == opt_view(pawnio_version),
            r.lpcacpiec@ == (match runtime { Some(rt) => rt.lpcacpiec@, None => "unknown"@ }),
            r.hardware@ == (match runtime { Some(rt) => rt.hardware@, None => summary_spec(*identity) }),
            r.hardware_supported == (match runtime {
                Some(rt) => rt.hardware_supported,
                None => supported_spec(*identity),
            }),
            opt_view(r.firmware) == opt_view(firmware),
            opt_view(r.power_mode) == opt_view(power_mode),
            r.secure_boot@ == (match runtime { Some(rt) => rt.secure_boot@, None => secure_boot_fallback@ }),
            r.temperature == (match readings { Some(x) => Some(x.0), None => None::<u8> }),
            opt_view(r.temperature_source) == (match readings {
                Some(x) => Some(crate::session::source_key(x.1)),
                None => None::<Seq<char>>,
            }),
            r.ec_raw_temp == (match readings { Some(x) => Some(x.2), None => None::<u8> }),
    {
        let (lpcacpiec, hardware, hardware_supported, secure_boot) = match runtime {
            Some(rt) => (
                owned(rt.lpcacpiec.as_str()),
                owned(rt.hardware.as_str()),
                rt.hardware_supported,
                owned(rt.secure_boot.as_str()),
            ),
            None => (
                owned("unknown"),
                identity.summary(),
                identity.is_supported_axb35(),
                owned(secure_boot_fallback),
            ),
        };
        let (temperature, temperature_source, ec_raw_temp) = match readings {
            Some((temp, source, ec)) => (Some(temp), Some(owned(source.i18n_key())), Some(ec)),
            None => (None, None, None),
        };
        DiagnoseReport {
            app_version: owned(app_version),
            os: owned(os),
            architecture: owned(architecture),
            admin,
            pawnio: if pawnio_present { owned("connected") } else { owned("unavailable") },
            pawnio_version,
            lpcacpiec,
            hardware,
            hardware_supported,
            firmware,
            power_mode,
            secure_boot,
            temperature,
            temperature_source,
            ec_raw_temp,
        }
    }

    /// The report as lines of text in the given language.
    #[verifier::rlimit(60)]
    #[verifier::spinoff_prover]
    pub fn format_text(&self, language: Language) -> (r: String)
        ensures
            r@ == join_lines(report_lines(*self, language)),
    {
        let mut out = owned("EVO-X2 Control ");
        push_str(&mut out, self.app_version.as_str());
        let ghost mut lines: Seq<Seq<char>> = seq![out@];

        let l = kv(language, "os", self.os.as_str());
        push_line(&mut out, Ghost(lines), &l);
        proof { lines = lines.push(l@); }

        let l = kv(language, "architecture", self.architecture.as_str());
        push_line(&mut out, Ghost(lines), &l);
        proof { lines = lines.push(l@); }

        let admin = if self.admin { t(language, "administrator") } else { t(language, "standard_user") };
        let l = kv(language, "admin_status", admin);
        push_line(&mut out, Ghost(lines), &l);
        proof { lines = lines.push(l@); }

        let pawnio = if str_eq(self.pawnio.as_str(), "connected") {
            match &self.pawnio_version {
                Some(version) => {
                    let mut p = owned(t(language, "pawnio_connected_ver"));
                    push_str(&mut p, version.as_str());
                    push_str(&mut p, ")");
                    p
                },
                None => owned(t(language, "pawnio_connected")),
            }
        } else {
            owned(t(language, "pawnio_unavailable"))
        };
        let l = kv(language, "pawnio_status", pawnio.as_str());
        push_line(&mut out, Ghost(lines), &l);
        proof { lines = lines.push(l@); }

        let lpc = if str_eq(self.lpcacpiec.as_str(), "unknown") {
            owned(t(language, "unknown"))
        } else {
            owned(self.lpcacpiec.as_str())
        };
        let l = kv(language, "lpcacpiec_status", lpc.as_str());
        push_line(&mut out, Ghost(lines), &l);
        proof { lines = lines.push(l@); }

        let l = kv(language, "motherboard", self.hardware.as_str());
        push_line(&mut out, Ghost(lines), &l);
        proof { lines = lines.push(l@); }

        let fw = opt_or_unknown(language, &self.firmware);
        let l = kv(language, "firmware_status", fw.as_str());
        push_line(&mut out, Ghost(lines), &l);
        proof { lines = lines.push(l@); }

        let pm = opt_or_unknown(language, &self.power_mode);
        let l = kv(language, "current_pmode", pm.as_str());
        push_line(&mut out, Ghost(lines), &l);
        proof { lines = lines.push(l@); }

        let l = kv(language, "secure_boot_status", self.secure_boot.as_str());
        push_line(&mut out, Ghost(lines), &l);
        proof { lines = lines.push(l@); }

        if let (Some(temp), Some(source)) = (self.temperature, &self.temperature_source) {
            let mut l = owned(t(language, "apu_temp"));
            push_str(&mut l, " ");
            push_dec(&mut l, temp as u32);
            push_str(&mut l, " C (");
            push_str(&mut l, t(language, source.as_str()));
            push_str(&mut l, ")");
            push_line(&mut out, Ghost(lines), &l);
            proof { lines = lines.push(l@); }
        }
        if let Some(ec_temp) = self.ec_raw_temp {
            let mut l = owned(t(language, "ec_raw_temp"));
            push_str(&mut l, " ");
            push_dec(&mut l, ec_temp as u32);
            push_str(&mut l, " C");
            push_line(&mut out, Ghost(lines), &l);
            proof { lines = lines.push(l@); }
        }
        if !self.hardware_supported {
            let l = owned(t(language, "hardware_unsupported"));
            push_line(&mut out, Ghost(lines), &l);
            proof { lines = lines.push(l@); }
        }
        let l = kv(language, "repository", REPO_URL);
        push_line(&mut out, Ghost(lines), &l);
        proof {
            lines = lines.push(l@);
            assert(lines =~= report_lines(*self, language));
        }
        out
    }
}

} // verus!
