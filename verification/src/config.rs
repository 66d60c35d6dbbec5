//! Saved settings: the configuration file's model, its defaults, the clean-up
//! applied after loading, and the portable subset that is exported and
//! imported. Reading and writing the file is the caller's business.
use vstd::prelude::*;
use crate::alert::{clamp_threshold, clamp_threshold_spec, TEMP_ALERT_DEFAULT};
use crate::ec::{fan_mode_from_name, power_mode_from_name, FanMode, PowerMode};
use crate::fan::{lemma_sanitize_name_idempotent, sanitize_name, sanitize_name_spec, NAME_MAX_CHARS};
use crate::i18n::{language_from_code, Language};
use crate::text::{contains, dec, owned, push_chars, push_dec, push_str, str_contains, str_eq, trim};
use crate::thermal::{lemma_source_code_roundtrip, source_code, source_from_code, TemperatureSource};

verus! {

pub const SMOOTHING_WINDOW_DEFAULT: u8 = 8;
pub const SMOOTHING_WINDOW_MIN: u8 = 1;
pub const SMOOTHING_WINDOW_MAX: u8 = 20;

/// Listen address and port kept in the file for older tools.
pub const DEFAULT_HOST: &'static str = "127.0.0.1";
pub const DEFAULT_PORT: u16 = 8395;

pub open spec fn clamp_smoothing_spec(value: u8) -> u8 {
    if value < SMOOTHING_WINDOW_MIN {
        SMOOTHING_WINDOW_MIN
    } else if value > SMOOTHING_WINDOW_MAX {
        SMOOTHING_WINDOW_MAX
    } else {
        value
    }
}

/// The smoothing window clamped into `1..=20`.
pub fn clamp_smoothing_window(value: u8) -> (r: u8)
    ensures
        r == clamp_smoothing_spec(value),
{
    if value < SMOOTHING_WINDOW_MIN {
        SMOOTHING_WINDOW_MIN
    } else if value > SMOOTHING_WINDOW_MAX {
        SMOOTHING_WINDOW_MAX
    } else {
        value
    }
}

/// The characters of an optional string.
pub open spec fn opt_view(o: Option<String>) -> Option<Seq<char>> {
    match o {
        Some(s) => Some(s@),
        None => None,
    }
}

/// A copy of an optional string.
pub fn copy_opt(o: &Option<String>) -> (r: Option<String>)
    ensures
        opt_view(r) == opt_view(*o),
{
    match o {
        Some(s) => Some(owned(s.as_str())),
        None => None,
    }
}

/// An optional user-given name after sanitising.
pub open spec fn sanitize_opt(o: Option<Seq<char>>) -> Option<Seq<char>> {
    match o {
        Some(s) => sanitize_name_spec(s),
        None => None,
    }
}

pub fn sanitize_opt_name(o: &Option<String>) -> (r: Option<String>)
    ensures
        opt_view(r) == sanitize_opt(opt_view(*o)),
{
    match o {
        Some(s) => sanitize_name(s.as_str()),
        None => None,
    }
}

/// What one fan's saved settings say.
pub struct FanModel {
    pub mode: Seq<char>,
    pub level: u8,
    pub rampup: Seq<u8>,
    pub rampdown: Seq<u8>,
    pub name: Option<Seq<char>>,
}

/// One fan's saved settings.
#[derive(Debug, Clone, PartialEq, Eq)]
pub struct FanConfig {
    pub mode: String,
    pub level: u8,
    pub rampup_curve: [u8; 5],
    pub rampdown_curve: [u8; 5],
    pub name: Option<String>,
}

impl View for FanConfig {
    type V = FanModel;

    open spec fn view(&self) -> FanModel {
        FanModel {
            mode: self.mode@,
            level: self.level,
            rampup: self.rampup_curve@,
            rampdown: self.rampdown_curve@,
            name: opt_view(self.name),
        }
    }
}

/// Factory settings of a fan: the system fan has its own curve.
pub open spec fn default_fan_spec(fan_id: u8) -> FanModel {
    if fan_id == 3 {
        FanModel {
            mode: "auto"@,
            level: 0,
            rampup: seq![20u8, 60u8, 83u8, 95u8, 97u8],
            rampdown: seq![0u8, 50u8, 80u8, 94u8, 96u8],
            name: None,
        }
    } else {
        FanModel {
            mode: "auto"@,
            level: 0,
            rampup: seq![60u8, 70u8, 83u8, 95u8, 97u8],
            rampdown: seq![40u8, 50u8, 80u8, 94u8, 96u8],
            name: None,
        }
    }
}

/// A fan's settings with its name sanitised.
pub open spec fn sanitized_fan(f: FanModel) -> FanModel {
    FanModel { name: sanitize_opt(f.name), ..f }
}

impl FanConfig {
    pub fn default_for_fan(fan_id: u8) -> (r: FanConfig)
        ensures
            r@ == default_fan_spec(fan_id),
    {
        if fan_id == 3 {
            let r = FanConfig {
                mode: owned("auto"),
                level: 0,
                rampup_curve: [20, 60, 83, 95, 97],
                rampdown_curve: [0, 50, 80, 94, 96],
                name: None,
            };
            assert(r.rampup_curve@ =~= seq![20u8, 60u8, 83u8, 95u8, 97u8]);
            assert(r.rampdown_curve@ =~= seq![0u8, 50u8, 80u8, 94u8, 96u8]);
            r
        } else {
            let r = FanConfig {
                mode: owned("auto"),
                level: 0,
                rampup_curve: [60, 70, 83, 95, 97],
                rampdown_curve: [40, 50, 80, 94, 96],
                name: None,
            };
            assert(r.rampup_curve@ =~= seq![60u8, 70u8, 83u8, 95u8, 97u8]);
            assert(r.rampdown_curve@ =~= seq![40u8, 50u8, 80u8, 94u8, 96u8]);
            r
        }
    }

    /// A fresh copy with the same settings.
    pub fn duplicate(&self) -> (r: FanConfig)
        ensures
            r@ == self@,
            r.rampup_curve == self.rampup_curve,
            r.rampdown_curve == self.rampdown_curve,
    {
        FanConfig {
            mode: owned(self.mode.as_str()),
            level: self.level,
            rampup_curve: self.rampup_curve,
            rampdown_curve: self.rampdown_curve,
            name: copy_opt(&self.name),
        }
    }
}

impl Default for FanConfig {
    fn default() -> (r: FanConfig)
        ensures
            r@ == default_fan_spec(1),
    {
        FanConfig::default_for_fan(1)
    }
}

/// Replaces a fan's name by its sanitised form.
pub fn sanitize_fan_config(fan: &mut FanConfig)
    ensures
        final(fan)@ == sanitized_fan(old(fan)@),
{
    let name = sanitize_opt_name(&fan.name);
    fan.name = name;
}

pub open spec fn opt_fan_view(o: Option<FanConfig>) -> Option<FanModel> {
    match o {
        Some(f) => Some(f@),
        None => None,
    }
}

pub open spec fn sanitize_opt_fan(o: Option<FanModel>) -> Option<FanModel> {
    match o {
        Some(f) => Some(sanitized_fan(f)),
        None => None,
    }
}

/// What the configuration file says.
pub struct ServerModel {
    pub host: Seq<char>,
    pub port: u16,
    pub log_path: Seq<char>,
    pub apu_power_mode: Option<Seq<char>>,
    pub fan1: Option<FanModel>,
    pub fan2: Option<FanModel>,
    pub fan3: Option<FanModel>,
    pub close_to_tray: bool,
    pub start_with_windows: bool,
    pub language: Seq<char>,
    pub temp_alert_enabled: bool,
    pub temp_alert_celsius: u8,
    pub temperature_source: Seq<char>,
    pub smoothing_window: u8,
    pub processor_name: Option<Seq<char>>,
}

/// The configuration file.
#[derive(Debug, Clone)]
pub struct ServerConfig {
    pub host: String,
    pub port: u16,
    pub log_path: String,
    pub apu_power_mode: Option<String>,
    pub fan1: Option<FanConfig>,
    pub fan2: Option<FanConfig>,
    pub fan3: Option<FanConfig>,
    pub close_to_tray: bool,
    pub start_with_windows: bool,
    pub language: String,
    pub temp_alert_enabled: bool,
    pub temp_alert_celsius: u8,
    pub temperature_source: String,
    pub smoothing_window: u8,
    pub processor_name: Option<String>,
}

impl View for ServerConfig {
    type V = ServerModel;

    open spec fn view(&self) -> ServerModel {
        ServerModel {
            host: self.host@,
            port: self.port,
            log_path: self.log_path@,
            apu_power_mode: opt_view(self.apu_power_mode),
            fan1: opt_fan_view(self.fan1),
            fan2: opt_fan_view(self.fan2),
            fan3: opt_fan_view(self.fan3),
            close_to_tray: self.close_to_tray,
            start_with_windows: self.start_with_windows,
            language: self.language@,
            temp_alert_enabled: self.temp_alert_enabled,
            temp_alert_celsius: self.temp_alert_celsius,
            temperature_source: self.temperature_source@,
            smoothing_window: self.smoothing_window,
            processor_name: opt_view(self.processor_name),
        }
    }
}

/// The settings that travel between machines.
pub struct PortableModel {
    pub apu_power_mode: Option<Seq<char>>,
    pub fan1: FanModel,
    pub fan2: FanModel,
    pub fan3: FanModel,
    pub close_to_tray: bool,
    pub start_with_windows: bool,
    pub language: Seq<char>,
    pub temp_alert_enabled: bool,
    pub temp_alert_celsius: u8,
    pub temperature_source: Seq<char>,
    pub smoothing_window: u8,
    pub processor_name: Option<Seq<char>>,
}

/// An exported configuration: everything but the host, port and log path.
#[derive(Debug, Clone)]
pub struct PortableConfig {
    pub apu_power_mode: Option<String>,
    pub fan1: FanConfig,
    pub fan2: FanConfig,
    pub fan3: FanConfig,
    pub close_to_tray: bool,
    pub start_with_windows: bool,
    pub language: String,
    pub temp_alert_enabled: bool,
    pub temp_alert_celsius: u8,
    pub temperature_source: String,
    pub smoothing_window: u8,
    pub processor_name: Option<String>,
}

impl View for PortableConfig {
    type V = PortableModel;

    open spec fn view(&self) -> PortableModel {
        PortableModel {
            apu_power_mode: opt_view(self.apu_power_mode),
            fan1: self.fan1@,
            fan2: self.fan2@,
            fan3: self.fan3@,
            close_to_tray: self.close_to_tray,
            start_with_windows: self.start_with_windows,
            language: self.language@,
            temp_alert_enabled: self.temp_alert_enabled,
            temp_alert_celsius: self.temp_alert_celsius,
            temperature_source: self.temperature_source@,
            smoothing_window: self.smoothing_window,
            processor_name: opt_view(self.processor_name),
        }
    }
}

/// The stored code of the source a code names (unknown codes become `gpu`).
pub open spec fn canonical_source(c: Seq<char>) -> Seq<char> {
    source_code(source_from_code(c))
}

pub open spec fn program_data_dir_spec(system_drive: Seq<char>) -> Seq<char> {
    system_drive + "\\ProgramData\\ec-su_axb35-win"@
}

/// The application's data directory on the given system drive (`C:`).
pub fn program_data_dir(system_drive: &str) -> (r: String)
    ensures
        r@ == program_data_dir_spec(system_drive@),
{
    let mut out = owned(system_drive);
    push_str(&mut out, "\\ProgramData\\ec-su_axb35-win");
    out
}

/// The configuration file inside the data directory.
pub fn config_file_path(data_dir: &str) -> (r: String)
    ensures
        r@ == data_dir@ + "\\config.json"@,
{
    let mut out = owned(data_dir);
    push_str(&mut out, "\\config.json");
    out
}

/// Factory settings, with the log inside the given data directory.
pub open spec fn server_default_spec(data_dir: Seq<char>) -> ServerModel {
    ServerModel {
        host: "127.0.0.1"@,
        port: 8395,
        log_path: data_dir + "\\server.log"@,
        apu_power_mode: None,
        fan1: Some(default_fan_spec(1)),
        fan2: Some(default_fan_spec(2)),
        fan3: Some(default_fan_spec(3)),
        close_to_tray: true,
        start_with_windows: false,
        language: "en"@,
        temp_alert_enabled: true,
        temp_alert_celsius: TEMP_ALERT_DEFAULT,
        temperature_source: "gpu"@,
        smoothing_window: SMOOTHING_WINDOW_DEFAULT,
        processor_name: None,
    }
}

/// What exporting keeps of a configuration. A missing fan exports the
/// factory settings of the first fan, as `FanConfig::default` gives them.
pub open spec fn to_portable_spec(c: ServerModel) -> PortableModel {
    PortableModel {
        apu_power_mode: c.apu_power_mode,
        fan1: match c.fan1 { Some(f) => f, None => default_fan_spec(1) },
        fan2: match c.fan2 { Some(f) => f, None => default_fan_spec(1) },
        fan3: match c.fan3 { Some(f) => f, None => default_fan_spec(1) },
        close_to_tray: c.close_to_tray,
        start_with_windows: c.start_with_windows,
        language: c.language,
        temp_alert_enabled: c.temp_alert_enabled,
        temp_alert_celsius: clamp_threshold_spec(c.temp_alert_celsius),
        temperature_source: canonical_source(c.temperature_source),
        smoothing_window: clamp_smoothing_spec(c.smoothing_window),
        processor_name: sanitize_opt(c.processor_name),
    }
}

/// A configuration after importing `p`: host, port and log path stay.
pub open spec fn apply_portable_spec(c: ServerModel, p: PortableModel) -> ServerModel {
    ServerModel {
        apu_power_mode: p.apu_power_mode,
        fan1: Some(sanitized_fan(p.fan1)),
        fan2: Some(sanitized_fan(p.fan2)),
        fan3: Some(sanitized_fan(p.fan3)),
        close_to_tray: p.close_to_tray,
        start_with_windows: p.start_with_windows,
        language: p.language,
        temp_alert_enabled: p.temp_alert_enabled,
        temp_alert_celsius: clamp_threshold_spec(p.temp_alert_celsius),
        temperature_source: canonical_source(p.temperature_source),
        smoothing_window: clamp_smoothing_spec(p.smoothing_window),
        processor_name: sanitize_opt(p.processor_name),
        ..c
    }
}

/// A saved power mode that names no power mode is dropped.
pub open spec fn valid_power_opt(p: Option<Seq<char>>) -> Option<Seq<char>> {
    match p {
        Some(m) => if power_mode_from_name(m) is Some { Some(m) } else { None },
        None => None,
    }
}

/// A saved fan whose mode names no fan mode goes back to `auto`.
pub open spec fn valid_mode_fan(o: Option<FanModel>) -> Option<FanModel> {
    match o {
        Some(f) => Some(
            if fan_mode_from_name(f.mode) is Some { f } else { FanModel { mode: "auto"@, ..f } },
        ),
        None => None,
    }
}

/// A freshly read file after clean-up: the log always goes to
/// `server.log` in the data directory whatever the file says, values are
/// clamped, the source code made canonical, invalid power and fan modes
/// reset, and the names sanitised.
pub open spec fn normalize_spec(c: ServerModel, data_dir: Seq<char>) -> ServerModel {
    ServerModel {
        log_path: data_dir + "\\server.log"@,
        apu_power_mode: valid_power_opt(c.apu_power_mode),
        temp_alert_celsius: clamp_threshold_spec(c.temp_alert_celsius),
        temperature_source: canonical_source(c.temperature_source),
        smoothing_window: clamp_smoothing_spec(c.smoothing_window),
        fan1: valid_mode_fan(sanitize_opt_fan(c.fan1)),
        fan2: valid_mode_fan(sanitize_opt_fan(c.fan2)),
        fan3: valid_mode_fan(sanitize_opt_fan(c.fan3)),
        processor_name: sanitize_opt(c.processor_name),
        ..c
    }
}

fn reset_invalid_fan_mode(o: &mut Option<FanConfig>)
    ensures
        opt_fan_view(*final(o)) == valid_mode_fan(opt_fan_view(*old(o))),
{
    match o {
        Some(f) => {
            if FanMode::from_name(f.mode.as_str()).is_none() {
                f.mode = owned("auto");
            }
        },
        None => {},
    }
}

pub open spec fn fan_of(c: ServerModel, fan_id: u8) -> Option<FanModel> {
    if fan_id == 1 {
        c.fan1
    } else if fan_id == 2 {
        c.fan2
    } else if fan_id == 3 {
        c.fan3
    } else {
        None
    }
}

/// A fan's mode and its two curves as stored.
pub open spec fn fan_parts(o: Option<FanConfig>) -> Option<(Seq<char>, [u8; 5], [u8; 5])> {
    match o {
        Some(f) => Some((f.mode@, f.rampup_curve, f.rampdown_curve)),
        None => None,
    }
}

pub fn copy_opt_fan(o: &Option<FanConfig>) -> (r: Option<FanConfig>)
    ensures
        opt_fan_view(r) == opt_fan_view(*o),
        fan_parts(r) == fan_parts(*o),
{
    match o {
        Some(f) => Some(f.duplicate()),
        None => None,
    }
}

fn fan_or_default(o: &Option<FanConfig>) -> (r: FanConfig)
    ensures
        r@ == (match opt_fan_view(*o) { Some(f) => f, None => default_fan_spec(1) }),
{
    match o {
        Some(f) => f.duplicate(),
        None => FanConfig::default(),
    }
}

fn sanitize_opt_fan_config(o: &mut Option<FanConfig>)
    ensures
        opt_fan_view(*final(o)) == sanitize_opt_fan(opt_fan_view(*old(o))),
{
    match o {
        Some(f) => {
            sanitize_fan_config(f);
        },
        None => {},
    }
}

/// Sanitises the names of all three fans.
pub fn sanitize_fan_names(config: &mut ServerConfig)
    ensures
        final(config)@ == (ServerModel {
            fan1: sanitize_opt_fan(old(config)@.fan1),
            fan2: sanitize_opt_fan(old(config)@.fan2),
            fan3: sanitize_opt_fan(old(config)@.fan3),
            ..old(config)@
        }),
{
    sanitize_opt_fan_config(&mut config.fan1);
    sanitize_opt_fan_config(&mut config.fan2);
    sanitize_opt_fan_config(&mut config.fan3);
}

impl ServerConfig {
    /// Factory settings with the log inside `data_dir`.
    pub fn for_data_dir(data_dir: &str) -> (r: ServerConfig)
        ensures
            r@ == server_default_spec(data_dir@),
    {
        let mut log_path = owned(data_dir);
        push_str(&mut log_path, "\\server.log");
        ServerConfig {
            host: owned(DEFAULT_HOST),
            port: DEFAULT_PORT,
            log_path,
            apu_power_mode: None,
            fan1: Some(FanConfig::default_for_fan(1)),
            fan2: Some(FanConfig::default_for_fan(2)),
            fan3: Some(FanConfig::default_for_fan(3)),
            close_to_tray: true,
            start_with_windows: false,
            language: owned("en"),
            temp_alert_enabled: true,
            temp_alert_celsius: TEMP_ALERT_DEFAULT,
            temperature_source: owned("gpu"),
            smoothing_window: SMOOTHING_WINDOW_DEFAULT,
            processor_name: None,
        }
    }

    pub fn language(&self) -> (r: Language)
        ensures
            r == language_from_code(self@.language),
    {
        Language::from_code(self.language.as_str())
    }

    pub fn temperature_source(&self) -> (r: TemperatureSource)
        ensures
            r == source_from_code(self@.temperature_source),
    {
        TemperatureSource::from_code(self.temperature_source.as_str())
    }

    /// The processor's custom name, if one is set.
    pub fn processor_custom_name(&self) -> (r: Option<String>)
        ensures
            opt_view(r) == sanitize_opt(self@.processor_name),
    {
        sanitize_opt_name(&self.processor_name)
    }

    /// A fan's custom name, if the fan is known and has one.
    pub fn fan_custom_name(&self, fan_id: u8) -> (r: Option<String>)
        ensures
            opt_view(r) == (match fan_of(self@, fan_id) {
                Some(f) => sanitize_opt(f.name),
                None => None,
            }),
    {
        let fan = match fan_id {
            1 => &self.fan1,
            2 => &self.fan2,
            3 => &self.fan3,
            _ => return None,
        };
        match fan {
            Some(f) => sanitize_opt_name(&f.name),
            None => None,
        }
    }

    /// The settings page's window options. Returns whether "start with
    /// Windows" changed, in which case the logon task has to follow.
    pub fn apply_window_settings(&mut self, close_to_tray: bool, start_with_windows: bool, language: String) -> (start_changed: bool)
        ensures
            start_changed == (old(self).start_with_windows != start_with_windows),
            final(self)@ == (ServerModel {
                close_to_tray,
                start_with_windows,
                language: language@,
                ..old(self)@
            }),
    {
        let start_changed = self.start_with_windows != start_with_windows;
        self.close_to_tray = close_to_tray;
        self.start_with_windows = start_with_windows;
        self.language = language;
        start_changed
    }

    /// The logon task could not be changed to `requested`: the setting goes
    /// back to what it was.
    pub fn revert_start_with_windows(&mut self, requested: bool)
        ensures
            final(self)@ == (ServerModel { start_with_windows: !requested, ..old(self)@ }),
    {
        self.start_with_windows = !requested;
    }

    /// The temperature alert options; the threshold is kept in range.
    pub fn apply_alert_settings(&mut self, enabled: bool, celsius: u8)
        ensures
            final(self)@ == (ServerModel {
                temp_alert_enabled: enabled,
                temp_alert_celsius: clamp_threshold_spec(celsius),
                ..old(self)@
            }),
    {
        self.temp_alert_enabled = enabled;
        self.temp_alert_celsius = clamp_threshold(celsius);
    }

    /// Chooses the temperature source by code (unknown codes choose the GPU)
    /// and stores its canonical code.
    pub fn choose_temperature_source(&mut self, code: &str) -> (r: TemperatureSource)
        ensures
            r == source_from_code(code@),
            final(self)@ == (ServerModel { temperature_source: source_code(r), ..old(self)@ }),
    {
        let source = TemperatureSource::from_code(code);
        self.temperature_source = owned(source.code());
        source
    }

    /// Clean-up applied to a configuration just read from disk.
    pub fn normalize_loaded(&mut self, data_dir: &str)
        ensures
            final(self)@ == normalize_spec(old(self)@, data_dir@),
    {
        let mut path = owned(data_dir);
        push_str(&mut path, "\\server.log");
        self.log_path = path;
        let keep_power = match &self.apu_power_mode {
            Some(m) => PowerMode::from_name(m.as_str()).is_some(),
            None => true,
        };
        if !keep_power {
            self.apu_power_mode = None;
        }
        self.temp_alert_celsius = clamp_threshold(self.temp_alert_celsius);
        let source = self.temperature_source().code();
        self.temperature_source = owned(source);
        self.smoothing_window = clamp_smoothing_window(self.smoothing_window);
        sanitize_fan_names(self);
        let name = sanitize_opt_name(&self.processor_name);
        self.processor_name = name;
        reset_invalid_fan_mode(&mut self.fan1);
        reset_invalid_fan_mode(&mut self.fan2);
        reset_invalid_fan_mode(&mut self.fan3);
    }

    /// The portable subset of this configuration.
    pub fn to_portable(&self) -> (r: PortableConfig)
        ensures
            r@ == to_portable_spec(self@),
    {
        PortableConfig {
            apu_power_mode: copy_opt(&self.apu_power_mode),
            fan1: fan_or_default(&self.fan1),
            fan2: fan_or_default(&self.fan2),
            fan3: fan_or_default(&self.fan3),
            close_to_tray: self.close_to_tray,
            start_with_windows: self.start_with_windows,
            language: owned(self.language.as_str()),
            temp_alert_enabled: self.temp_alert_enabled,
            temp_alert_celsius: clamp_threshold(self.temp_alert_celsius),
            temperature_source: owned(self.temperature_source().code()),
            smoothing_window: clamp_smoothing_window(self.smoothing_window),
            processor_name: sanitize_opt_name(&self.processor_name),
        }
    }

    /// Takes over an imported configuration.
    pub fn apply_portable(&mut self, portable: PortableConfig)
        ensures
            final(self)@ == apply_portable_spec(old(self)@, portable@),
    {
        let source = TemperatureSource::from_code(portable.temperature_source.as_str()).code();
        let processor_name = sanitize_opt_name(&portable.processor_name);
        let PortableConfig {
            apu_power_mode,
            mut fan1,
            mut fan2,
            mut fan3,
            close_to_tray,
            start_with_windows,
            language,
            temp_alert_enabled,
            temp_alert_celsius,
            temperature_source: _,
            smoothing_window,
            processor_name: _,
        } = portable;
        sanitize_fan_config(&mut fan1);
        sanitize_fan_config(&mut fan2);
        sanitize_fan_config(&mut fan3);
        self.apu_power_mode = apu_power_mode;
        self.fan1 = Some(fan1);
        self.fan2 = Some(fan2);
        self.fan3 = Some(fan3);
        self.close_to_tray = close_to_tray;
        self.start_with_windows = start_with_windows;
        self.language = language;
        self.temp_alert_enabled = temp_alert_enabled;
        self.temp_alert_celsius = clamp_threshold(temp_alert_celsius);
        self.temperature_source = owned(source);
        self.smoothing_window = clamp_smoothing_window(smoothing_window);
        self.processor_name = processor_name;
    }
}

/// The first complaint about one fan's settings, if any.
pub open spec fn fan_error(name: Seq<char>, f: FanModel) -> Option<Seq<char>> {
    if fan_mode_from_name(f.mode) is None {
        Some("Invalid "@ + name + " mode: "@ + f.mode)
    } else if f.level > 5 {
        Some("Invalid "@ + name + " level: "@ + dec(f.level as nat))
    } else if f.name matches Some(l) && l.len() > NAME_MAX_CHARS * 2 {
        Some("Invalid "@ + name + " name: too long"@)
    } else {
        None
    }
}

/// The first complaint about an imported configuration, in the order the
/// checks run, or `None` when it is acceptable.
pub open spec fn portable_error(p: PortableModel) -> Option<Seq<char>> {
    if p.apu_power_mode matches Some(m) && power_mode_from_name(m) is None {
        Some("Invalid power mode: "@ + p.apu_power_mode->0)
    } else if fan_error("fan1"@, p.fan1) is Some {
        fan_error("fan1"@, p.fan1)
    } else if fan_error("fan2"@, p.fan2) is Some {
        fan_error("fan2"@, p.fan2)
    } else if fan_error("fan3"@, p.fan3) is Some {
        fan_error("fan3"@, p.fan3)
    } else if !(p.language == "zh"@ || p.language == "en"@) {
        Some("Invalid language: "@ + p.language)
    } else if !(70 <= p.temp_alert_celsius <= 97) {
        Some("Temperature alert threshold must be between 70 and 97, got "@ + dec(p.temp_alert_celsius as nat))
    } else if canonical_source(p.temperature_source) != p.temperature_source {
        Some("Invalid temperature source: "@ + p.temperature_source)
    } else if !(SMOOTHING_WINDOW_MIN <= p.smoothing_window <= SMOOTHING_WINDOW_MAX) {
        Some("Smoothing window must be between 1 and 20, got "@ + dec(p.smoothing_window as nat))
    } else if p.processor_name matches Some(l) && l.len() > NAME_MAX_CHARS * 2 {
        Some("Invalid processor name: too long"@)
    } else {
        None
    }
}

/// Checks one fan's settings.
pub fn validate_fan(name: &str, fan: &FanConfig) -> (r: Result<(), String>)
    ensures
        r is Ok <==> fan_error(name@, fan@) is None,
        r matches Err(e) ==> fan_error(name@, fan@) == Some(e@),
{
    if FanMode::from_name(fan.mode.as_str()).is_none() {
        let mut e = owned("Invalid ");
        push_str(&mut e, name);
        push_str(&mut e, " mode: ");
        push_str(&mut e, fan.mode.as_str());
        return Err(e);
    }
    if fan.level > 5 {
        let mut e = owned("Invalid ");
        push_str(&mut e, name);
        push_str(&mut e, " level: ");
        push_dec(&mut e, fan.level as u32);
        return Err(e);
    }
    if let Some(label) = &fan.name {
        if label.as_str().unicode_len() > NAME_MAX_CHARS * 2 {
            let mut e = owned("Invalid ");
            push_str(&mut e, name);
            push_str(&mut e, " name: too long");
            return Err(e);
        }
    }
    Ok(())
}

impl PortableConfig {
    /// Checks an imported configuration before it is applied.
    pub fn validate(&self) -> (r: Result<(), String>)
        ensures
            r is Ok <==> portable_error(self@) is None,
            r matches Err(e) ==> portable_error(self@) == Some(e@),
    {
        if let Some(mode) = &self.apu_power_mode {
            if PowerMode::from_name(mode.as_str()).is_none() {
                let mut e = owned("Invalid power mode: ");
                push_str(&mut e, mode.as_str());
                return Err(e);
            }
        }
        match validate_fan("fan1", &self.fan1) {
            Err(e) => return Err(e),
            Ok(()) => {},
        }
        match validate_fan("fan2", &self.fan2) {
            Err(e) => return Err(e),
            Ok(()) => {},
        }
        match validate_fan("fan3", &self.fan3) {
            Err(e) => return Err(e),
            Ok(()) => {},
        }
        if !(str_eq(self.language.as_str(), "zh") || str_eq(self.language.as_str(), "en")) {
            let mut e = owned("Invalid language: ");
            push_str(&mut e, self.language.as_str());
            return Err(e);
        }
        if !(70 <= self.temp_alert_celsius && self.temp_alert_celsius <= 97) {
            let mut e = owned("Temperature alert threshold must be between 70 and 97, got ");
            push_dec(&mut e, self.temp_alert_celsius as u32);
            return Err(e);
        }
        let canonical = TemperatureSource::from_code(self.temperature_source.as_str()).code();
        if !str_eq(canonical, self.temperature_source.as_str()) {
            let mut e = owned("Invalid temperature source: ");
            push_str(&mut e, self.temperature_source.as_str());
            return Err(e);
        }
        if !(SMOOTHING_WINDOW_MIN <= self.smoothing_window && self.smoothing_window
            <= SMOOTHING_WINDOW_MAX) {
            let mut e = owned("Smoothing window must be between 1 and 20, got ");
            push_dec(&mut e, self.smoothing_window as u32);
            return Err(e);
        }
        if let Some(label) = &self.processor_name {
            if label.as_str().unicode_len() > NAME_MAX_CHARS * 2 {
                return Err(owned("Invalid processor name: too long"));
            }
        }
        Ok(())
    }
}

/// A configuration whose exported settings pass validation: a known power
/// mode (or none), valid fan modes and levels, names no longer than twice the
/// name limit, and a known language.
pub open spec fn exportable(c: ServerModel) -> bool {
    &&& (c.apu_power_mode matches Some(m) ==> power_mode_from_name(m) is Some)
    &&& (c.fan1 matches Some(f) ==> fan_error("fan1"@, f) is None)
    &&& (c.fan2 matches Some(f) ==> fan_error("fan2"@, f) is None)
    &&& (c.fan3 matches Some(f) ==> fan_error("fan3"@, f) is None)
    &&& (c.language == "zh"@ || c.language == "en"@)
}

/// Names of a portable configuration after sanitising.
pub open spec fn sanitize_portable_names(p: PortableModel) -> PortableModel {
    PortableModel {
        fan1: sanitized_fan(p.fan1),
        fan2: sanitized_fan(p.fan2),
        fan3: sanitized_fan(p.fan3),
        processor_name: sanitize_opt(p.processor_name),
        ..p
    }
}

proof fn lemma_sanitize_opt_idempotent(o: Option<Seq<char>>)
    ensures
        sanitize_opt(sanitize_opt(o)) == sanitize_opt(o),
{
    if let Some(s) = o {
        if sanitize_name_spec(s) is Some {
            lemma_sanitize_name_idempotent(s);
        }
    }
}

proof fn lemma_canonical_source_idempotent(c: Seq<char>)
    ensures
        canonical_source(canonical_source(c)) == canonical_source(c),
{
    lemma_source_code_roundtrip(source_from_code(c));
}

proof fn lemma_sanitized_name_short(o: Option<Seq<char>>)
    ensures
        sanitize_opt(o) matches Some(l) ==> l.len() <= NAME_MAX_CHARS,
{
    if let Some(s) = o {
        if sanitize_name_spec(s) is Some {
            crate::fan::lemma_sanitized_name_shape(s);
        }
    }
}

/// Exporting an exportable configuration gives a file that passes validation.
pub proof fn lemma_export_validates(c: ServerModel)
    requires
        exportable(c),
    ensures
        portable_error(to_portable_spec(c)) is None,
{
    reveal_strlit("auto");
    let p = to_portable_spec(c);
    lemma_canonical_source_idempotent(c.temperature_source);
    lemma_sanitized_name_short(c.processor_name);
    assert(fan_mode_from_name("auto"@) is Some);
    assert(fan_error("fan1"@, p.fan1) is None);
    assert(fan_error("fan2"@, p.fan2) is None);
    assert(fan_error("fan3"@, p.fan3) is None);
}

/// Importing an acceptable file and exporting again gives back the file, with
/// only its names sanitised; the configuration it was imported into does not
/// matter.
pub proof fn lemma_import_then_export(c: ServerModel, p: PortableModel)
    requires
        portable_error(p) is None,
    ensures
        to_portable_spec(apply_portable_spec(c, p)) == sanitize_portable_names(p),
{
    let q = to_portable_spec(apply_portable_spec(c, p));
    lemma_sanitize_opt_idempotent(p.processor_name);
    assert(clamp_threshold_spec(p.temp_alert_celsius) == p.temp_alert_celsius);
    assert(clamp_smoothing_spec(p.smoothing_window) == p.smoothing_window);
    lemma_canonical_source_idempotent(p.temperature_source);
    assert(q == sanitize_portable_names(p));
}

/// A name that cleaning leaves as it is: none, or already trimmed, not empty
/// and no longer than the name limit.
pub open spec fn clean_name(o: Option<Seq<char>>) -> bool {
    match o {
        Some(s) => trim(s) == s && 0 < s.len() <= NAME_MAX_CHARS,
        None => true,
    }
}

/// Applying an acceptable file whose names are already clean, then exporting,
/// gives the file back exactly; the host, port and log path stay as they
/// were, and all three fans are present.
pub proof fn lemma_apply_then_export(c: ServerModel, p: PortableModel)
    requires
        portable_error(p) is None,
        clean_name(p.processor_name),
        clean_name(p.fan1.name),
        clean_name(p.fan2.name),
        clean_name(p.fan3.name),
    ensures
        to_portable_spec(apply_portable_spec(c, p)) == p,
        apply_portable_spec(c, p).host == c.host,
        apply_portable_spec(c, p).port == c.port,
        apply_portable_spec(c, p).log_path == c.log_path,
        apply_portable_spec(c, p).fan1 is Some,
        apply_portable_spec(c, p).fan2 is Some,
        apply_portable_spec(c, p).fan3 is Some,
{
    lemma_import_then_export(c, p);
    assert(sanitize_portable_names(p) == p);
}

/// Importing the export of a configuration into it changes nothing that is
/// exported, once the configuration has been cleaned up after loading.
pub proof fn lemma_export_then_import(c: ServerModel, data_dir: Seq<char>)
    ensures
        ({
            let n = normalize_spec(c, data_dir);
            to_portable_spec(apply_portable_spec(n, to_portable_spec(n))) == to_portable_spec(n)
        }),
{
    let n = normalize_spec(c, data_dir);
    let p = to_portable_spec(n);
    lemma_sanitize_opt_idempotent(c.processor_name);
    lemma_sanitize_opt_idempotent(sanitize_opt(c.processor_name));
    lemma_canonical_source_idempotent(c.temperature_source);
    lemma_canonical_source_idempotent(canonical_source(c.temperature_source));
    if let Some(f) = c.fan1 {
        lemma_sanitize_opt_idempotent(f.name);
    }
    if let Some(f) = c.fan2 {
        lemma_sanitize_opt_idempotent(f.name);
    }
    if let Some(f) = c.fan3 {
        lemma_sanitize_opt_idempotent(f.name);
    }
    assert(to_portable_spec(apply_portable_spec(n, p)) == p);
}

/// Cleaning up twice is cleaning up once.
pub proof fn lemma_normalize_idempotent(c: ServerModel, data_dir: Seq<char>)
    ensures
        normalize_spec(normalize_spec(c, data_dir), data_dir) == normalize_spec(c, data_dir),
{
    let n = normalize_spec(c, data_dir);
    lemma_sanitize_opt_idempotent(c.processor_name);
    lemma_canonical_source_idempotent(c.temperature_source);
    if let Some(f) = c.fan1 {
        lemma_sanitize_opt_idempotent(f.name);
    }
    if let Some(f) = c.fan2 {
        lemma_sanitize_opt_idempotent(f.name);
    }
    if let Some(f) = c.fan3 {
        lemma_sanitize_opt_idempotent(f.name);
    }
    assert(normalize_spec(n, data_dir) == n);
}

} // verus!
