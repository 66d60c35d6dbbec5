//! APU temperature used for display and fan curves.
//!
//! EC register `0x70` is the ACPI CPUT byte. On current EVO-X2 firmware that
//! value does not match the AMD GPU sensor shown in Task Manager, so the GPU
//! driver reading is preferred, then AMD ADL, then the EC byte. The readings
//! themselves are taken by the caller; this module decodes and ranks them.
use vstd::prelude::*;
use crate::text::{dec, push_dec, push_str, str_eq};

verus! {

/// PCI vendor id of AMD.
pub const AMD_VENDOR_ID: u32 = 0x1002;
/// WDDM adapter-type flag of a software (non-hardware) device.
pub const ADAPTER_TYPE_SOFTWARE_DEVICE: u32 = 4;
pub const ADL_PMLOG_TEMPERATURE_EDGE: usize = 8;
pub const ADL_PMLOG_TEMPERATURE_GFX: usize = 28;
pub const ADL_PMLOG_TEMPERATURE_SOC: usize = 29;
pub const ADL_PMLOG_TEMPERATURE_CPU: usize = 32;

/// Where an APU temperature came from.
#[derive(Debug, Clone, Copy, PartialEq, Eq, Structural)]
pub enum TemperatureSource {
    Gpu,
    Adl,
    Ec,
}

pub open spec fn source_code(s: TemperatureSource) -> Seq<char> {
    match s {
        TemperatureSource::Gpu => "gpu"@,
        TemperatureSource::Adl => "adl"@,
        TemperatureSource::Ec => "ec"@,
    }
}

/// The source a stored code names; anything unknown means the GPU driver.
pub open spec fn source_from_code(c: Seq<char>) -> TemperatureSource {
    if c == "adl"@ {
        TemperatureSource::Adl
    } else if c == "ec"@ {
        TemperatureSource::Ec
    } else {
        TemperatureSource::Gpu
    }
}

impl TemperatureSource {
    /// Every source, in order of preference.
    pub fn all() -> (r: [TemperatureSource; 3])
        ensures
            r@ == seq![TemperatureSource::Gpu, TemperatureSource::Adl, TemperatureSource::Ec],
    {
        [TemperatureSource::Gpu, TemperatureSource::Adl, TemperatureSource::Ec]
    }

    /// The code stored in the configuration file.
    pub fn code(self) -> (r: &'static str)
        ensures
            r@ == source_code(self),
    {
        match self {
            TemperatureSource::Gpu => "gpu",
            TemperatureSource::Adl => "adl",
            TemperatureSource::Ec => "ec",
        }
    }

    pub fn from_code(code: &str) -> (r: TemperatureSource)
        ensures
            r == source_from_code(code@),
    {
        if str_eq(code, "adl") {
            TemperatureSource::Adl
        } else if str_eq(code, "ec") {
            TemperatureSource::Ec
        } else {
            TemperatureSource::Gpu
        }
    }

    /// Translation key of the source's display name.
    pub fn i18n_key(self) -> (r: &'static str)
        ensures
            r@ == (match self {
                TemperatureSource::Gpu => "temp_src_gpu"@,
                TemperatureSource::Adl => "temp_src_adl"@,
                TemperatureSource::Ec => "temp_src_ec"@,
            }),
    {
        match self {
            TemperatureSource::Gpu => "temp_src_gpu",
            TemperatureSource::Adl => "temp_src_adl",
            TemperatureSource::Ec => "temp_src_ec",
        }
    }

    pub fn as_log_str(self) -> (r: &'static str)
        ensures
            r@ == log_name(self),
    {
        match self {
            TemperatureSource::Gpu => "GPU driver (Task Manager)",
            TemperatureSource::Adl => "AMD ADL",
            TemperatureSource::Ec => "EC 0x70",
        }
    }
}

pub open spec fn log_name(s: TemperatureSource) -> Seq<char> {
    match s {
        TemperatureSource::Gpu => "GPU driver (Task Manager)"@,
        TemperatureSource::Adl => "AMD ADL"@,
        TemperatureSource::Ec => "EC 0x70"@,
    }
}

/// Every source's code names that source again.
pub proof fn lemma_source_code_roundtrip(s: TemperatureSource)
    ensures
        source_from_code(source_code(s)) == s,
{
    reveal_strlit("gpu");
    reveal_strlit("adl");
    reveal_strlit("ec");
    assert("gpu"@[0] != "adl"@[0]);
    assert("gpu"@.len() != "ec"@.len());
    assert("adl"@.len() != "ec"@.len());
}

/// The preferred reading wins: GPU driver, then ADL, then the EC byte.
pub open spec fn resolve_spec(wddm: Option<u8>, adl: Option<u8>, ec_celsius: u8) -> (u8, TemperatureSource) {
    match wddm {
        Some(t) => (t, TemperatureSource::Gpu),
        None => match adl {
            Some(t) => (t, TemperatureSource::Adl),
            None => (ec_celsius, TemperatureSource::Ec),
        },
    }
}

/// Picks the temperature and its source from the three readings.
pub fn resolve_with_source(wddm: Option<u8>, adl: Option<u8>, ec_celsius: u8) -> (r: (u8, TemperatureSource))
    ensures
        r == resolve_spec(wddm, adl, ec_celsius),
{
    if let Some(temp) = wddm {
        return (temp, TemperatureSource::Gpu);
    }
    if let Some(temp) = adl {
        return (temp, TemperatureSource::Adl);
    }
    (ec_celsius, TemperatureSource::Ec)
}

pub fn resolve_temperature(wddm: Option<u8>, adl: Option<u8>, ec_celsius: u8) -> (r: u8)
    ensures
        r == resolve_spec(wddm, adl, ec_celsius).0,
{
    resolve_with_source(wddm, adl, ec_celsius).0
}

pub open spec fn describe_spec(wddm: Option<u8>, adl: Option<u8>, ec_celsius: u8) -> Seq<char> {
    let (temp, source) = resolve_spec(wddm, adl, ec_celsius);
    "APU temperature "@ + dec(temp as nat) + "°C from "@ + log_name(source) + " (EC 0x70 = "@ + dec(
        ec_celsius as nat,
    ) + "°C)"@
}

/// One log line naming the temperature in use and where it came from.
pub fn describe_source(wddm: Option<u8>, adl: Option<u8>, ec_celsius: u8) -> (r: String)
    ensures
        r@ == describe_spec(wddm, adl, ec_celsius),
{
    let (temp, source) = resolve_with_source(wddm, adl, ec_celsius);
    let mut out = String::new();
    push_str(&mut out, "APU temperature ");
    push_dec(&mut out, temp as u32);
    push_str(&mut out, "°C from ");
    push_str(&mut out, source.as_log_str());
    push_str(&mut out, " (EC 0x70 = ");
    push_dec(&mut out, ec_celsius as u32);
    push_str(&mut out, "°C)");
    out
}

/// A reading in degrees that a working sensor can give: 10 to 115.
pub open spec fn plausible_spec(value: int) -> Option<u8> {
    if 10 <= value <= 115 {
        Some(value as u8)
    } else {
        None
    }
}

pub fn plausible_celsius(value: u32) -> (r: Option<u8>)
    ensures
        r == plausible_spec(value as int),
{
    if 10 <= value && value <= 115 {
        Some(value as u8)
    } else {
        None
    }
}

/// Tenths of a degree, rounded half up; zero means no reading. A value so
/// large that adding the rounding half wraps round gives no reading either.
pub open spec fn deci_spec(deci: u32) -> Option<u8> {
    if deci == 0 || deci > u32::MAX - 5 {
        None
    } else {
        plausible_spec((deci + 5) / 10)
    }
}

/// Converts a GPU driver reading in tenths of a degree.
pub fn deci_celsius_to_u8(deci: u32) -> (r: Option<u8>)
    ensures
        r == deci_spec(deci),
{
    if deci == 0 {
        return None;
    }
    match deci.checked_add(5) {
        Some(x) => plausible_celsius(x / 10),
        None => None,
    }
}

/// Thousandths of a degree, rounded half up; nothing at or below zero. A value
/// so large that adding the rounding half wraps round gives no reading.
pub open spec fn milli_spec(milli: i32) -> Option<u8> {
    if milli <= 0 || milli > i32::MAX - 500 {
        None
    } else {
        plausible_spec((milli + 500) / 1000)
    }
}

/// Converts an AMD ADL reading in thousandths of a degree.
pub fn millicelsius_to_u8(milli: i32) -> (r: Option<u8>)
    ensures
        r == milli_spec(milli),
{
    if milli <= 0 {
        return None;
    }
    match milli.checked_add(500) {
        Some(x) => {
            let rounded = x / 1000;
            plausible_celsius(rounded as u32)
        },
        None => None,
    }
}

/// One ADL performance-log sensor, given as `(supported, value)` pairs.
pub open spec fn pmlog_sensor_spec(sensors: Seq<(i32, i32)>, index: int) -> Option<u8> {
    if index < 0 || index >= sensors.len() {
        None
    } else if sensors[index].0 == 0 || sensors[index].1 < 0 {
        None
    } else {
        plausible_spec(sensors[index].1 as int)
    }
}

pub fn pmlog_sensor(sensors: &[(i32, i32)], index: usize) -> (r: Option<u8>)
    ensures
        r == pmlog_sensor_spec(sensors@, index as int),
{
    if index >= sensors.len() {
        return None;
    }
    let (supported, value) = sensors[index];
    if supported == 0 || value < 0 {
        return None;
    }
    plausible_celsius(value as u32)
}

/// The first usable sensor of graphics, edge, SoC and CPU, in that order.
pub open spec fn pmlog_temperature_spec(sensors: Seq<(i32, i32)>) -> Option<u8> {
    let g = pmlog_sensor_spec(sensors, ADL_PMLOG_TEMPERATURE_GFX as int);
    let e = pmlog_sensor_spec(sensors, ADL_PMLOG_TEMPERATURE_EDGE as int);
    let s = pmlog_sensor_spec(sensors, ADL_PMLOG_TEMPERATURE_SOC as int);
    let c = pmlog_sensor_spec(sensors, ADL_PMLOG_TEMPERATURE_CPU as int);
    if g is Some {
        g
    } else if e is Some {
        e
    } else if s is Some {
        s
    } else {
        c
    }
}

pub fn pmlog_temperature(sensors: &[(i32, i32)]) -> (r: Option<u8>)
    ensures
        r == pmlog_temperature_spec(sensors@),
{
    let g = pmlog_sensor(sensors, ADL_PMLOG_TEMPERATURE_GFX);
    if g.is_some() {
        return g;
    }
    let e = pmlog_sensor(sensors, ADL_PMLOG_TEMPERATURE_EDGE);
    if e.is_some() {
        return e;
    }
    let s = pmlog_sensor(sensors, ADL_PMLOG_TEMPERATURE_SOC);
    if s.is_some() {
        return s;
    }
    pmlog_sensor(sensors, ADL_PMLOG_TEMPERATURE_CPU)
}

/// One ADL adapter: the Overdrive reading if it converts, else the
/// performance log (empty when that call is unavailable or failed).
pub open spec fn adl_adapter_spec(od5_milli: Option<i32>, sensors: Seq<(i32, i32)>) -> Option<u8> {
    match od5_milli {
        Some(m) if milli_spec(m) is Some => milli_spec(m),
        _ => pmlog_temperature_spec(sensors),
    }
}

pub fn adl_adapter_temperature(od5_milli: Option<i32>, sensors: &[(i32, i32)]) -> (r: Option<u8>)
    ensures
        r == adl_adapter_spec(od5_milli, sensors@),
{
    if let Some(m) = od5_milli {
        let t = millicelsius_to_u8(m);
        if t.is_some() {
            return t;
        }
    }
    pmlog_temperature(sensors)
}

/// One WDDM adapter: software devices and missing performance data give no
/// reading; otherwise the converted temperature with the adapter's vendor.
pub open spec fn wddm_adapter_spec(adapter_type: u32, vendor: Option<u32>, perf_deci: Option<u32>) -> Option<(u8, Option<u32>)> {
    if adapter_type & ADAPTER_TYPE_SOFTWARE_DEVICE != 0 {
        None
    } else {
        match perf_deci {
            None => None,
            Some(d) => match deci_spec(d) {
                None => None,
                Some(t) => Some((t, vendor)),
            },
        }
    }
}

pub fn wddm_adapter_reading(adapter_type: u32, vendor: Option<u32>, perf_deci: Option<u32>) -> (r: Option<(u8, Option<u32>)>)
    ensures
        r == wddm_adapter_spec(adapter_type, vendor, perf_deci),
{
    if adapter_type & ADAPTER_TYPE_SOFTWARE_DEVICE != 0 {
        return None;
    }
    match perf_deci {
        None => None,
        Some(d) => match deci_celsius_to_u8(d) {
            None => None,
            Some(t) => Some((t, vendor)),
        },
    }
}

/// Index of the first AMD adapter among the readings, if any.
pub open spec fn first_amd(rs: Seq<(u8, Option<u32>)>) -> Option<int>
    decreases rs.len(),
{
    if rs.len() == 0 {
        None
    } else {
        match first_amd(rs.drop_last()) {
            Some(i) => Some(i),
            None => if rs.last().1 == Some(AMD_VENDOR_ID) {
                Some(rs.len() - 1)
            } else {
                None
            },
        }
    }
}

/// The first AMD adapter's temperature, else the first adapter's.
pub open spec fn pick_adapter_spec(rs: Seq<(u8, Option<u32>)>) -> Option<u8> {
    match first_amd(rs) {
        Some(i) => Some(rs[i].0),
        None => if rs.len() > 0 {
            Some(rs[0].0)
        } else {
            None
        },
    }
}

proof fn lemma_first_amd_bounds(rs: Seq<(u8, Option<u32>)>)
    ensures
        first_amd(rs) matches Some(i) ==> 0 <= i < rs.len() && rs[i].1 == Some(AMD_VENDOR_ID),
    decreases rs.len(),
{
    if rs.len() > 0 {
        lemma_first_amd_bounds(rs.drop_last());
    }
}

proof fn lemma_first_amd_found(rs: Seq<(u8, Option<u32>)>, i: int)
    requires
        0 <= i < rs.len(),
        first_amd(rs.subrange(0, i)) is None,
        rs[i].1 == Some(AMD_VENDOR_ID),
    ensures
        first_amd(rs) == Some(i),
    decreases rs.len() - i,
{
    if i + 1 == rs.len() {
        assert(rs.drop_last() =~= rs.subrange(0, i));
    } else {
        lemma_first_amd_prefix(rs, i + 1);
        assert(rs.subrange(0, i + 1).drop_last() =~= rs.subrange(0, i));
    }
}

proof fn lemma_first_amd_prefix(rs: Seq<(u8, Option<u32>)>, k: int)
    requires
        0 <= k <= rs.len(),
        first_amd(rs.subrange(0, k)) is Some,
    ensures
        first_amd(rs) == first_amd(rs.subrange(0, k)),
    decreases rs.len() - k,
{
    if k == rs.len() {
        assert(rs.subrange(0, k) =~= rs);
    } else {
        assert(rs.subrange(0, k + 1).drop_last() =~= rs.subrange(0, k));
        lemma_first_amd_prefix(rs, k + 1);
    }
}

/// Chooses among the adapters' readings (temperature, vendor id).
pub fn pick_adapter_temperature(readings: &[(u8, Option<u32>)]) -> (r: Option<u8>)
    ensures
        r == pick_adapter_spec(readings@),
{
    let mut i: usize = 0;
    while i < readings.len()
        invariant
            i <= readings@.len(),
            first_amd(readings@.subrange(0, i as int)) is None,
        decreases readings@.len() - i,
    {
        let (temp, vendor) = readings[i];
        proof {
            assert(readings@.subrange(0, i as int + 1).drop_last() =~= readings@.subrange(0, i as int));
        }
        if vendor == Some(AMD_VENDOR_ID) {
            proof {
                lemma_first_amd_found(readings@, i as int);
            }
            return Some(temp);
        }
        i = i + 1;
    }
    assert(readings@.subrange(0, readings@.len() as int) =~= readings@);
    if readings.len() > 0 {
        Some(readings[0].0)
    } else {
        None
    }
}

} // verus!
