use evox2_control::diagnose::{DiagnoseReport, REPO_URL};
use evox2_control::hardware::HardwareIdentity;
use evox2_control::i18n::{t, Language};
use evox2_control::session::RuntimeStatus;
use evox2_control::thermal::TemperatureSource;

fn report() -> DiagnoseReport {
    let runtime = RuntimeStatus {
        pawnio: "connected".into(),
        lpcacpiec: "loaded".into(),
        secure_boot: "Enabled".into(),
        hardware: "GMKtec EVO-X2".into(),
        hardware_supported: true,
    };
    DiagnoseReport::assemble(
        "2.5.1",
        "Windows (windows)",
        "x86_64",
        true,
        true,
        Some("2.0.1".into()),
        &HardwareIdentity::default(),
        Some(&runtime),
        "Unknown",
        Some("1.04".into()),
        Some("quiet".into()),
        Some((47, TemperatureSource::Gpu, 40)),
    )
}

#[test]
fn report_text_lists_every_line() {
    let en = Language::En;
    let text = report().format_text(en);
    let lines: Vec<&str> = text.split('\n').collect();
    assert_eq!(lines[0], "EVO-X2 Control 2.5.1");
    assert_eq!(lines[1], format!("{} Windows (windows)", t(en, "os")));
    assert_eq!(lines[3], format!("{} {}", t(en, "admin_status"), t(en, "administrator")));
    assert_eq!(
        lines[4],
        format!("{} {}2.0.1)", t(en, "pawnio_status"), t(en, "pawnio_connected_ver"))
    );
    assert_eq!(lines[5], format!("{} loaded", t(en, "lpcacpiec_status")));
    assert_eq!(lines[7], format!("{} 1.04", t(en, "firmware_status")));
    assert_eq!(
        lines[10],
        format!("{} 47 C ({})", t(en, "apu_temp"), t(en, "temp_src_gpu"))
    );
    assert_eq!(lines[11], format!("{} 40 C", t(en, "ec_raw_temp")));
    assert_eq!(lines[12], format!("{} {REPO_URL}", t(en, "repository")));
    assert_eq!(lines.len(), 13);
}

#[test]
fn report_without_session_uses_detected_hardware() {
    let identity = HardwareIdentity {
        system_manufacturer: "Dell Inc.".into(),
        system_product: "OptiPlex".into(),
        ..HardwareIdentity::default()
    };
    let r = DiagnoseReport::assemble(
        "2.5.1", "Windows (windows)", "x86_64", false, false, None, &identity, None,
        "Disabled", None, None, None,
    );
    assert_eq!(r.hardware, "Dell Inc. OptiPlex");
    assert!(!r.hardware_supported);
    assert_eq!(r.lpcacpiec, "unknown");
    assert_eq!(r.pawnio, "unavailable");
    let zh = Language::Zh;
    let text = r.format_text(zh);
    let lines: Vec<&str> = text.split('\n').collect();
    assert_eq!(lines.len(), 12);
    assert_eq!(lines[5], format!("{} {}", t(zh, "lpcacpiec_status"), t(zh, "unknown")));
    assert_eq!(lines[8], format!("{} {}", t(zh, "current_pmode"), t(zh, "unknown")));
    assert_eq!(lines[10], t(zh, "hardware_unsupported"));
}
