use evox2_control::config::{
    clamp_smoothing_window, config_file_path, program_data_dir, sanitize_fan_names,
    validate_fan, FanConfig, ServerConfig, SMOOTHING_WINDOW_DEFAULT,
};
use evox2_control::fan::sanitize_name;
use evox2_control::i18n::Language;
use evox2_control::thermal::TemperatureSource;

const DATA_DIR: &str = "C:\\ProgramData\\ec-su_axb35-win";

fn default_config() -> ServerConfig {
    ServerConfig::for_data_dir(DATA_DIR)
}

#[test]
fn default_for_fan_matches_stock_curves() {
    let fan1 = FanConfig::default_for_fan(1);
    let fan2 = FanConfig::default_for_fan(2);
    let fan3 = FanConfig::default_for_fan(3);
    assert_eq!(fan1.rampup_curve, [60, 70, 83, 95, 97]);
    assert_eq!(fan1.rampdown_curve, [40, 50, 80, 94, 96]);
    assert_eq!(fan2.rampup_curve, fan1.rampup_curve);
    assert_eq!(fan2.rampdown_curve, fan1.rampdown_curve);
    assert_eq!(fan3.rampup_curve, [20, 60, 83, 95, 97]);
    assert_eq!(fan3.rampdown_curve, [0, 50, 80, 94, 96]);
    assert_eq!(FanConfig::default(), fan1);
}

#[test]
fn portable_import_rejects_bad_mode() {
    let mut portable = default_config().to_portable();
    portable.fan1.mode = "turbo".into();
    assert!(portable.validate().is_err());
}

#[test]
fn portable_import_rejects_bad_temperature_source() {
    let mut portable = default_config().to_portable();
    portable.temperature_source = "hottest".into();
    assert!(portable.validate().is_err());
}

#[test]
fn portable_import_rejects_bad_smoothing_window() {
    let mut portable = default_config().to_portable();
    portable.smoothing_window = 0;
    assert!(portable.validate().is_err());
    portable.smoothing_window = 21;
    assert!(portable.validate().is_err());
}

#[test]
fn clamp_smoothing_window_keeps_one_to_twenty() {
    assert_eq!(clamp_smoothing_window(0), 1);
    assert_eq!(clamp_smoothing_window(8), 8);
    assert_eq!(clamp_smoothing_window(99), 20);
}

#[test]
fn portable_import_accepts_valid_file() {
    let parsed = default_config().to_portable();
    assert!(parsed.validate().is_ok());
    assert_eq!(parsed.language, "en");
    assert_eq!(parsed.fan1.mode, "auto");
    assert_eq!(parsed.fan1.name, None);
}

#[test]
fn processor_custom_name_roundtrips() {
    let mut config = default_config();
    config.processor_name = Some("  MiniPC  ".into());
    config.processor_name = config.processor_name.as_deref().and_then(sanitize_name);
    assert_eq!(config.processor_custom_name().as_deref(), Some("MiniPC"));
    let portable = config.to_portable();
    assert_eq!(portable.processor_name.as_deref(), Some("MiniPC"));
    assert!(portable.validate().is_ok());
}

#[test]
fn fan_custom_name_roundtrips() {
    let mut config = default_config();
    config.fan1.as_mut().unwrap().name = Some("  Exhaust  ".into());
    sanitize_fan_names(&mut config);
    assert_eq!(config.fan_custom_name(1).as_deref(), Some("Exhaust"));
    let portable = config.to_portable();
    assert_eq!(portable.fan1.name.as_deref(), Some("Exhaust"));
    assert!(portable.validate().is_ok());
}

#[test]
fn default_configuration_values() {
    let config = default_config();
    assert_eq!(config.host, "127.0.0.1");
    assert_eq!(config.port, 8395);
    assert_eq!(config.log_path, "C:\\ProgramData\\ec-su_axb35-win\\server.log");
    assert!(config.close_to_tray);
    assert!(!config.start_with_windows);
    assert_eq!(config.language(), Language::En);
    assert!(config.temp_alert_enabled);
    assert_eq!(config.temp_alert_celsius, 90);
    assert_eq!(config.temperature_source, "gpu");
    assert_eq!(config.temperature_source(), TemperatureSource::Gpu);
    assert_eq!(config.smoothing_window, SMOOTHING_WINDOW_DEFAULT);
    assert_eq!(config.processor_name, None);
}

#[test]
fn data_paths_are_built_from_the_system_drive() {
    assert_eq!(program_data_dir("D:"), "D:\\ProgramData\\ec-su_axb35-win");
    assert_eq!(
        config_file_path(DATA_DIR),
        "C:\\ProgramData\\ec-su_axb35-win\\config.json"
    );
}

#[test]
fn loaded_configuration_is_cleaned_up() {
    let mut config = default_config();
    config.log_path = "D:\\evil\\x.log".into();
    config.temp_alert_celsius = 200;
    config.temperature_source = "weird".into();
    config.smoothing_window = 0;
    config.processor_name = Some("   ".into());
    config.apu_power_mode = Some("turbo".into());
    config.fan1.as_mut().unwrap().mode = "manual".into();
    config.fan3.as_mut().unwrap().mode = "curve".into();
    config.fan2.as_mut().unwrap().name = Some(" Intake ".into());
    config.normalize_loaded(DATA_DIR);
    assert_eq!(config.log_path, "C:\\ProgramData\\ec-su_axb35-win\\server.log");
    assert_eq!(config.temp_alert_celsius, 97);
    assert_eq!(config.temperature_source, "gpu");
    assert_eq!(config.smoothing_window, 1);
    assert_eq!(config.processor_name, None);
    assert_eq!(config.apu_power_mode, None);
    assert_eq!(config.fan1.as_ref().unwrap().mode, "auto");
    assert_eq!(config.fan3.as_ref().unwrap().mode, "curve");
    assert_eq!(config.fan2.as_ref().unwrap().name.as_deref(), Some("Intake"));
    // cleaning up again changes nothing
    let before = config.log_path.clone();
    config.normalize_loaded(DATA_DIR);
    assert_eq!(config.log_path, before);
    assert_eq!(config.fan1.as_ref().unwrap().mode, "auto");

    let mut kept = default_config();
    kept.apu_power_mode = Some("quiet".into());
    kept.normalize_loaded(DATA_DIR);
    assert_eq!(kept.apu_power_mode.as_deref(), Some("quiet"));
}

#[test]
fn import_then_export_keeps_the_file() {
    let mut source = default_config();
    source.apu_power_mode = Some("quiet".into());
    source.language = "zh".into();
    source.temp_alert_celsius = 80;
    source.temperature_source = "adl".into();
    source.smoothing_window = 12;
    let portable = source.to_portable();
    let mut target = ServerConfig::for_data_dir("E:\\elsewhere");
    target.apply_portable(portable.clone());
    assert_eq!(target.host, "127.0.0.1");
    assert_eq!(target.log_path, "E:\\elsewhere\\server.log");
    let again = target.to_portable();
    assert_eq!(again.apu_power_mode, portable.apu_power_mode);
    assert_eq!(again.language, "zh");
    assert_eq!(again.temp_alert_celsius, 80);
    assert_eq!(again.temperature_source, "adl");
    assert_eq!(again.smoothing_window, 12);
    assert_eq!(again.fan3, portable.fan3);
}

#[test]
fn missing_fans_export_the_first_fans_defaults() {
    let mut config = default_config();
    config.fan3 = None;
    assert_eq!(config.to_portable().fan3, FanConfig::default_for_fan(1));
}

#[test]
fn validation_messages_name_the_problem() {
    let mut portable = default_config().to_portable();
    portable.apu_power_mode = Some("turbo".into());
    assert_eq!(portable.validate().unwrap_err(), "Invalid power mode: turbo");
    portable.apu_power_mode = None;
    portable.fan2.level = 9;
    assert_eq!(portable.validate().unwrap_err(), "Invalid fan2 level: 9");
    portable.fan2.level = 0;
    portable.language = "fr".into();
    assert_eq!(portable.validate().unwrap_err(), "Invalid language: fr");
    portable.language = "zh".into();
    portable.temp_alert_celsius = 50;
    assert_eq!(
        portable.validate().unwrap_err(),
        "Temperature alert threshold must be between 70 and 97, got 50"
    );
    portable.temp_alert_celsius = 90;
    portable.temperature_source = "hottest".into();
    assert_eq!(
        portable.validate().unwrap_err(),
        "Invalid temperature source: hottest"
    );
    portable.temperature_source = "ec".into();
    portable.smoothing_window = 21;
    assert_eq!(
        portable.validate().unwrap_err(),
        "Smoothing window must be between 1 and 20, got 21"
    );
    portable.smoothing_window = 5;
    portable.processor_name = Some("x".repeat(65));
    assert_eq!(
        portable.validate().unwrap_err(),
        "Invalid processor name: too long"
    );
    portable.processor_name = Some("x".repeat(64));
    assert!(portable.validate().is_ok());
}

#[test]
fn fan_validation_checks_mode_level_and_name() {
    let mut fan = FanConfig::default_for_fan(2);
    assert!(validate_fan("fan2", &fan).is_ok());
    fan.mode = "turbo".into();
    assert_eq!(validate_fan("fan2", &fan).unwrap_err(), "Invalid fan2 mode: turbo");
    fan.mode = "curve".into();
    fan.name = Some("n".repeat(65));
    assert_eq!(
        validate_fan("fan2", &fan).unwrap_err(),
        "Invalid fan2 name: too long"
    );
}

#[test]
fn window_settings_report_start_change_and_revert() {
    let mut config = ServerConfig::for_data_dir("C:\\ProgramData\\ec-su_axb35-win");
    let start_before = config.start_with_windows;
    assert!(!config.apply_window_settings(false, start_before, "en".to_string()));
    assert!(!config.close_to_tray);
    assert_eq!(config.language, "en");
    assert!(config.apply_window_settings(false, !start_before, "zh".to_string()));
    assert_eq!(config.start_with_windows, !start_before);
    config.revert_start_with_windows(!start_before);
    assert_eq!(config.start_with_windows, start_before);
}

#[test]
fn alert_settings_clamp_and_source_is_canonical() {
    let mut config = ServerConfig::for_data_dir("C:\\ProgramData\\ec-su_axb35-win");
    config.apply_alert_settings(true, 120);
    assert!(config.temp_alert_enabled);
    assert_eq!(config.temp_alert_celsius, 97);
    config.apply_alert_settings(false, 10);
    assert_eq!(config.temp_alert_celsius, 70);
    assert_eq!(config.choose_temperature_source("ec"), TemperatureSource::Ec);
    assert_eq!(config.temperature_source, "ec");
    assert_eq!(config.choose_temperature_source("bogus"), TemperatureSource::Gpu);
    assert_eq!(config.temperature_source, "gpu");
}
