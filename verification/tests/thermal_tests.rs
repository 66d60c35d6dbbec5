use evox2_control::thermal::{
    adl_adapter_temperature, deci_celsius_to_u8, describe_source, millicelsius_to_u8,
    pick_adapter_temperature, plausible_celsius, pmlog_sensor, pmlog_temperature,
    resolve_temperature, resolve_with_source, wddm_adapter_reading, TemperatureSource,
    AMD_VENDOR_ID,
};

#[test]
fn converts_task_manager_style_deci_celsius() {
    assert_eq!(deci_celsius_to_u8(450), Some(45));
    assert_eq!(deci_celsius_to_u8(454), Some(45));
    assert_eq!(deci_celsius_to_u8(455), Some(46));
    assert_eq!(deci_celsius_to_u8(0), None);
    assert_eq!(deci_celsius_to_u8(2000), None);
}

#[test]
fn converts_adl_millicelsius() {
    assert_eq!(millicelsius_to_u8(45_000), Some(45));
    assert_eq!(millicelsius_to_u8(0), None);
    assert_eq!(millicelsius_to_u8(-1), None);
}

#[test]
fn ec_fallback_used_when_gpu_apis_return_nothing() {
    let (temp, source) = resolve_with_source(None, None, 42);
    if source == TemperatureSource::Ec {
        assert_eq!(temp, 42);
    } else {
        assert!((10..=115).contains(&temp));
    }
    assert_eq!(source, TemperatureSource::Ec);
}

#[test]
fn gpu_reading_is_preferred() {
    assert_eq!(resolve_with_source(Some(50), Some(60), 42), (50, TemperatureSource::Gpu));
    assert_eq!(resolve_with_source(None, Some(60), 42), (60, TemperatureSource::Adl));
    assert_eq!(resolve_temperature(None, Some(61), 42), 61);
    assert_eq!(
        describe_source(None, None, 42),
        "APU temperature 42°C from EC 0x70 (EC 0x70 = 42°C)"
    );
    assert_eq!(
        describe_source(Some(47), None, 40),
        "APU temperature 47°C from GPU driver (Task Manager) (EC 0x70 = 40°C)"
    );
}

#[test]
fn source_codes_round_trip() {
    for source in TemperatureSource::all() {
        assert_eq!(TemperatureSource::from_code(source.code()), source);
    }
    assert_eq!(TemperatureSource::from_code("hottest"), TemperatureSource::Gpu);
    assert_eq!(TemperatureSource::Adl.i18n_key(), "temp_src_adl");
    assert_eq!(TemperatureSource::Ec.as_log_str(), "EC 0x70");
}

#[test]
fn plausible_range_is_ten_to_one_fifteen() {
    assert_eq!(plausible_celsius(9), None);
    assert_eq!(plausible_celsius(10), Some(10));
    assert_eq!(plausible_celsius(115), Some(115));
    assert_eq!(plausible_celsius(116), None);
    assert_eq!(deci_celsius_to_u8(u32::MAX), None);
    assert_eq!(millicelsius_to_u8(i32::MAX), None);
}

#[test]
fn adl_sensors_are_tried_in_order() {
    let mut sensors = vec![(0i32, 0i32); 256];
    sensors[8] = (1, 50);
    sensors[29] = (1, 60);
    assert_eq!(pmlog_temperature(&sensors), Some(50));
    sensors[28] = (1, 70);
    assert_eq!(pmlog_temperature(&sensors), Some(70));
    sensors[28] = (0, 70);
    sensors[8] = (1, -3);
    assert_eq!(pmlog_temperature(&sensors), Some(60));
    assert_eq!(pmlog_sensor(&sensors, 400), None);
    assert_eq!(adl_adapter_temperature(Some(45_400), &sensors), Some(45));
    assert_eq!(adl_adapter_temperature(Some(0), &sensors), Some(60));
    assert_eq!(adl_adapter_temperature(None, &[]), None);
}

#[test]
fn wddm_adapters_prefer_amd() {
    assert_eq!(wddm_adapter_reading(4, Some(AMD_VENDOR_ID), Some(500)), None);
    assert_eq!(wddm_adapter_reading(0, Some(0x8086), None), None);
    assert_eq!(
        wddm_adapter_reading(0, Some(0x8086), Some(505)),
        Some((51, Some(0x8086)))
    );
    let readings = [(40u8, Some(0x8086u32)), (55, Some(AMD_VENDOR_ID)), (60, Some(AMD_VENDOR_ID))];
    assert_eq!(pick_adapter_temperature(&readings), Some(55));
    assert_eq!(pick_adapter_temperature(&readings[..1]), Some(40));
    assert_eq!(pick_adapter_temperature(&[]), None);
}
