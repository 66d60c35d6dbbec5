use std::collections::VecDeque;

use evox2_control::platform::UiChrome;
use evox2_control::session::{FanSnapshot, MetricsSnapshot};
use evox2_control::thermal::TemperatureSource;
use evox2_control::ui::{
    hide_on_close, idle_paint_policy, push_history, rpm_color, rpm_level, temp_color, temp_level,
    ChartData, MetricLevel, Nav, Page, Theme, CHART_HISTORY_SIZE,
};

#[test]
fn close_hides_to_tray_unless_quitting() {
    assert!(hide_on_close(true, false));
    assert!(!hide_on_close(true, true));
    assert!(!hide_on_close(false, false));
    assert!(!hide_on_close(false, true));
}

#[test]
fn hidden_to_tray_skips_ui_paint_and_slows_repaint() {
    let policy = idle_paint_policy(true);
    assert!(!policy.paint_ui);
    assert!(policy.repaint_after_ms >= 1000);
}

#[test]
fn visible_window_keeps_live_refresh() {
    let policy = idle_paint_policy(false);
    assert!(policy.paint_ui);
    assert_eq!(policy.repaint_after_ms, 200);
}

fn light_theme() -> Theme {
    Theme::from_chrome(UiChrome {
        dark: false,
        accent: (0, 120, 212),
    })
}

#[test]
fn semantic_metric_colors_follow_thresholds() {
    let theme = light_theme();
    assert_eq!(temp_color(&theme, 50), theme.ok);
    assert_eq!(temp_color(&theme, 51), theme.warn);
    assert_eq!(temp_color(&theme, 86), theme.bad);
    assert_eq!(rpm_color(&theme, 1250), theme.ok);
    assert_eq!(rpm_color(&theme, 1251), theme.warn);
    assert_eq!(rpm_color(&theme, 2501), theme.bad);
}

#[test]
fn metric_levels_at_the_edges() {
    assert_eq!(temp_level(85), MetricLevel::Warn);
    assert_eq!(temp_level(86), MetricLevel::Bad);
    assert_eq!(rpm_level(2500), MetricLevel::Warn);
    assert_eq!(rpm_level(0), MetricLevel::Good);
}

#[test]
fn accent_text_contrast_follows_brightness() {
    let light = Theme::from_chrome(UiChrome { dark: true, accent: (200, 200, 200) });
    assert_eq!((light.accent_fg.r, light.accent_fg.g, light.accent_fg.b), (26, 26, 26));
    assert_eq!(light.bg.r, 32);
    let dark = Theme::from_chrome(UiChrome { dark: false, accent: (0, 120, 212) });
    assert_eq!((dark.accent_fg.r, dark.accent_fg.a), (255, 255));
    assert_eq!((dark.stroke.r, dark.stroke.a), (0, 15));
}

#[test]
fn navigation_goes_and_comes_back() {
    let mut nav = Nav::home();
    nav.go(Page::Settings);
    nav.go(Page::About);
    nav.go(Page::About);
    assert_eq!(nav.page, Page::About);
    nav.back();
    assert_eq!(nav.page, Page::Settings);
    nav.back();
    assert_eq!(nav.page, Page::Home);
    nav.back();
    assert_eq!(nav.page, Page::Home);
}

#[test]
fn chart_history_keeps_the_last_sixty() {
    let mut history = VecDeque::new();
    for value in 0..100 {
        push_history(&mut history, value);
    }
    assert_eq!(history.len(), CHART_HISTORY_SIZE);
    assert_eq!(history.front().copied(), Some(40));
    assert_eq!(history.back().copied(), Some(99));
}

#[test]
fn chart_data_records_each_refresh() {
    let fan = |rpm| FanSnapshot {
        mode: "auto".into(),
        level: 0,
        rpm,
        rampup_curve: [0; 5],
        rampdown_curve: [0; 5],
    };
    let metrics = MetricsSnapshot {
        power_mode: "quiet".into(),
        temperature: 55,
        temperature_source: TemperatureSource::Ec,
        gpu_temp: None,
        cpu_temp: None,
        soc_temp: None,
        hotspot_temp: None,
        ec_raw_temp: 55,
        fans: [fan(1000), fan(2000), fan(3000)],
    };
    let mut chart = ChartData::new();
    chart.push(&metrics);
    chart.push(&metrics);
    assert_eq!(chart.temperature.iter().copied().collect::<Vec<_>>(), vec![55, 55]);
    assert_eq!(chart.fan3.back().copied(), Some(3000));
}

#[test]
fn over_long_history_drops_one_per_sample() {
    let mut history: VecDeque<i32> = (0..70).collect();
    push_history(&mut history, 70);
    assert_eq!(history.len(), 70);
    assert_eq!(history.front().copied(), Some(1));
    assert_eq!(history.back().copied(), Some(70));
}
