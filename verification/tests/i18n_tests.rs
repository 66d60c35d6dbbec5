use evox2_control::i18n::{t, Language};

#[test]
fn defaults_to_english() {
    assert_eq!(Language::from_code("zh"), Language::Zh);
    assert_eq!(Language::from_code("de"), Language::En);
    assert_eq!(Language::from_code("en"), Language::En);
    assert_eq!(t(Language::Zh, "apply"), "应用");
    assert_eq!(t(Language::En, "edit"), "Edit");
    assert_eq!(t(Language::Zh, "back"), "返回");
    assert_eq!(t(Language::En, "settings"), "Settings");
    assert_eq!(t(Language::En, "processor"), "Processor");
    assert_eq!(t(Language::Zh, "processor"), "处理器");
    assert_eq!(t(Language::Zh, "restore_default"), "恢复默认");
    assert_eq!(t(Language::En, "rename"), "Rename");
    assert_eq!(
        t(Language::En, "smoothing_window"),
        "Curve smoothing window"
    );
    assert_eq!(
        t(Language::Zh, "curve_needs_gui"),
        "曲线模式需要正在运行的窗口（evox2-control）。请用图形界面设置，或改用 auto / fixed。"
    );
    assert_eq!(
        t(Language::Zh, "hint_curve"),
        "改升档温度；右侧是自动降档（约低 8°C）。"
    );
    assert!(t(Language::En, "hint_curve").contains("8°C"));
    assert!(t(Language::Zh, "autostart_needs_install").contains("Program Files"));
    assert!(t(Language::En, "autostart_needs_install").contains("Program Files"));
}

#[test]
fn unknown_keys_come_back_unchanged() {
    assert_eq!(t(Language::En, "no_such_key"), "no_such_key");
    assert_eq!(Language::Zh.code(), "zh");
    assert_eq!(Language::from_code(Language::En.code()), Language::En);
}
