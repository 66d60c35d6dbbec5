use evox2_control::hardware::HardwareIdentity;

#[test]
fn detects_known_evo_x2_and_axb35_strings() {
    let identity = HardwareIdentity {
        system_manufacturer: "GMKtec".into(),
        system_product: "EVO-X2".into(),
        board_manufacturer: "Sixunited".into(),
        board_product: "SU_AXB35".into(),
    };
    assert!(identity.is_supported_axb35());
    assert_eq!(identity.summary(), "GMKtec EVO-X2");
}

#[test]
fn rejects_unrelated_machines() {
    let identity = HardwareIdentity {
        system_manufacturer: "Dell Inc.".into(),
        system_product: "OptiPlex 7090".into(),
        board_manufacturer: "Dell Inc.".into(),
        board_product: "0XYZ12".into(),
    };
    assert!(!identity.is_supported_axb35());
}

#[test]
fn summary_falls_back_to_the_board() {
    let identity = HardwareIdentity {
        board_manufacturer: "Sixunited".into(),
        board_product: "AXB35-02".into(),
        ..HardwareIdentity::default()
    };
    assert_eq!(identity.summary(), "Sixunited AXB35-02");
    assert_eq!(HardwareIdentity::default().summary(), "unknown");
}
