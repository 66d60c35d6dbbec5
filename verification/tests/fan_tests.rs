use evox2_control::fan::{
    alias, cli_label_key, parse_curve, parse_fan_id, sanitize_name, title_key, NAME_MAX_CHARS,
};

#[test]
fn fan_id_aliases() {
    assert_eq!(parse_fan_id("1").unwrap(), 1);
    assert_eq!(parse_fan_id("CPU").unwrap(), 1);
    assert_eq!(parse_fan_id("secondary").unwrap(), 2);
    assert_eq!(parse_fan_id("3").unwrap(), 3);
    assert_eq!(parse_fan_id("system").unwrap(), 3);
    assert!(parse_fan_id("4").is_err());
    assert!(parse_fan_id("gpu").is_err());
}

#[test]
fn curve_requires_five_values() {
    assert_eq!(parse_curve("20,60,83,95,97").unwrap(), [20, 60, 83, 95, 97]);
    assert!(parse_curve("20,60,83").is_err());
    assert!(parse_curve("a,b,c,d,e").is_err());
}

#[test]
fn curve_parsing_trims_and_skips_empty_values() {
    assert_eq!(parse_curve(" 1, 2 ,,3,+4,5, ").unwrap(), [1, 2, 3, 4, 5]);
    assert_eq!(parse_curve("007,0,255,1,2").unwrap(), [7, 0, 255, 1, 2]);
}

#[test]
fn curve_errors_name_the_problem() {
    assert_eq!(
        parse_curve("1,2,3").unwrap_err(),
        "Fan curve must have exactly 5 comma-separated values"
    );
    assert_eq!(
        parse_curve("1,2,256,4,5").unwrap_err(),
        "Invalid fan curve value: 256"
    );
    assert_eq!(
        parse_curve("1, -2 ,x,4,5").unwrap_err(),
        "Invalid fan curve value: -2"
    );
    // the count is checked before the values
    assert_eq!(
        parse_curve("x,y").unwrap_err(),
        "Fan curve must have exactly 5 comma-separated values"
    );
}

#[test]
fn unknown_fan_message_quotes_the_input() {
    assert_eq!(
        parse_fan_id(" fan9 ").unwrap_err(),
        "Unknown fan ' fan9 '. Use 1|2|3 or cpu|secondary|system."
    );
    assert_eq!(parse_fan_id("  Cpu\t").unwrap(), 1);
}

#[test]
fn labels_and_aliases_per_fan() {
    assert_eq!(title_key(1), "fan_cpu");
    assert_eq!(title_key(2), "fan_secondary");
    assert_eq!(title_key(9), "fan_system");
    assert_eq!(cli_label_key(2), "secondary_fan");
    for id in 1..=3u8 {
        assert_eq!(parse_fan_id(alias(id)).unwrap(), id);
    }
}

#[test]
fn names_are_trimmed_and_cut() {
    assert_eq!(sanitize_name("  Exhaust  ").as_deref(), Some("Exhaust"));
    assert_eq!(sanitize_name(" \t "), None);
    let long = "a".repeat(40);
    assert_eq!(sanitize_name(&long).unwrap().chars().count(), NAME_MAX_CHARS);
    let spaced = format!("{} {}", "b".repeat(31), "c".repeat(5));
    let kept = sanitize_name(&spaced).unwrap();
    assert_eq!(kept, "b".repeat(31));
    assert_eq!(sanitize_name(&kept).unwrap(), kept);
}
