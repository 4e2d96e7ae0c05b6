use rtimer::duration::parse_duration_arg;

#[test]
fn parses_hours_and_minutes() {
    assert_eq!(parse_duration_arg("1h30m"), Ok(5_400_000));
}

#[test]
fn parses_plain_minutes() {
    assert_eq!(parse_duration_arg("90m"), Ok(5_400_000));
}

#[test]
fn parses_fractional_minutes() {
    assert_eq!(parse_duration_arg("0.5m"), Ok(30_000));
}

#[test]
fn parses_seconds() {
    assert_eq!(parse_duration_arg("300s"), Ok(300_000));
}

#[test]
fn parses_fractional_hours() {
    assert_eq!(parse_duration_arg("0.25h"), Ok(900_000));
}

#[test]
fn parses_upper_case_units() {
    assert_eq!(parse_duration_arg("25M"), Ok(1_500_000));
}

#[test]
fn sums_repeated_units() {
    assert_eq!(parse_duration_arg("1m1m"), Ok(120_000));
}

#[test]
fn ignores_stray_characters() {
    assert_eq!(parse_duration_arg("2 5m"), Ok(1_500_000));
}

#[test]
fn trailing_number_without_unit_is_discarded() {
    assert_eq!(parse_duration_arg("5m99"), Ok(300_000));
}

#[test]
fn unit_without_number_fails() {
    assert_eq!(parse_duration_arg("h"), Err("Invalid hour format".to_string()));
    assert_eq!(parse_duration_arg("m"), Err("Invalid minute format".to_string()));
    assert_eq!(parse_duration_arg("s"), Err("Invalid second format".to_string()));
}

#[test]
fn two_dots_fail() {
    assert_eq!(parse_duration_arg("1.2.3m"), Err("Invalid minute format".to_string()));
}

#[test]
fn dot_only_number_fails() {
    assert_eq!(parse_duration_arg(".h"), Err("Invalid hour format".to_string()));
}

#[test]
fn zero_total_fails() {
    let msg = "Invalid duration format. Use: 25m, 1h30m, 90m, 1.5h, 0.5m".to_string();
    assert_eq!(parse_duration_arg("0m"), Err(msg.clone()));
    assert_eq!(parse_duration_arg(""), Err(msg.clone()));
    assert_eq!(parse_duration_arg("25"), Err(msg));
}

#[test]
fn parsing_is_deterministic() {
    let a = parse_duration_arg("2h15m30s");
    let b = parse_duration_arg("2h15m30s");
    assert_eq!(a, b);
    assert_eq!(a, Ok(2 * 3_600_000 + 15 * 60_000 + 30 * 1_000));
}
