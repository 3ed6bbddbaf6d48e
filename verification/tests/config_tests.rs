use orbit_camera::config::{parse_command_line_options, parse_i32_str, OptionsError, StartupOptions};

#[test]
fn parses_plain_numbers() {
    assert_eq!(parse_i32_str("6"), Ok(6));
    assert_eq!(parse_i32_str("42"), Ok(42));
    assert_eq!(parse_i32_str("0"), Ok(0));
    assert_eq!(parse_i32_str("0009"), Ok(9));
}

#[test]
fn parses_signed_numbers() {
    assert_eq!(parse_i32_str("-12"), Ok(-12));
    assert_eq!(parse_i32_str("+7"), Ok(7));
    assert_eq!(parse_i32_str("-0"), Ok(0));
}

#[test]
fn honors_the_i32_range_exactly() {
    assert_eq!(parse_i32_str("2147483647"), Ok(2147483647));
    assert_eq!(parse_i32_str("2147483648"), Err(OptionsError::InvalidBoxCount));
    assert_eq!(parse_i32_str("-2147483648"), Ok(-2147483648));
    assert_eq!(parse_i32_str("-2147483649"), Err(OptionsError::InvalidBoxCount));
    assert_eq!(parse_i32_str("999999999999999999999"), Err(OptionsError::InvalidBoxCount));
}

#[test]
fn rejects_everything_else() {
    assert_eq!(parse_i32_str(""), Err(OptionsError::InvalidBoxCount));
    assert_eq!(parse_i32_str("-"), Err(OptionsError::InvalidBoxCount));
    assert_eq!(parse_i32_str("+"), Err(OptionsError::InvalidBoxCount));
    assert_eq!(parse_i32_str("abc"), Err(OptionsError::InvalidBoxCount));
    assert_eq!(parse_i32_str("12x"), Err(OptionsError::InvalidBoxCount));
    assert_eq!(parse_i32_str(" 12"), Err(OptionsError::InvalidBoxCount));
    assert_eq!(parse_i32_str("1.5"), Err(OptionsError::InvalidBoxCount));
}

#[test]
fn missing_argument_defaults_to_six() {
    let args = vec![String::from("demo")];
    assert_eq!(parse_command_line_options(&args), Ok(StartupOptions { box_count: 6 }));
    let none: Vec<String> = Vec::new();
    assert_eq!(parse_command_line_options(&none), Ok(StartupOptions { box_count: 6 }));
}

#[test]
fn argument_overrides_the_box_count() {
    let args = vec![String::from("demo"), String::from("10")];
    assert_eq!(parse_command_line_options(&args), Ok(StartupOptions { box_count: 10 }));
    let args = vec![String::from("demo"), String::from("-3")];
    assert_eq!(parse_command_line_options(&args), Ok(StartupOptions { box_count: -3 }));
}

#[test]
fn bad_argument_is_reported() {
    let args = vec![String::from("demo"), String::from("many")];
    assert_eq!(parse_command_line_options(&args), Err(OptionsError::InvalidBoxCount));
}
