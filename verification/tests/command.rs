use secure_cords::command::{build_command, parameters_string};
use secure_cords::config::SessionConfig;
use secure_cords::decimal::decimal_string;

#[test]
fn decimal_renders_exact_numerals() {
    assert_eq!(decimal_string(0), "0");
    assert_eq!(decimal_string(7), "7");
    assert_eq!(decimal_string(10), "10");
    assert_eq!(decimal_string(80), "80");
    assert_eq!(decimal_string(8080), "8080");
    assert_eq!(decimal_string(65535), "65535");
    assert_eq!(decimal_string(usize::MAX), "18446744073709551615");
}

#[test]
fn parameters_argument_has_the_literal_form() {
    assert_eq!(parameters_string(80, 8080), "portNumber=80,localPortNumber=8080");
    assert_eq!(parameters_string(443, 1), "portNumber=443,localPortNumber=1");
}

#[test]
fn command_passes_profile_through_the_environment() {
    let config = SessionConfig {
        identifier: "i-0123456789".to_string(),
        profile: "staging".to_string(),
        host_port: 5432,
        dest_port: 5432,
    };
    let command = build_command(&config);
    assert_eq!(command.program, "aws");
    assert_eq!(command.env_name, "AWS_PROFILE");
    assert_eq!(command.env_value, "staging");
    assert_eq!(command.args.len(), 8);
    assert_eq!(command.args[2], "--target");
    assert_eq!(command.args[3], "i-0123456789");
    assert_eq!(command.args[7], "portNumber=5432,localPortNumber=5432");
}

#[test]
fn command_with_empty_profile_keeps_the_variable_empty() {
    let config = SessionConfig {
        identifier: "i-xyz".to_string(),
        profile: String::new(),
        host_port: 1024,
        dest_port: 22,
    };
    let command = build_command(&config);
    assert_eq!(command.env_name, "AWS_PROFILE");
    assert_eq!(command.env_value, "");
    assert_eq!(command.args[7], "portNumber=22,localPortNumber=1024");
}
