use std::io::{BufRead, Cursor};

use kata::get_conf_path;
use kata::get_config_path;
use kata::guess_from_line;
use kata::parse_u32;
use kata::secret_from_arg;
use kata::validate_conf_path;

// Utility function to simulate user input
fn mock_stdin(input: &str) -> Cursor<Vec<u8>> {
    Cursor::new(input.as_bytes().to_vec())
}

#[test]
fn it_returns_some_number_when_valid_input_is_provided() {
    let input = mock_stdin("42\n");
    let mut buffer = input;
    let mut guess = String::new();
    buffer.read_line(&mut guess).unwrap();
    let result = guess_from_line(&guess);
    assert_eq!(result, Some(42));
}

#[test]
fn it_returns_none_when_input_is_not_a_valid_number() {
    let input = mock_stdin("invalid\n");
    let mut buffer = input;
    let mut guess = String::new();
    buffer.read_line(&mut guess).unwrap();
    let result = guess_from_line(&guess);
    assert_eq!(result, None);
}

#[test]
fn parse_u32_reads_exact_values() {
    assert_eq!(parse_u32("42"), Some(42));
    assert_eq!(parse_u32("0"), Some(0));
    assert_eq!(parse_u32("4294967295"), Some(u32::MAX));
    assert_eq!(parse_u32("4294967296"), None);
    assert_eq!(parse_u32(""), None);
    assert_eq!(parse_u32("4x2"), None);
    assert_eq!(parse_u32(" 42"), None);
}

#[test]
fn guess_from_line_trims_surrounding_whitespace() {
    // fails if the trimming step handed its argument back unchanged
    assert_eq!(guess_from_line("  42  \n"), Some(42));
    assert_eq!(guess_from_line("\t7\r\n"), Some(7));
    assert_eq!(guess_from_line("4 2\n"), None);
}

#[test]
fn secret_from_arg_reports_each_failure() {
    assert_eq!(secret_from_arg(None), Err("No secret number is specified"));
    assert_eq!(
        secret_from_arg(Some("invalid_number".to_string())),
        Err("Secret number is not a number")
    );
    assert_eq!(secret_from_arg(Some(" 42 ".to_string())), Ok(42));
}

#[test]
fn validate_conf_path_rejects_only_empty() {
    assert_eq!(validate_conf_path("config.toml"), Ok(()));
    assert_eq!(
        validate_conf_path(""),
        Err("Configuration file path cannot be empty".to_string())
    );
}

#[test]
fn get_conf_path_prefers_argument_then_environment() {
    assert_eq!(
        get_conf_path(Some("from_arg.toml".to_string()), Some("from_env.toml".to_string())),
        Ok("from_arg.toml".to_string())
    );
    assert_eq!(
        get_conf_path(None, Some("from_env.toml".to_string())),
        Ok("from_env.toml".to_string())
    );
    assert_eq!(get_conf_path(None, None), Ok("config.toml".to_string()));
    assert_eq!(
        get_conf_path(Some(String::new()), None),
        Err("Configuration file path cannot be empty".to_string())
    );
    assert_eq!(
        get_conf_path(None, Some(String::new())),
        Err("Configuration file path cannot be empty".to_string())
    );
}

#[test]
fn get_config_path_ignores_empty_environment() {
    assert_eq!(
        get_config_path(Some("custom.conf".to_string()), None),
        Ok("custom.conf".to_string())
    );
    assert_eq!(
        get_config_path(Some(String::new()), None),
        Err("The -c/--conf argument cannot be empty".to_string())
    );
    assert_eq!(
        get_config_path(None, Some("env.conf".to_string())),
        Ok("env.conf".to_string())
    );
    assert_eq!(
        get_config_path(None, Some(String::new())),
        Ok("/etc/app/app.conf".to_string())
    );
    assert_eq!(get_config_path(None, None), Ok("/etc/app/app.conf".to_string()));
}
