use auth_monitor::auth_monitor_options::AuthMonitorOptions;
use auth_monitor::auth_monitor_params::{
    AuthMonitorParams, ParamsError, IGNORE_SUBSEQUENT_FAILS_MS_OPTION,
    MAX_FAILED_ATTEMPTS_OPTION, RESET_AFTER_SECONDS_OPTION,
};

const FILEPATH: &str = "/var/log/auth.log";
const ALL_OPTIONS: [&str; 2] = [MAX_FAILED_ATTEMPTS_OPTION, RESET_AFTER_SECONDS_OPTION];

type AuthMonitorResult = Result<AuthMonitorParams, ParamsError>;

fn assert_error(result: &AuthMonitorResult, expected: &str) {
    match result {
        Ok(_) => panic!("Error \"{}\" was expected", expected),
        Err(error) => assert_eq!(error.message(), expected),
    }
}

#[test]
fn when_parsing_no_arguments_then_return_file_not_specified_error() {
    expect_file_not_specified_error(AuthMonitorParams::from_arguments(&[]));
}

fn expect_file_not_specified_error(result: AuthMonitorResult) {
    assert_error(&result, "File path not specified");
}

#[test]
fn when_parsing_one_option_without_filepath_then_return_file_not_specified_error() {
    for option in ALL_OPTIONS.map(format_example_option) {
        let arguments = [option];
        expect_file_not_specified_error(AuthMonitorParams::from_arguments(&arguments));
    }
}

#[test]
fn when_parsing_multiple_options_without_filepath_then_return_file_not_specified_error() {
    let arguments = ALL_OPTIONS.map(format_example_option);
    expect_file_not_specified_error(AuthMonitorParams::from_arguments(&arguments));
}

fn format_example_option(option: &str) -> String {
    return format!("--{}={}", option, 10);
}

#[test]
fn when_parsing_filepath_passed_more_than_once_then_return_file_path_specified_more_than_once_error(
) {
    let mut arguments = vec![String::from(FILEPATH), String::from(FILEPATH)];
    expect_file_path_specified_more_than_once_error(AuthMonitorParams::from_arguments(&arguments));

    let options = ALL_OPTIONS.map(format_example_option);
    arguments.extend_from_slice(&options);
    expect_file_path_specified_more_than_once_error(AuthMonitorParams::from_arguments(&arguments));
}

fn expect_file_path_specified_more_than_once_error(result: AuthMonitorResult) {
    assert_error(&result, "File path specified more than once");
}

#[test]
fn auth_monitor_params_tests_when_parsing_filepath_without_options_then_return_struct_with_default_values(
) {
    let arguments = [String::from(FILEPATH)];
    let expected = AuthMonitorParams {
        filepath: String::from(FILEPATH),
        ..AuthMonitorParams::default()
    };
    expect_equals(AuthMonitorParams::from_arguments(&arguments), &expected);
}

fn expect_equals(result: AuthMonitorResult, expected: &AuthMonitorParams) {
    let params = result.unwrap();
    assert_eq!(
        params.filepath, expected.filepath,
        "File path does not match"
    );
    assert_eq!(
        params.options.max_failed_attempts, expected.options.max_failed_attempts,
        "Max failed attempts does not match"
    );
    assert_eq!(
        params.options.reset_after_seconds, expected.options.reset_after_seconds,
        "Reset after seconds does not match"
    );
}

#[test]
fn auth_monitor_params_tests_when_parsing_filepath_with_one_option_with_correct_value_then_return_params_with_that_value(
) {
    let default_params = AuthMonitorParams::default();
    for option in ALL_OPTIONS {
        let value = 30;
        let option_argument = format!("--{}={}", option, value);
        let arguments = [String::from(FILEPATH), option_argument];
        let max_failed_attempts = match option == MAX_FAILED_ATTEMPTS_OPTION {
            true => value,
            false => default_params.options.max_failed_attempts,
        };
        let reset_after_seconds = match option == RESET_AFTER_SECONDS_OPTION {
            true => value,
            false => default_params.options.reset_after_seconds,
        };
        let expected = AuthMonitorParams {
            filepath: String::from(FILEPATH),
            options: AuthMonitorOptions {
                max_failed_attempts,
                reset_after_seconds,
                ..AuthMonitorOptions::default()
            },
        };
        expect_equals(AuthMonitorParams::from_arguments(&arguments), &expected);
    }
}

#[test]
fn when_parsing_option_without_value_then_return_missing_option_value_error() {
    for option in ALL_OPTIONS {
        let option_arguments = [format!("--{}", option), format!("--{}=", option)];
        for option_argument in option_arguments {
            let arguments = [String::from(FILEPATH), option_argument];
            let expected = format!("Missing value for option --{}", option);
            assert_error(&AuthMonitorParams::from_arguments(&arguments), &expected);
        }
    }
}

#[test]
fn when_parsing_option_with_invalid_value_then_return_invalid_option_value_error() {
    for option in ALL_OPTIONS {
        let values = ["test", "3a", "--", "b23", "12@"];
        for value in values {
            let option_argument = format!("--{}={}", option, value);
            let arguments = [String::from(FILEPATH), option_argument];
            let expected = format!("\"{}\" is not a valid value for option --{}", value, option);
            assert_error(&AuthMonitorParams::from_arguments(&arguments), &expected);
        }
    }
}

#[test]
fn when_parsing_option_with_no_value_then_return_no_value_error() {
    for option in ALL_OPTIONS {
        let option_argument = format!("--{}=", option);
        let arguments = [String::from(FILEPATH), option_argument];
        let expected = format!("Missing value for option --{}", option);
        assert_error(&AuthMonitorParams::from_arguments(&arguments), &expected);
    }
}

#[test]
fn when_parsing_option_with_value_less_than_0_then_invalid_value_error() {
    let invalid_values = [0, -1, -1024, i32::MIN];
    for option in ALL_OPTIONS {
        for value in invalid_values {
            let option_argument = format!("--{}={}", option, value);
            let arguments = [String::from(FILEPATH), option_argument];
            let expected = format!("{} must be greater than 0", option);
            assert_error(&AuthMonitorParams::from_arguments(&arguments), &expected);
        }
    }
}

#[test]
fn auth_monitor_params_tests_when_parsing_filename_and_multiple_options_then_return_params_with_parsed_values(
) {
    let max_failed_attempts = 10;
    let reset_after_seconds = 3600;
    let arguments = [
        String::from(FILEPATH),
        format!("--{}={}", MAX_FAILED_ATTEMPTS_OPTION, max_failed_attempts),
        format!("--{}={}", RESET_AFTER_SECONDS_OPTION, reset_after_seconds),
    ];
    let expected = AuthMonitorParams {
        filepath: String::from(FILEPATH),
        options: AuthMonitorOptions {
            max_failed_attempts,
            reset_after_seconds,
            ..AuthMonitorOptions::default()
        },
    };
    expect_equals(AuthMonitorParams::from_arguments(&arguments), &expected);
}

#[test]
fn when_parsing_unknown_option_then_return_unknown_option_error() {
    let unknown_options = [
        "--no-value",
        "--u=",
        "--unknown=10",
        "--unknown-option=test",
    ];
    for option in unknown_options {
        let arguments = [String::from(FILEPATH), String::from(option)];
        let expected = format!("Unknown option {}", option);
        assert_error(&AuthMonitorParams::from_arguments(&arguments), &expected)
    }
}

#[test]
fn defaults_are_three_attempts_half_an_hour_and_no_debounce() {
    let options = AuthMonitorOptions::default();
    assert_eq!(options.max_failed_attempts, 3);
    assert_eq!(options.reset_after_seconds, 1800);
    assert_eq!(options.ignore_subsequent_fails_ms, 0);
    let params = AuthMonitorParams::default();
    assert_eq!(params.filepath, "");
    assert_eq!(params.options, options);
}

#[test]
fn debounce_option_is_parsed_and_validated() {
    let arguments = [
        String::from(FILEPATH),
        format!("--{}=1000", IGNORE_SUBSEQUENT_FAILS_MS_OPTION),
    ];
    let params = AuthMonitorParams::from_arguments(&arguments).unwrap();
    assert_eq!(params.options.ignore_subsequent_fails_ms, 1000);

    let arguments = [
        String::from(FILEPATH),
        format!("--{}=0", IGNORE_SUBSEQUENT_FAILS_MS_OPTION),
    ];
    let params = AuthMonitorParams::from_arguments(&arguments).unwrap();
    assert_eq!(params.options.ignore_subsequent_fails_ms, 0);

    let arguments = [
        String::from(FILEPATH),
        format!("--{}=-1", IGNORE_SUBSEQUENT_FAILS_MS_OPTION),
    ];
    let error = AuthMonitorParams::from_arguments(&arguments).unwrap_err();
    assert!(matches!(error, ParamsError::IgnoreSubsequentFailsNegative));
    assert_eq!(
        error.message(),
        "ignore-subsequent-fails-ms must be greater than or equal 0"
    );
}

#[test]
fn validate_reports_the_first_rule_broken() {
    let params = AuthMonitorParams {
        filepath: String::new(),
        options: AuthMonitorOptions {
            max_failed_attempts: 0,
            reset_after_seconds: 0,
            ignore_subsequent_fails_ms: -1,
        },
    };
    assert!(matches!(
        params.validate(),
        Err(ParamsError::FilePathNotSpecified)
    ));
    let params = AuthMonitorParams {
        filepath: String::from(FILEPATH),
        ..params
    };
    assert!(matches!(
        params.validate(),
        Err(ParamsError::MaxFailedAttemptsNotPositive)
    ));
    let params = AuthMonitorParams {
        filepath: String::from(FILEPATH),
        options: AuthMonitorOptions {
            max_failed_attempts: 1,
            reset_after_seconds: 0,
            ignore_subsequent_fails_ms: -1,
        },
    };
    let error = params.validate().unwrap_err();
    assert!(matches!(error, ParamsError::ResetAfterSecondsNotPositive));
    assert_eq!(error.message(), "reset-after-seconds must be greater than 0");
    let params = AuthMonitorParams {
        filepath: String::from(FILEPATH),
        options: AuthMonitorOptions {
            max_failed_attempts: 1,
            reset_after_seconds: 1,
            ignore_subsequent_fails_ms: 0,
        },
    };
    assert!(params.validate().is_ok());
}

#[test]
fn option_values_follow_the_decimal_rules_of_i32() {
    let accepted = [
        ("2147483647", i32::MAX),
        ("+7", 7),
        ("007", 7),
        ("1", 1),
    ];
    for (text, number) in accepted {
        let arguments = [
            String::from(FILEPATH),
            format!("--{}={}", MAX_FAILED_ATTEMPTS_OPTION, text),
        ];
        let params = AuthMonitorParams::from_arguments(&arguments).unwrap();
        assert_eq!(params.options.max_failed_attempts, number);
    }
    let refused = ["2147483648", "-2147483649", "+", "-", " 1", "1 ", "1.0", "٣", "99999999999999999999"];
    for text in refused {
        let arguments = [
            String::from(FILEPATH),
            format!("--{}={}", MAX_FAILED_ATTEMPTS_OPTION, text),
        ];
        let error = AuthMonitorParams::from_arguments(&arguments).unwrap_err();
        assert_eq!(
            error.message(),
            format!(
                "\"{}\" is not a valid value for option --{}",
                text, MAX_FAILED_ATTEMPTS_OPTION
            )
        );
    }
}

#[test]
fn value_may_hold_the_separator() {
    let arguments = [
        String::from(FILEPATH),
        format!("--{}=1=2", MAX_FAILED_ATTEMPTS_OPTION),
    ];
    let error = AuthMonitorParams::from_arguments(&arguments).unwrap_err();
    assert_eq!(
        error.message(),
        "\"1=2\" is not a valid value for option --max-failed-attempts"
    );
}

#[test]
fn later_option_replaces_earlier_one() {
    let arguments = [
        format!("--{}=4", MAX_FAILED_ATTEMPTS_OPTION),
        String::from(FILEPATH),
        format!("--{}=9", MAX_FAILED_ATTEMPTS_OPTION),
    ];
    let params = AuthMonitorParams::from_arguments(&arguments).unwrap();
    assert_eq!(params.filepath, FILEPATH);
    assert_eq!(params.options.max_failed_attempts, 9);
}

#[test]
fn option_value_is_read_or_reported() {
    assert_eq!(
        AuthMonitorParams::parse_option_value("--name", Some("42")).unwrap(),
        42
    );
    let error = AuthMonitorParams::parse_option_value("--name", None).unwrap_err();
    assert!(matches!(error, ParamsError::MissingOptionValue { .. }));
    assert_eq!(error.message(), "Missing value for option --name");
    let error = AuthMonitorParams::parse_option_value("--name", Some("")).unwrap_err();
    assert_eq!(error.message(), "Missing value for option --name");
    let error = AuthMonitorParams::parse_option_value("--name", Some("4x")).unwrap_err();
    assert!(matches!(error, ParamsError::InvalidOptionValue { .. }));
    assert_eq!(
        error.message(),
        "\"4x\" is not a valid value for option --name"
    );
}

#[test]
fn parameters_are_put_in_words() {
    let options = AuthMonitorOptions::default();
    assert_eq!(
        options.to_text(),
        "max-failed-attempts=3, reset-after-seconds=1800, ignore-subsequent-fails-ms=0"
    );
    let params = AuthMonitorParams {
        filepath: String::from(FILEPATH),
        options: AuthMonitorOptions {
            max_failed_attempts: 10,
            reset_after_seconds: -5,
            ignore_subsequent_fails_ms: i32::MIN,
        },
    };
    assert_eq!(
        params.to_text(),
        "filepath=/var/log/auth.log, options: max-failed-attempts=10, \
         reset-after-seconds=-5, ignore-subsequent-fails-ms=-2147483648"
    );
    assert_eq!(
        params.options.to_text(),
        format!(
            "max-failed-attempts={}, reset-after-seconds={}, ignore-subsequent-fails-ms={}",
            10,
            -5,
            i32::MIN
        )
    );
}
