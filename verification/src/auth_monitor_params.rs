//! The parameters of a monitor, and how command-line arguments become them.

use vstd::prelude::*;
use vstd::string::*;

use crate::auth_monitor_options::AuthMonitorOptions;
use crate::text::{
    decimal_i32, parse_i32, position_of, str_equals, str_position_of, str_starts_with,
};

verus! {

/// What every option begins with.
pub const OPTION_PREFIX: &'static str = "--";

/// What parts an option's name from its value.
pub const OPTION_VALUE_SEPARATOR: char = '=';

/// The option that sets `max_failed_attempts`.
pub const MAX_FAILED_ATTEMPTS_OPTION: &'static str = "max-failed-attempts";

/// The option that sets `reset_after_seconds`.
pub const RESET_AFTER_SECONDS_OPTION: &'static str = "reset-after-seconds";

/// The option that sets `ignore_subsequent_fails_ms`.
pub const IGNORE_SUBSEQUENT_FAILS_MS_OPTION: &'static str = "ignore-subsequent-fails-ms";

/// The file to watch and the policy to apply to it.
#[derive(Debug)]
pub struct AuthMonitorParams {
    /// The path of the log file; empty while none was given.
    pub filepath: String,
    /// The policy of the failure counter.
    pub options: AuthMonitorOptions,
}

/// `AuthMonitorParams` with its path as a sequence of characters.
pub struct ParamsView {
    pub filepath: Seq<char>,
    pub options: AuthMonitorOptions,
}

impl View for AuthMonitorParams {
    type V = ParamsView;

    open spec fn view(&self) -> ParamsView {
        ParamsView { filepath: self.filepath@, options: self.options }
    }
}

/// Why arguments or parameters were turned down.
#[derive(Debug)]
pub enum ParamsError {
    /// No argument named the file.
    FilePathNotSpecified,
    /// Two arguments named a file.
    FilePathSpecifiedMoreThanOnce,
    /// An argument began like an option and named none that is known.
    UnknownOption { argument: String },
    /// An option came without `=`, or with nothing behind it.
    MissingOptionValue { option: String },
    /// An option's value is no decimal `i32`.
    InvalidOptionValue { value: String, option: String },
    /// `max_failed_attempts` is zero or less.
    MaxFailedAttemptsNotPositive,
    /// `reset_after_seconds` is zero or less.
    ResetAfterSecondsNotPositive,
    /// `ignore_subsequent_fails_ms` is less than zero.
    IgnoreSubsequentFailsNegative,
}

/// `ParamsError` with its strings as sequences of characters.
pub enum ParamsErrorView {
    FilePathNotSpecified,
    FilePathSpecifiedMoreThanOnce,
    UnknownOption { argument: Seq<char> },
    MissingOptionValue { option: Seq<char> },
    InvalidOptionValue { value: Seq<char>, option: Seq<char> },
    MaxFailedAttemptsNotPositive,
    ResetAfterSecondsNotPositive,
    IgnoreSubsequentFailsNegative,
}

impl View for ParamsError {
    type V = ParamsErrorView;

    open spec fn view(&self) -> ParamsErrorView {
        match self {
            ParamsError::FilePathNotSpecified => ParamsErrorView::FilePathNotSpecified,
            ParamsError::FilePathSpecifiedMoreThanOnce => {
                ParamsErrorView::FilePathSpecifiedMoreThanOnce
            },
            ParamsError::UnknownOption { argument } => ParamsErrorView::UnknownOption {
                argument: argument@,
            },
            ParamsError::MissingOptionValue { option } => ParamsErrorView::MissingOptionValue {
                option: option@,
            },
            ParamsError::InvalidOptionValue { value, option } => {
                ParamsErrorView::InvalidOptionValue { value: value@, option: option@ }
            },
            ParamsError::MaxFailedAttemptsNotPositive => {
                ParamsErrorView::MaxFailedAttemptsNotPositive
            },
            ParamsError::ResetAfterSecondsNotPositive => {
                ParamsErrorView::ResetAfterSecondsNotPositive
            },
            ParamsError::IgnoreSubsequentFailsNegative => {
                ParamsErrorView::IgnoreSubsequentFailsNegative
            },
        }
    }
}

impl ParamsErrorView {
    /// The sentence that reports this error.
    pub open spec fn message(self) -> Seq<char> {
        match self {
            ParamsErrorView::FilePathNotSpecified => "File path not specified"@,
            ParamsErrorView::FilePathSpecifiedMoreThanOnce => "File path specified more than once"@,
            ParamsErrorView::UnknownOption { argument } => "Unknown option "@ + argument,
            ParamsErrorView::MissingOptionValue { option } => "Missing value for option "@ + option,
            ParamsErrorView::InvalidOptionValue { value, option } => "\""@ + value
                + "\" is not a valid value for option "@ + option,
            ParamsErrorView::MaxFailedAttemptsNotPositive => MAX_FAILED_ATTEMPTS_OPTION@
                + " must be greater than 0"@,
            ParamsErrorView::ResetAfterSecondsNotPositive => RESET_AFTER_SECONDS_OPTION@
                + " must be greater than 0"@,
            ParamsErrorView::IgnoreSubsequentFailsNegative => IGNORE_SUBSEQUENT_FAILS_MS_OPTION@
                + " must be greater than or equal 0"@,
        }
    }
}

impl ParamsError {
    /// The sentence that reports this error.
    pub fn message(&self) -> (text: String)
        ensures
            text@ == self@.message(),
    {
        match self {
            ParamsError::FilePathNotSpecified => String::from_str("File path not specified"),
            ParamsError::FilePathSpecifiedMoreThanOnce => String::from_str(
                "File path specified more than once",
            ),
            ParamsError::UnknownOption { argument } => {
                let mut text = String::from_str("Unknown option ");
                text.append(argument.as_str());
                text
            },
            ParamsError::MissingOptionValue { option } => {
                let mut text = String::from_str("Missing value for option ");
                text.append(option.as_str());
                text
            },
            ParamsError::InvalidOptionValue { value, option } => {
                let mut text = String::from_str("\"");
                text.append(value.as_str());
                text.append("\" is not a valid value for option ");
                text.append(option.as_str());
                text
            },
            ParamsError::MaxFailedAttemptsNotPositive => {
                let mut text = String::from_str(MAX_FAILED_ATTEMPTS_OPTION);
                text.append(" must be greater than 0");
                text
            },
            ParamsError::ResetAfterSecondsNotPositive => {
                let mut text = String::from_str(RESET_AFTER_SECONDS_OPTION);
                text.append(" must be greater than 0");
                text
            },
            ParamsError::IgnoreSubsequentFailsNegative => {
                let mut text = String::from_str(IGNORE_SUBSEQUENT_FAILS_MS_OPTION);
                text.append(" must be greater than or equal 0");
                text
            },
        }
    }
}

/// Whether `argument` is an option rather than a path: it begins with `--`.
pub open spec fn is_option(argument: Seq<char>) -> bool {
    OPTION_PREFIX@.is_prefix_of(argument)
}

/// The name of an option as it was written, dashes included: what stands
/// before the first `=`, or the whole argument where there is none.
pub open spec fn option_name(argument: Seq<char>) -> Seq<char> {
    argument.subrange(0, position_of(argument, OPTION_VALUE_SEPARATOR))
}

/// The name of an option without its dashes.
pub open spec fn option_key(argument: Seq<char>) -> Seq<char> {
    let name = option_name(argument);
    name.subrange(OPTION_PREFIX@.len() as int, name.len() as int)
}

/// What stands behind the first `=` of an option, if it has one.
pub open spec fn option_value(argument: Seq<char>) -> Option<Seq<char>> {
    let separator = position_of(argument, OPTION_VALUE_SEPARATOR);
    if separator < argument.len() {
        Some(argument.subrange(separator + 1, argument.len() as int))
    } else {
        None
    }
}

/// The number that an option's value spells, or the error that it earns:
/// a value that is absent or empty is missing, and one that is no decimal
/// `i32` is invalid.
pub open spec fn option_number(name: Seq<char>, value: Option<Seq<char>>) -> Result<
    i32,
    ParamsErrorView,
> {
    match value {
        None => Err(ParamsErrorView::MissingOptionValue { option: name }),
        Some(text) => if text.len() == 0 {
            Err(ParamsErrorView::MissingOptionValue { option: name })
        } else {
            match decimal_i32(text) {
                Some(number) => Ok(number),
                None => Err(ParamsErrorView::InvalidOptionValue { value: text, option: name }),
            }
        },
    }
}

/// The parameters after one more argument. A path is taken once only. An
/// option is known by its name before its value is looked at; the debounce
/// option is known only where `with_debounce` says so.
pub open spec fn with_argument(
    params: ParamsView,
    argument: Seq<char>,
    with_debounce: bool,
) -> Result<ParamsView, ParamsErrorView> {
    if !is_option(argument) {
        if params.filepath.len() > 0 {
            Err(ParamsErrorView::FilePathSpecifiedMoreThanOnce)
        } else {
            Ok(ParamsView { filepath: argument, ..params })
        }
    } else {
        let key = option_key(argument);
        let number = option_number(option_name(argument), option_value(argument));
        if key == MAX_FAILED_ATTEMPTS_OPTION@ {
            match number {
                Ok(n) => Ok(
                    ParamsView {
                        options: AuthMonitorOptions { max_failed_attempts: n, ..params.options },
                        ..params
                    },
                ),
                Err(error) => Err(error),
            }
        } else if key == RESET_AFTER_SECONDS_OPTION@ {
            match number {
                Ok(n) => Ok(
                    ParamsView {
                        options: AuthMonitorOptions { reset_after_seconds: n, ..params.options },
                        ..params
                    },
                ),
                Err(error) => Err(error),
            }
        } else if with_debounce && key == IGNORE_SUBSEQUENT_FAILS_MS_OPTION@ {
            match number {
                Ok(n) => Ok(
                    ParamsView {
                        options: AuthMonitorOptions {
                            ignore_subsequent_fails_ms: n,
                            ..params.options
                        },
                        ..params
                    },
                ),
                Err(error) => Err(error),
            }
        } else {
            Err(ParamsErrorView::UnknownOption { argument })
        }
    }
}

/// The parameters after all of `arguments`, taken from left to right; the
/// first error ends the walk.
pub open spec fn with_arguments(
    params: ParamsView,
    arguments: Seq<Seq<char>>,
    with_debounce: bool,
) -> Result<ParamsView, ParamsErrorView>
    decreases arguments.len(),
{
    if arguments.len() == 0 {
        Ok(params)
    } else {
        match with_argument(params, arguments[0], with_debounce) {
            Ok(next) => with_arguments(next, arguments.drop_first(), with_debounce),
            Err(error) => Err(error),
        }
    }
}

/// The arguments as sequences of characters.
pub open spec fn arguments_view(arguments: Seq<String>) -> Seq<Seq<char>> {
    Seq::new(arguments.len(), |i: int| arguments[i]@)
}

impl ParamsView {
    /// The parameters before any argument was read.
    pub open spec fn default_spec() -> ParamsView {
        ParamsView { filepath: Seq::empty(), options: AuthMonitorOptions::default_spec() }
    }

    /// The first rule that these parameters break, if they break one: the
    /// path is there, both limits are positive, the window is not negative.
    pub open spec fn validated(self) -> Result<(), ParamsErrorView> {
        if self.filepath.len() == 0 {
            Err(ParamsErrorView::FilePathNotSpecified)
        } else if self.options.max_failed_attempts <= 0 {
            Err(ParamsErrorView::MaxFailedAttemptsNotPositive)
        } else if self.options.reset_after_seconds <= 0 {
            Err(ParamsErrorView::ResetAfterSecondsNotPositive)
        } else if self.options.ignore_subsequent_fails_ms < 0 {
            Err(ParamsErrorView::IgnoreSubsequentFailsNegative)
        } else {
            Ok(())
        }
    }

    /// What `AuthMonitorParams::from_arguments` makes of `arguments`: all
    /// three options are known, and the result is validated.
    pub open spec fn from_arguments(arguments: Seq<Seq<char>>) -> Result<
        ParamsView,
        ParamsErrorView,
    > {
        match with_arguments(ParamsView::default_spec(), arguments, true) {
            Ok(params) => match params.validated() {
                Ok(_) => Ok(params),
                Err(error) => Err(error),
            },
            Err(error) => Err(error),
        }
    }

    /// What `parse_arguments` makes of `arguments`: the debounce option is
    /// not known, and only the path is asked for.
    pub open spec fn parse_arguments(arguments: Seq<Seq<char>>) -> Result<
        ParamsView,
        ParamsErrorView,
    > {
        match with_arguments(ParamsView::default_spec(), arguments, false) {
            Ok(params) => if params.filepath.len() == 0 {
                Err(ParamsErrorView::FilePathNotSpecified)
            } else {
                Ok(params)
            },
            Err(error) => Err(error),
        }
    }
}

/// A result of parsing, with its strings as sequences of characters.
pub open spec fn params_result_view(result: Result<AuthMonitorParams, ParamsError>) -> Result<
    ParamsView,
    ParamsErrorView,
> {
    match result {
        Ok(params) => Ok(params@),
        Err(error) => Err(error@),
    }
}

/// A number or an error, the error with its strings as sequences.
pub open spec fn number_result_view(result: Result<i32, ParamsError>) -> Result<
    i32,
    ParamsErrorView,
> {
    match result {
        Ok(number) => Ok(number),
        Err(error) => Err(error@),
    }
}

/// An optional string as an optional sequence of characters.
pub open spec fn optional_text_view(text: Option<&str>) -> Option<Seq<char>> {
    match text {
        Some(text) => Some(text@),
        None => None,
    }
}

/// Takes one more argument into `params`.
fn apply_argument(
    params: AuthMonitorParams,
    argument: &str,
    with_debounce: bool,
) -> (result: Result<AuthMonitorParams, ParamsError>)
    ensures
        params_result_view(result) == with_argument(params@, argument@, with_debounce),
{
    proof {
        reveal_strlit("--");
    }
    if !str_starts_with(argument, OPTION_PREFIX) {
        if !params.filepath.as_str().is_empty() {
            return Err(ParamsError::FilePathSpecifiedMoreThanOnce);
        }
        return Ok(
            AuthMonitorParams { filepath: String::from_str(argument), options: params.options },
        );
    }
    let length = argument.unicode_len();
    let separator = str_position_of(argument, OPTION_VALUE_SEPARATOR);
    assert(argument@[0] == '-' && argument@[1] == '-') by {
        assert(argument@.subrange(0, 2)[0] == "--"@[0]);
        assert(argument@.subrange(0, 2)[1] == "--"@[1]);
    }
    assert(separator >= 2) by {
        if separator < 2 {
            assert(argument@[separator as int] == '=');
        }
    }
    let name = argument.substring_char(0, separator);
    let value = if separator < length {
        Some(argument.substring_char(separator + 1, length))
    } else {
        None
    };
    let key = name.substring_char(2, separator);
    let options = params.options;
    if str_equals(key, MAX_FAILED_ATTEMPTS_OPTION) {
        match AuthMonitorParams::parse_option_value(name, value) {
            Ok(number) => Ok(
                AuthMonitorParams {
                    filepath: params.filepath,
                    options: AuthMonitorOptions { max_failed_attempts: number, ..options },
                },
            ),
            Err(error) => Err(error),
        }
    } else if str_equals(key, RESET_AFTER_SECONDS_OPTION) {
        match AuthMonitorParams::parse_option_value(name, value) {
            Ok(number) => Ok(
                AuthMonitorParams {
                    filepath: params.filepath,
                    options: AuthMonitorOptions { reset_after_seconds: number, ..options },
                },
            ),
            Err(error) => Err(error),
        }
    } else if with_debounce && str_equals(key, IGNORE_SUBSEQUENT_FAILS_MS_OPTION) {
        match AuthMonitorParams::parse_option_value(name, value) {
            Ok(number) => Ok(
                AuthMonitorParams {
                    filepath: params.filepath,
                    options: AuthMonitorOptions { ignore_subsequent_fails_ms: number, ..options },
                },
            ),
            Err(error) => Err(error),
        }
    } else {
        Err(ParamsError::UnknownOption { argument: String::from_str(argument) })
    }
}

/// Takes all of `arguments` into the default parameters, from left to right.
pub(crate) fn apply_arguments(arguments: &[String], with_debounce: bool) -> (result: Result<
    AuthMonitorParams,
    ParamsError,
>)
    ensures
        params_result_view(result) == with_arguments(
            ParamsView::default_spec(),
            arguments_view(arguments@),
            with_debounce,
        ),
{
    let mut params = AuthMonitorParams::default();
    let ghost all = arguments_view(arguments@);
    let mut i: usize = 0;
    assert(all.subrange(0, all.len() as int) =~= all);
    while i < arguments.len()
        invariant
            i <= arguments.len(),
            all == arguments_view(arguments@),
            with_arguments(ParamsView::default_spec(), all, with_debounce) == with_arguments(
                params@,
                all.subrange(i as int, all.len() as int),
                with_debounce,
            ),
        decreases arguments.len() - i,
    {
        let ghost rest = all.subrange(i as int, all.len() as int);
        assert(rest[0] == arguments@[i as int]@);
        assert(rest.drop_first() =~= all.subrange(i + 1, all.len() as int));
        match apply_argument(params, arguments[i].as_str(), with_debounce) {
            Ok(next) => {
                params = next;
            },
            Err(error) => {
                return Err(error);
            },
        }
        i += 1;
    }
    assert(all.subrange(i as int, all.len() as int).len() == 0);
    Ok(params)
}

impl AuthMonitorParams {
    /// Reads the number of the option `name` from `optional_value`.
    pub fn parse_option_value(name: &str, optional_value: Option<&str>) -> (number: Result<
        i32,
        ParamsError,
    >)
        ensures
            number_result_view(number) == option_number(name@, optional_text_view(optional_value)),
    {
        let value = match optional_value {
            Some(value) => value,
            None => {
                return Err(ParamsError::MissingOptionValue { option: String::from_str(name) });
            },
        };
        if value.is_empty() {
            return Err(ParamsError::MissingOptionValue { option: String::from_str(name) });
        }
        match parse_i32(value) {
            Some(number) => Ok(number),
            None => Err(
                ParamsError::InvalidOptionValue {
                    value: String::from_str(value),
                    option: String::from_str(name),
                },
            ),
        }
    }

    /// Reads the parameters from command-line arguments, the program's name
    /// left out. An argument that begins with `--` is an option, written as
    /// name, `=` and a decimal value; any other argument is the path, which
    /// may be given once. The result is validated before it is returned.
    pub fn from_arguments(arguments: &[String]) -> (result: Result<AuthMonitorParams, ParamsError>)
        ensures
            params_result_view(result) == ParamsView::from_arguments(arguments_view(arguments@)),
            result is Ok ==> result->Ok_0@.validated() is Ok,
    {
        let params = match apply_arguments(arguments, true) {
            Ok(params) => params,
            Err(error) => {
                return Err(error);
            },
        };
        match params.validate() {
            Ok(_) => Ok(params),
            Err(error) => Err(error),
        }
    }

    /// Checks the parameters: the path is not empty, `max_failed_attempts`
    /// and `reset_after_seconds` are positive, `ignore_subsequent_fails_ms`
    /// is not negative. The first rule broken, in this order, is reported.
    pub fn validate(&self) -> (result: Result<(), ParamsError>)
        ensures
            match result {
                Ok(_) => self@.validated() is Ok,
                Err(error) => self@.validated() == Err::<(), ParamsErrorView>(error@),
            },
            result is Ok <==> self.filepath@.len() > 0 && self.options.is_valid(),
    {
        if self.filepath.as_str().is_empty() {
            return Err(ParamsError::FilePathNotSpecified);
        }
        if self.options.max_failed_attempts <= 0 {
            return Err(ParamsError::MaxFailedAttemptsNotPositive);
        }
        if self.options.reset_after_seconds <= 0 {
            return Err(ParamsError::ResetAfterSecondsNotPositive);
        }
        if self.options.ignore_subsequent_fails_ms < 0 {
            return Err(ParamsError::IgnoreSubsequentFailsNegative);
        }
        Ok(())
    }
}

impl ParamsView {
    /// The parameters in words: the path, then the options.
    pub open spec fn text(self) -> Seq<char> {
        "filepath="@ + self.filepath + ", options: "@ + self.options.text()
    }
}

impl AuthMonitorParams {
    /// The parameters in words, for a report.
    pub fn to_text(&self) -> (text: String)
        ensures
            text@ == self@.text(),
    {
        let mut text = String::from_str("filepath=");
        text.append(self.filepath.as_str());
        text.append(", options: ");
        text.append(self.options.to_text().as_str());
        text
    }
}

impl Default for AuthMonitorParams {
    fn default() -> (params: AuthMonitorParams)
        ensures
            params@ == ParamsView::default_spec(),
    {
        AuthMonitorParams { filepath: String::new(), options: AuthMonitorOptions::default() }
    }
}

} // verus!
