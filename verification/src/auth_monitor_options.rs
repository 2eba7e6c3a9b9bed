//! The policy of the failure counter.

use vstd::prelude::*;
use vstd::string::*;

use crate::text::{append_i32, decimal_text};

verus! {

/// The number of failures allowed when no option says otherwise.
pub const DEFAULT_MAX_FAILED_ATTEMPTS: i32 = 3;

/// The seconds of silence after which the count starts again, by default.
pub const DEFAULT_RESET_AFTER_SECONDS: i32 = 1800;

/// The debounce window in milliseconds, by default: none.
pub const DEFAULT_IGNORE_SUBSEQUENT_FAILS_MS: i32 = 0;

/// The three numbers that steer the failure counter.
#[derive(Copy, Clone, Debug, PartialEq, Eq, Structural)]
pub struct AuthMonitorOptions {
    /// The count of failures at which the action is due.
    pub max_failed_attempts: i32,
    /// The seconds without a failure after which the count is forgotten.
    pub reset_after_seconds: i32,
    /// Failures this close, in milliseconds, to the one before are not counted.
    pub ignore_subsequent_fails_ms: i32,
}

impl AuthMonitorOptions {
    /// The options that `default` returns.
    pub open spec fn default_spec() -> AuthMonitorOptions {
        AuthMonitorOptions {
            max_failed_attempts: DEFAULT_MAX_FAILED_ATTEMPTS,
            reset_after_seconds: DEFAULT_RESET_AFTER_SECONDS,
            ignore_subsequent_fails_ms: DEFAULT_IGNORE_SUBSEQUENT_FAILS_MS,
        }
    }

    /// Whether a monitor can be built from these options: both limits are
    /// positive and the debounce window is not negative.
    pub open spec fn is_valid(self) -> bool {
        &&& self.max_failed_attempts > 0
        &&& self.reset_after_seconds > 0
        &&& self.ignore_subsequent_fails_ms >= 0
    }

    /// The options in words: each by its name, `=` and its number in
    /// decimal, parted by a comma and a blank.
    pub open spec fn text(self) -> Seq<char> {
        "max-failed-attempts="@ + decimal_text(self.max_failed_attempts as int)
            + ", reset-after-seconds="@ + decimal_text(self.reset_after_seconds as int)
            + ", ignore-subsequent-fails-ms="@ + decimal_text(
            self.ignore_subsequent_fails_ms as int,
        )
    }

    /// The options in words, for a report.
    pub fn to_text(&self) -> (text: String)
        ensures
            text@ == self.text(),
    {
        let mut text = String::from_str("max-failed-attempts=");
        append_i32(&mut text, self.max_failed_attempts);
        text.append(", reset-after-seconds=");
        append_i32(&mut text, self.reset_after_seconds);
        text.append(", ignore-subsequent-fails-ms=");
        append_i32(&mut text, self.ignore_subsequent_fails_ms);
        text
    }
}

impl Default for AuthMonitorOptions {
    fn default() -> (options: AuthMonitorOptions)
        ensures
            options == AuthMonitorOptions::default_spec(),
    {
        AuthMonitorOptions {
            max_failed_attempts: DEFAULT_MAX_FAILED_ATTEMPTS,
            reset_after_seconds: DEFAULT_RESET_AFTER_SECONDS,
            ignore_subsequent_fails_ms: DEFAULT_IGNORE_SUBSEQUENT_FAILS_MS,
        }
    }
}

} // verus!
