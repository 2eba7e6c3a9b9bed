//! Which log lines report a failed authentication, and when they were written.

use vstd::prelude::*;
use vstd::string::*;
use vstd::utf8::*;

use crate::byte_text::{contains_in_order, occurs_in_order};

verus! {

/// The format of the time that begins a log line: the date, `T`, the time
/// with six digits of fraction, and the offset from UTC with a colon.
pub const DATE_FORMAT_ISO_8601: &'static str = "%Y-%m-%dT%H:%M:%S.%6f%:z";

/// The number of bytes that a time in `DATE_FORMAT_ISO_8601` takes.
pub const TIMESTAMP_LENGTH: usize = 32;

/// The timestamp that stands for a time that could not be read.
pub const UNKNOWN_TIMESTAMP: i64 = 0;

/// A marker that names the writer of a line, and the phrase that the writer
/// uses for a failed authentication.
pub struct AuthFailedMessagePattern {
    prefix: String,
    message: String,
}

/// An `AuthFailedMessagePattern` as two byte sequences.
pub struct PatternView {
    pub prefix: Seq<u8>,
    pub message: Seq<u8>,
}

impl View for AuthFailedMessagePattern {
    type V = PatternView;

    closed spec fn view(&self) -> PatternView {
        PatternView { prefix: encode_utf8(self.prefix@), message: encode_utf8(self.message@) }
    }
}

/// The patterns that a new parser knows: `pam_unix` with `authentication
/// failure`, and `unix_chkpwd` with `password check failed`.
pub open spec fn known_patterns() -> Seq<PatternView> {
    seq![
        PatternView {
            prefix: "pam_unix".spec_bytes(),
            message: "authentication failure".spec_bytes(),
        },
        PatternView {
            prefix: "unix_chkpwd".spec_bytes(),
            message: "password check failed".spec_bytes(),
        },
    ]
}

/// Whether `text` meets one of `patterns`: the marker stands in it, and the
/// marker's phrase stands somewhere behind the marker.
pub open spec fn matches_any(patterns: Seq<PatternView>, text: Seq<u8>) -> bool {
    exists|i: int|
        0 <= i < patterns.len() && occurs_in_order(
            text,
            (#[trigger] patterns[i]).prefix,
            patterns[i].message,
        )
}

/// What the library reads as the time of `text` in the format `format`, in
/// milliseconds since the first of January 1970 UTC; `None` where `text`
/// is no time in that format.
pub uninterp spec fn date_time_millis(text: Seq<char>, format: Seq<char>) -> Option<i64>;

/// Calls `DateTime::parse_from_str` of chrono with `text` and `format`, and
/// hands out the `timestamp_millis` of the time that it read. Assumed: the
/// result is `date_time_millis` of the two strings, that is, it depends on
/// them alone; an error of the parser is `None`.
#[verifier::external_body]
fn parse_date_time_millis(text: &str, format: &str) -> (millis: Option<i64>)
    ensures
        millis == date_time_millis(text@, format@),
{
    match chrono::DateTime::parse_from_str(text, format) {
        Ok(date_time) => Some(date_time.timestamp_millis()),
        Err(_) => None,
    }
}

/// The timestamp of a line whose time was read as `parsed`: the time where
/// there is one, `UNKNOWN_TIMESTAMP` where there is none.
pub fn timestamp_or_unknown(parsed: Option<i64>) -> (millis: i64)
    ensures
        millis == match parsed {
            Some(time) => time,
            None => UNKNOWN_TIMESTAMP,
        },
{
    match parsed {
        Some(time) => time,
        None => UNKNOWN_TIMESTAMP,
    }
}

/// The characters that hold the time of `message`: its first
/// `TIMESTAMP_LENGTH` bytes, where it has as many and they end with a
/// whole character.
pub open spec fn timestamp_text(message: Seq<char>) -> Option<Seq<char>> {
    let bytes = encode_utf8(message);
    if bytes.len() >= TIMESTAMP_LENGTH && is_char_boundary(bytes, TIMESTAMP_LENGTH as int) {
        Some(decode_utf8(bytes.subrange(0, TIMESTAMP_LENGTH as int)))
    } else {
        None
    }
}

/// The timestamp that `get_message_timestamp_millis` gives for `message`.
pub open spec fn message_timestamp(message: Seq<char>) -> i64 {
    match timestamp_text(message) {
        Some(text) => match date_time_millis(text, DATE_FORMAT_ISO_8601@) {
            Some(time) => time,
            None => UNKNOWN_TIMESTAMP,
        },
        None => UNKNOWN_TIMESTAMP,
    }
}

/// Tells lines that report a failed authentication from other lines.
pub struct AuthMessageParser {
    patterns: Vec<AuthFailedMessagePattern>,
}

impl AuthMessageParser {
    /// The patterns that this parser looks for, in the order it tries them.
    pub closed spec fn patterns(&self) -> Seq<PatternView> {
        Seq::new(self.patterns@.len(), |i: int| self.patterns@[i]@)
    }

    /// A parser for the messages of `pam_unix` and `unix_chkpwd`.
    pub fn new() -> (parser: AuthMessageParser)
        ensures
            parser.patterns() == known_patterns(),
    {
        let pam_message = AuthFailedMessagePattern {
            prefix: String::from_str("pam_unix"),
            message: String::from_str("authentication failure"),
        };
        let unix_chkpwd_message = AuthFailedMessagePattern {
            prefix: String::from_str("unix_chkpwd"),
            message: String::from_str("password check failed"),
        };
        let mut patterns: Vec<AuthFailedMessagePattern> = Vec::new();
        patterns.push(pam_message);
        patterns.push(unix_chkpwd_message);
        let parser = AuthMessageParser { patterns };
        assert(parser.patterns() =~= known_patterns());
        parser
    }

    /// Whether `message` reports a failed authentication: for one of the
    /// parser's patterns, the bytes of the marker stand in `message` and the
    /// bytes of its phrase stand behind them. Upper and lower case differ.
    pub fn is_auth_failed_message(&self, message: &str) -> (failed: bool)
        ensures
            failed == matches_any(self.patterns(), message.spec_bytes()),
    {
        let text = message.as_bytes();
        let mut i: usize = 0;
        while i < self.patterns.len()
            invariant
                i <= self.patterns@.len(),
                text@ == message.spec_bytes(),
                forall|j: int|
                    0 <= j < i ==> !occurs_in_order(
                        text@,
                        (#[trigger] self.patterns()[j]).prefix,
                        self.patterns()[j].message,
                    ),
            decreases self.patterns.len() - i,
        {
            let pattern = &self.patterns[i];
            let prefix = pattern.prefix.as_str().as_bytes();
            let phrase = pattern.message.as_str().as_bytes();
            if contains_in_order(text, prefix, phrase) {
                assert(occurs_in_order(
                    text@,
                    self.patterns()[i as int].prefix,
                    self.patterns()[i as int].message,
                ));
                return true;
            }
            i += 1;
        }
        false
    }

    /// The time that begins `message`, in milliseconds since the first of
    /// January 1970 UTC, or `UNKNOWN_TIMESTAMP` where `message` begins with
    /// no time in `DATE_FORMAT_ISO_8601`.
    pub fn get_message_timestamp_millis(&self, message: &str) -> (millis: i64)
        ensures
            millis == message_timestamp(message@),
            message.spec_bytes().len() < TIMESTAMP_LENGTH ==> millis == UNKNOWN_TIMESTAMP,
    {
        if message.as_bytes().len() < TIMESTAMP_LENGTH || !message.is_char_boundary(
            TIMESTAMP_LENGTH,
        ) {
            return UNKNOWN_TIMESTAMP;
        }
        let (head, _) = message.split_at(TIMESTAMP_LENGTH);
        proof {
            encode_utf8_decode_utf8(head@);
        }
        timestamp_or_unknown(parse_date_time_millis(head, DATE_FORMAT_ISO_8601))
    }
}

} // verus!
