//! Counts failed authentications and says when there were too many.

use vstd::prelude::*;
use vstd::string::*;
use vstd::utf8::*;

use crate::auth_file_watcher::{AuthFileWatcher, WatcherState};
use crate::auth_message_parser::{
    known_patterns, matches_any, message_timestamp, AuthMessageParser, PatternView,
    UNKNOWN_TIMESTAMP,
};
use crate::auth_monitor_options::AuthMonitorOptions;
use crate::auth_monitor_params::{AuthMonitorParams, ParamsError, ParamsErrorView};
use crate::file_path::{file_path_of, PathError};

verus! {

/// Why a monitor could not be made.
#[derive(Debug)]
pub enum MonitorError {
    /// The parameters break a rule.
    InvalidParams(ParamsError),
    /// The path of the file could not be parted.
    InvalidPath(PathError),
}

impl MonitorError {
    /// The sentence that reports this error.
    pub fn message(&self) -> (text: String)
        ensures
            text@ == match self {
                MonitorError::InvalidParams(error) => error@.message(),
                MonitorError::InvalidPath(error) => error@.message(),
            },
    {
        match self {
            MonitorError::InvalidParams(error) => error.message(),
            MonitorError::InvalidPath(error) => error.message(),
        }
    }
}

/// What the counter holds, as mathematics.
pub struct MonitorState {
    /// The failures counted in this window.
    pub failed_attempts: int,
    /// The time of the last failure that was counted, in milliseconds;
    /// zero while there is none.
    pub last_failed_auth_timestamp: int,
}

/// What a run of failures amounts to: the time of the last one counted, and
/// how many were counted.
pub struct Tally {
    pub last: int,
    pub counted: nat,
}

/// Whether a failure at `time` is passed over because it follows the
/// failure at `last` within the window of `window` milliseconds. Without a
/// window nothing is passed over. A `last` of zero, which stands for no
/// failure, is taken as the time zero.
pub open spec fn is_debounced(last: int, window: int, time: int) -> bool {
    window > 0 && time - last <= window
}

/// Counts the failures at `times`, in their order, after a last failure at
/// `last`: one that is debounced changes nothing, any other is counted and
/// becomes the last.
pub open spec fn tally(last: int, window: int, times: Seq<i64>) -> Tally
    decreases times.len(),
{
    if times.len() == 0 {
        Tally { last, counted: 0 }
    } else {
        let before = tally(last, window, times.drop_last());
        if is_debounced(before.last, window, times.last() as int) {
            before
        } else {
            Tally { last: times.last() as int, counted: before.counted + 1 }
        }
    }
}

/// Without a debounce window every failure counts, and the last of them is
/// the last failure.
pub proof fn lemma_without_window_every_failure_counts(last: int, window: int, times: Seq<i64>)
    requires
        window <= 0,
    ensures
        tally(last, window, times).counted == times.len(),
        tally(last, window, times).last == if times.len() > 0 {
            times.last() as int
        } else {
            last
        },
    decreases times.len(),
{
    if times.len() > 0 {
        lemma_without_window_every_failure_counts(last, window, times.drop_last());
    }
}

/// With a debounce window, two failures that follow no other, the first
/// of them later than the window behind the time zero, count as one where
/// the second comes within the window behind the first, and as two where
/// it comes later.
pub proof fn lemma_two_failures_debounce(window: int, first: i64, second: i64)
    requires
        window > 0,
        first > window,
    ensures
        tally(0, window, seq![first, second]).counted == if second - first <= window {
            1nat
        } else {
            2nat
        },
        tally(0, window, seq![first, second]).last == if second - first <= window {
            first as int
        } else {
            second as int
        },
{
    let both = seq![first, second];
    assert(both.drop_last() =~= seq![first]);
    assert(both.drop_last().drop_last() =~= Seq::<i64>::empty());
    reveal_with_fuel(tally, 3);
}

/// The time at which the failure that `line` reports is taken to have
/// happened: the time that the line begins with, or `now` where it begins
/// with none.
pub open spec fn failure_time(line: Seq<char>, now: i64) -> i64 {
    if message_timestamp(line) == UNKNOWN_TIMESTAMP {
        now
    } else {
        message_timestamp(line)
    }
}

/// The times of the failures that `lines` report, in the order of the lines.
pub open spec fn failure_times(
    patterns: Seq<PatternView>,
    lines: Seq<Seq<char>>,
    now: i64,
) -> Seq<i64>
    decreases lines.len(),
{
    if lines.len() == 0 {
        Seq::empty()
    } else {
        let before = failure_times(patterns, lines.drop_last(), now);
        if matches_any(patterns, encode_utf8(lines.last())) {
            before.push(failure_time(lines.last(), now))
        } else {
            before
        }
    }
}

/// The lines as sequences of characters.
pub open spec fn lines_view(lines: Seq<String>) -> Seq<Seq<char>> {
    Seq::new(lines.len(), |i: int| lines[i]@)
}

impl MonitorState {
    /// The counter of a new monitor.
    pub open spec fn initial() -> MonitorState {
        MonitorState { failed_attempts: 0, last_failed_auth_timestamp: 0 }
    }

    /// Whether the count is forgotten at the time `now`: there is a last
    /// failure, the count is above zero and below the limit, and more than
    /// `reset_after_seconds` have passed since the last failure.
    pub open spec fn should_reset(self, options: AuthMonitorOptions, now: int) -> bool {
        &&& self.last_failed_auth_timestamp != 0
        &&& 0 < self.failed_attempts < options.max_failed_attempts
        &&& now - self.last_failed_auth_timestamp > options.reset_after_seconds * 1000
    }

    /// The counter after the decay check at the time `now`.
    pub open spec fn after_decay(self, options: AuthMonitorOptions, now: int) -> MonitorState {
        if self.should_reset(options, now) {
            MonitorState::initial()
        } else {
            self
        }
    }

    /// The counter after `counted` more failures: the count grows by them,
    /// up to the largest `i32`.
    pub open spec fn increased(self, counted: nat) -> MonitorState {
        MonitorState {
            failed_attempts: if self.failed_attempts + counted > i32::MAX {
                i32::MAX as int
            } else {
                self.failed_attempts + counted
            },
            ..self
        }
    }

    /// The counter after failures at `times` were registered.
    pub open spec fn after_failures(
        self,
        options: AuthMonitorOptions,
        times: Seq<i64>,
    ) -> MonitorState {
        let tally = tally(
            self.last_failed_auth_timestamp,
            options.ignore_subsequent_fails_ms as int,
            times,
        );
        MonitorState { last_failed_auth_timestamp: tally.last, ..self }.increased(tally.counted)
    }

    /// The number of the failures at `times` that are counted.
    pub open spec fn counted(self, options: AuthMonitorOptions, times: Seq<i64>) -> nat {
        tally(
            self.last_failed_auth_timestamp,
            options.ignore_subsequent_fails_ms as int,
            times,
        ).counted
    }

    /// The counter after one update at the time `now` with failures at
    /// `times`: first the decay check, then the failures.
    pub open spec fn after_update(
        self,
        options: AuthMonitorOptions,
        now: int,
        times: Seq<i64>,
    ) -> MonitorState {
        self.after_decay(options, now).after_failures(options, times)
    }

    /// Whether an update at the time `now` with failures at `times` finds
    /// the limit reached: at least one failure was counted, and the count
    /// is at the limit or above.
    pub open spec fn limit_reached(
        self,
        options: AuthMonitorOptions,
        now: int,
        times: Seq<i64>,
    ) -> bool {
        &&& self.after_decay(options, now).counted(options, times) > 0
        &&& self.after_update(options, now, times).failed_attempts >= options.max_failed_attempts
    }
}

/// One failure is counted where it does not fall into the window behind
/// the last failure, and then it is the last failure.
pub proof fn lemma_one_failure(last: int, window: int, time: i64)
    ensures
        tally(last, window, seq![time]) == if is_debounced(last, window, time as int) {
            Tally { last, counted: 0 }
        } else {
            Tally { last: time as int, counted: 1 }
        },
{
    assert(seq![time].drop_last() =~= Seq::<i64>::empty());
    reveal_with_fuel(tally, 2);
}

/// The limit of three: on a new monitor without a debounce window, with
/// one failure to an update and no update later than the reset time behind
/// the failure before it, the first two updates find the limit not
/// reached and leave a count of two. The third update finds the limit
/// reached exactly where the limit is three, and leaves a count of three.
pub proof fn lemma_third_failure_reaches_limit_of_three(
    options: AuthMonitorOptions,
    first_update: int,
    first: i64,
    second_update: int,
    second: i64,
    third_update: int,
    third: i64,
)
    requires
        options.is_valid(),
        options.max_failed_attempts > 2,
        options.ignore_subsequent_fails_ms == 0,
        second_update - first <= options.reset_after_seconds * 1000,
        third_update - second <= options.reset_after_seconds * 1000,
    ensures
        ({
            let new = MonitorState::initial();
            let one = new.after_update(options, first_update, seq![first]);
            let two = one.after_update(options, second_update, seq![second]);
            let three = two.after_update(options, third_update, seq![third]);
            &&& !new.limit_reached(options, first_update, seq![first])
            &&& !one.limit_reached(options, second_update, seq![second])
            &&& two.failed_attempts == 2
            &&& two.last_failed_auth_timestamp == second
            &&& two.limit_reached(options, third_update, seq![third]) == (
            options.max_failed_attempts == 3)
            &&& three.failed_attempts == 3
        }),
{
    lemma_one_failure(0, 0, first);
    lemma_one_failure(first as int, 0, second);
    lemma_one_failure(second as int, 0, third);
}

/// Decay: a count above zero and below the limit, with a last failure,
/// is forgotten by the first update that comes later than the reset time
/// behind that failure, before the update counts. So, without a debounce
/// window, two more failures, one to an update, the second update no later
/// than the reset time behind the first of them, find the limit not
/// reached and leave a count of two.
pub proof fn lemma_decayed_count_starts_again(
    options: AuthMonitorOptions,
    state: MonitorState,
    first_update: int,
    first: i64,
    second_update: int,
    second: i64,
)
    requires
        options.is_valid(),
        options.max_failed_attempts > 2,
        options.ignore_subsequent_fails_ms == 0,
        0 < state.failed_attempts < options.max_failed_attempts,
        state.last_failed_auth_timestamp != 0,
        first_update - state.last_failed_auth_timestamp > options.reset_after_seconds * 1000,
        second_update - first <= options.reset_after_seconds * 1000,
    ensures
        ({
            let one = state.after_update(options, first_update, seq![first]);
            let two = one.after_update(options, second_update, seq![second]);
            &&& state.after_decay(options, first_update) == MonitorState::initial()
            &&& !state.limit_reached(options, first_update, seq![first])
            &&& one.failed_attempts == 1
            &&& one.last_failed_auth_timestamp == first
            &&& !one.limit_reached(options, second_update, seq![second])
            &&& two.failed_attempts == 2
            &&& two.last_failed_auth_timestamp == second
        }),
{
    lemma_one_failure(0, 0, first);
    lemma_one_failure(first as int, 0, second);
}

/// Debounce, both failures in one update: on a new monitor with a debounce
/// window and a limit above two, two failures, the first of them later
/// than the window behind the time zero, count as one where the second
/// comes within the window behind the first, and the first stays the last
/// failure; they count as two where the second comes later. The limit is
/// not reached.
pub proof fn lemma_debounce_in_one_update(
    options: AuthMonitorOptions,
    update: int,
    first: i64,
    second: i64,
)
    requires
        options.is_valid(),
        options.max_failed_attempts > 2,
        options.ignore_subsequent_fails_ms > 0,
        first > options.ignore_subsequent_fails_ms,
    ensures
        ({
            let new = MonitorState::initial();
            let after = new.after_update(options, update, seq![first, second]);
            &&& !new.limit_reached(options, update, seq![first, second])
            &&& second - first <= options.ignore_subsequent_fails_ms ==> after.failed_attempts == 1
                && after.last_failed_auth_timestamp == first
            &&& second - first > options.ignore_subsequent_fails_ms ==> after.failed_attempts == 2
                && after.last_failed_auth_timestamp == second
        }),
{
    lemma_two_failures_debounce(options.ignore_subsequent_fails_ms as int, first, second);
}

/// Debounce, one failure to an update: as `lemma_debounce_in_one_update`,
/// where the second update comes no later than the reset time behind the
/// first failure.
pub proof fn lemma_debounce_in_two_updates(
    options: AuthMonitorOptions,
    first_update: int,
    first: i64,
    second_update: int,
    second: i64,
)
    requires
        options.is_valid(),
        options.max_failed_attempts > 2,
        options.ignore_subsequent_fails_ms > 0,
        first > options.ignore_subsequent_fails_ms,
        second_update - first <= options.reset_after_seconds * 1000,
    ensures
        ({
            let new = MonitorState::initial();
            let one = new.after_update(options, first_update, seq![first]);
            let two = one.after_update(options, second_update, seq![second]);
            &&& !new.limit_reached(options, first_update, seq![first])
            &&& one.failed_attempts == 1
            &&& one.last_failed_auth_timestamp == first
            &&& !one.limit_reached(options, second_update, seq![second])
            &&& second - first <= options.ignore_subsequent_fails_ms ==> two == one
            &&& second - first > options.ignore_subsequent_fails_ms ==> two.failed_attempts == 2
                && two.last_failed_auth_timestamp == second
        }),
{
    let window = options.ignore_subsequent_fails_ms as int;
    lemma_one_failure(0, window, first);
    lemma_one_failure(first as int, window, second);
}

/// Asks chrono for the time, `Local::now`, and hands out its
/// `timestamp_millis`. Nothing is assumed of the result.
#[verifier::external_body]
fn current_time_millis() -> (now: i64) {
    chrono::Local::now().timestamp_millis()
}

/// Watches a log for failed authentications and counts them.
pub struct AuthMonitor {
    failed_attempts: i32,
    options: AuthMonitorOptions,
    file_watcher: AuthFileWatcher,
    auth_message_parser: AuthMessageParser,
    last_failed_auth_timestamp: i64,
}

impl View for AuthMonitor {
    type V = MonitorState;

    closed spec fn view(&self) -> MonitorState {
        MonitorState {
            failed_attempts: self.failed_attempts as int,
            last_failed_auth_timestamp: self.last_failed_auth_timestamp as int,
        }
    }
}

impl AuthMonitor {
    /// What holds of every monitor: its options are valid, its count is
    /// not negative, and its watcher is well formed.
    pub closed spec fn wf(&self) -> bool {
        &&& self.options.is_valid()
        &&& self.failed_attempts >= 0
        &&& self.file_watcher.wf()
    }

    /// The policy of the monitor.
    pub closed spec fn options_view(&self) -> AuthMonitorOptions {
        self.options
    }

    /// The patterns by which the monitor knows a failure.
    pub closed spec fn patterns(&self) -> Seq<PatternView> {
        self.auth_message_parser.patterns()
    }

    /// The watcher of the monitor.
    pub closed spec fn watcher(&self) -> AuthFileWatcher {
        self.file_watcher
    }

    /// Whether the monitor's count is forgotten at the time `now`.
    pub fn should_reset_failed_attempts(&self, now: i64) -> (reset: bool)
        ensures
            reset == self@.should_reset(self.options_view(), now as int),
    {
        if self.last_failed_auth_timestamp == 0 {
            return false;
        }
        if self.failed_attempts <= 0 || self.failed_attempts >= self.options.max_failed_attempts {
            return false;
        }
        let since_last: i128 = now as i128 - self.last_failed_auth_timestamp as i128;
        since_last > self.options.reset_after_seconds as i128 * 1000
    }

    /// Forgets the count and the last failure.
    pub fn reset_failed_attempts(&mut self)
        requires
            old(self).wf(),
        ensures
            final(self).wf(),
            final(self)@ == MonitorState::initial(),
            final(self).options_view() == old(self).options_view(),
            final(self).patterns() == old(self).patterns(),
            final(self).watcher() == old(self).watcher(),
    {
        self.failed_attempts = 0;
        self.last_failed_auth_timestamp = 0;
    }

    /// A monitor with the policy of `params` for the file at their path.
    /// The parameters are checked first; then the path is parted, which
    /// asks the file system for the directory. The monitor begins with a
    /// count of zero, no last failure, and a watcher without a reader.
    pub fn new(params: AuthMonitorParams) -> (result: Result<AuthMonitor, MonitorError>)
        ensures
            params@.validated() is Err ==> result is Err && result->Err_0
                is InvalidParams && params@.validated() == Err::<(), ParamsErrorView>(
                result->Err_0->InvalidParams_0@,
            ),
            params@.validated() is Ok ==> exists|resolved: Result<Option<Seq<char>>, Seq<char>>|
                match #[trigger] file_path_of(params@.filepath, resolved) {
                    Ok(path) => result is Ok && result->Ok_0.watcher().path_view() == path,
                    Err(error) => result is Err && result->Err_0 is InvalidPath
                        && result->Err_0->InvalidPath_0@ == error,
                },
            match result {
                Ok(monitor) => {
                    &&& monitor.wf()
                    &&& monitor@ == MonitorState::initial()
                    &&& monitor.options_view() == params.options
                    &&& monitor.patterns() == known_patterns()
                    &&& monitor.watcher()@ == WatcherState::absent()
                    &&& monitor.watcher().filepath_view() == params@.filepath
                },
                Err(_) => true,
            },
    {
        match params.validate() {
            Ok(_) => {},
            Err(error) => {
                return Err(MonitorError::InvalidParams(error));
            },
        }
        let file_watcher = match AuthFileWatcher::new(params.filepath.as_str()) {
            Ok(file_watcher) => file_watcher,
            Err(error) => {
                return Err(MonitorError::InvalidPath(error));
            },
        };
        Ok(
            AuthMonitor {
                failed_attempts: 0,
                options: params.options,
                file_watcher,
                auth_message_parser: AuthMessageParser::new(),
                last_failed_auth_timestamp: 0,
            },
        )
    }

    /// The number of failures counted in this window. It is never
    /// negative.
    pub fn failed_attempts(&self) -> (count: i32)
        ensures
            count == self@.failed_attempts,
            self.wf() ==> count >= 0,
    {
        self.failed_attempts
    }

    /// The time of the last failure that was counted, zero for none.
    pub fn last_failed_auth_timestamp(&self) -> (time: i64)
        ensures
            time == self@.last_failed_auth_timestamp,
    {
        self.last_failed_auth_timestamp
    }

    /// The policy of the monitor. It is always valid.
    pub fn options(&self) -> (options: AuthMonitorOptions)
        ensures
            options == self.options_view(),
            self.wf() ==> options.is_valid(),
    {
        self.options
    }

    /// Registers failures at `times`, in their order: each one that does
    /// not fall into the debounce window behind the last counted failure
    /// is counted and becomes the last. Hands out how many were counted.
    pub fn register_failures(&mut self, times: &[i64]) -> (counted: usize)
        requires
            old(self).wf(),
        ensures
            final(self).wf(),
            counted == old(self)@.counted(old(self).options_view(), times@),
            final(self)@ == (MonitorState {
                last_failed_auth_timestamp: tally(
                    old(self)@.last_failed_auth_timestamp,
                    old(self).options_view().ignore_subsequent_fails_ms as int,
                    times@,
                ).last,
                ..old(self)@
            }),
            final(self).options_view() == old(self).options_view(),
            final(self).patterns() == old(self).patterns(),
            final(self).watcher() == old(self).watcher(),
    {
        let window: i128 = self.options.ignore_subsequent_fails_ms as i128;
        let length: usize = times.len();
        let mut counted: usize = 0;
        let mut i: usize = 0;
        assert(times@.subrange(0, 0) =~= Seq::<i64>::empty());
        while i < length
            invariant
                i <= length,
                length == times@.len(),
                counted <= i,
                window == old(self).options.ignore_subsequent_fails_ms,
                self.options == old(self).options,
                self.failed_attempts == old(self).failed_attempts,
                self.file_watcher == old(self).file_watcher,
                self.auth_message_parser == old(self).auth_message_parser,
                tally(
                    old(self).last_failed_auth_timestamp as int,
                    window as int,
                    times@.subrange(0, i as int),
                ) == (Tally {
                    last: self.last_failed_auth_timestamp as int,
                    counted: counted as nat,
                }),
            decreases length - i,
        {
            let time: i64 = times[i];
            proof {
                let taken = times@.subrange(0, i + 1);
                assert(taken.drop_last() =~= times@.subrange(0, i as int));
                assert(taken.last() == time);
            }
            let since_last: i128 = time as i128 - self.last_failed_auth_timestamp as i128;
            if !(window > 0 && since_last <= window) {
                self.last_failed_auth_timestamp = time;
                counted += 1;
            }
            i += 1;
        }
        assert(times@.subrange(0, length as int) =~= times@);
        counted
    }

    /// Adds `failed_attempts` to the count, which stops at the largest
    /// `i32`, and says whether the count is at the limit or above.
    pub fn increase_failed_attempts(&mut self, failed_attempts: usize) -> (limit_reached: bool)
        requires
            old(self).wf(),
        ensures
            final(self).wf(),
            final(self)@ == old(self)@.increased(failed_attempts as nat),
            limit_reached == (final(self)@.failed_attempts >= old(
                self,
            ).options_view().max_failed_attempts),
            final(self).options_view() == old(self).options_view(),
            final(self).patterns() == old(self).patterns(),
            final(self).watcher() == old(self).watcher(),
    {
        let total: i128 = self.failed_attempts as i128 + failed_attempts as i128;
        self.failed_attempts = if total > i32::MAX as i128 {
            i32::MAX
        } else {
            total as i32
        };
        self.failed_attempts >= self.options.max_failed_attempts
    }

    /// One update of the counter at the time `now`, with failures at
    /// `times`. First the count is forgotten where it has decayed. Then
    /// the failures are registered, and those counted are added to the
    /// count. The result says whether the action is due: at least one
    /// failure was counted and the count is at the limit or above. It is
    /// said once for the update, however many failures passed the limit.
    pub fn update_with_times(&mut self, now: i64, times: &[i64]) -> (limit_reached: bool)
        requires
            old(self).wf(),
        ensures
            final(self).wf(),
            final(self)@ == old(self)@.after_update(old(self).options_view(), now as int, times@),
            limit_reached == old(self)@.limit_reached(old(self).options_view(), now as int, times@),
            final(self).options_view() == old(self).options_view(),
            final(self).patterns() == old(self).patterns(),
            final(self).watcher() == old(self).watcher(),
    {
        if self.should_reset_failed_attempts(now) {
            self.reset_failed_attempts();
        }
        let counted = self.register_failures(times);
        if counted > 0 {
            self.increase_failed_attempts(counted)
        } else {
            false
        }
    }

    /// The times of the failures that `lines` report, in the order of the
    /// lines: for each line that the parser knows as a failure, the time
    /// that it begins with, or `now` where it begins with none.
    pub fn failure_times(&self, lines: &[String], now: i64) -> (times: Vec<i64>)
        ensures
            times@ == failure_times(self.patterns(), lines_view(lines@), now),
    {
        let mut times: Vec<i64> = Vec::new();
        let ghost all = lines_view(lines@);
        let mut i: usize = 0;
        assert(all.subrange(0, 0) =~= Seq::<Seq<char>>::empty());
        while i < lines.len()
            invariant
                i <= lines.len(),
                all == lines_view(lines@),
                times@ == failure_times(self.patterns(), all.subrange(0, i as int), now),
            decreases lines.len() - i,
        {
            let line = lines[i].as_str();
            proof {
                let taken = all.subrange(0, i + 1);
                assert(taken.drop_last() =~= all.subrange(0, i as int));
                assert(taken.last() == line@);
            }
            if self.auth_message_parser.is_auth_failed_message(line) {
                let mut time = self.auth_message_parser.get_message_timestamp_millis(line);
                if time == UNKNOWN_TIMESTAMP {
                    time = now;
                }
                times.push(time);
            }
            i += 1;
        }
        assert(all.subrange(0, lines@.len() as int) =~= all);
        times
    }

    /// One update at the time `now` with the lines that were read of the
    /// log since the last update: `update_with_times` for the failures
    /// that the lines report.
    pub fn update_at(&mut self, now: i64, lines: &[String]) -> (limit_reached: bool)
        requires
            old(self).wf(),
        ensures
            final(self).wf(),
            final(self)@ == old(self)@.after_update(
                old(self).options_view(),
                now as int,
                failure_times(old(self).patterns(), lines_view(lines@), now),
            ),
            limit_reached == old(self)@.limit_reached(
                old(self).options_view(),
                now as int,
                failure_times(old(self).patterns(), lines_view(lines@), now),
            ),
            final(self).options_view() == old(self).options_view(),
            final(self).patterns() == old(self).patterns(),
            final(self).watcher() == old(self).watcher(),
    {
        let times = self.failure_times(lines, now);
        self.update_with_times(now, times.as_slice())
    }

    /// One update with the lines that were read of the log since the last
    /// update, at the time that the clock shows: `update_at` for that time.
    pub fn update(&mut self, lines: &[String]) -> (limit_reached: bool)
        requires
            old(self).wf(),
        ensures
            final(self).wf(),
            exists|now: i64|
                {
                    &&& final(self)@ == #[trigger] old(self)@.after_update(
                        old(self).options_view(),
                        now as int,
                        failure_times(old(self).patterns(), lines_view(lines@), now),
                    )
                    &&& limit_reached == old(self)@.limit_reached(
                        old(self).options_view(),
                        now as int,
                        failure_times(old(self).patterns(), lines_view(lines@), now),
                    )
                },
            final(self).options_view() == old(self).options_view(),
            final(self).patterns() == old(self).patterns(),
            final(self).watcher() == old(self).watcher(),
    {
        let now = current_time_millis();
        self.update_at(now, lines)
    }

    /// The watcher, for its holder to hand events and bytes to.
    pub fn file_watcher(&mut self) -> (watcher: &mut AuthFileWatcher)
        ensures
            *watcher == old(self).watcher(),
            old(self).wf() ==> watcher.wf(),
            old(self).wf() && final(watcher).wf() ==> final(self).wf(),
            final(self)@ == old(self)@,
            final(self).options_view() == old(self).options_view(),
            final(self).patterns() == old(self).patterns(),
            final(self).watcher() == *final(watcher),
    {
        &mut self.file_watcher
    }
}

} // verus!
