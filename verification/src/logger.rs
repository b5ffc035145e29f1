//! The structured logger: a level threshold and the entries recorded so far.

use crate::text::{lowercase, str_equals, to_lowercase};
use std::cmp::Ordering;
use vstd::prelude::*;
use vstd::std_specs::cmp::PartialOrdSpecImpl;
use vstd::string::StringExecFns;

verus! {

/// How much the logger records. A lower rank is more urgent.
#[derive(Debug, Clone, Copy, PartialEq, Eq, Structural)]
pub enum LogLevel {
    Debug,
    Info,
    Warning,
    Error,
    Global,
}

impl LogLevel {
    /// The level's rank: `Global` lowest, then `Error`, `Warning`, `Info`, `Debug`.
    pub open spec fn rank(self) -> int {
        match self {
            LogLevel::Debug => 3,
            LogLevel::Info => 2,
            LogLevel::Warning => 1,
            LogLevel::Error => 0,
            LogLevel::Global => -1,
        }
    }

    /// The rank as a machine integer.
    pub fn severity(&self) -> (rank: i8)
        ensures
            rank == self.rank(),
    {
        match self {
            LogLevel::Debug => 3,
            LogLevel::Info => 2,
            LogLevel::Warning => 1,
            LogLevel::Error => 0,
            LogLevel::Global => -1,
        }
    }

    /// The level's name in capitals.
    pub open spec fn name(self) -> Seq<char> {
        match self {
            LogLevel::Debug => "DEBUG"@,
            LogLevel::Info => "INFO"@,
            LogLevel::Warning => "WARNING"@,
            LogLevel::Error => "ERROR"@,
            LogLevel::Global => "GLOBAL"@,
        }
    }

    /// The level's name in capitals.
    pub fn to_string(&self) -> (name: String)
        ensures
            name@ == self.name(),
    {
        match self {
            LogLevel::Debug => "DEBUG".to_owned(),
            LogLevel::Info => "INFO".to_owned(),
            LogLevel::Warning => "WARNING".to_owned(),
            LogLevel::Error => "ERROR".to_owned(),
            LogLevel::Global => "GLOBAL".to_owned(),
        }
    }
}

/// The level that a lower-case name stands for; `Info` for any other text.
pub open spec fn log_level_named(lowered: Seq<char>) -> LogLevel {
    if lowered == "debug"@ {
        LogLevel::Debug
    } else if lowered == "warning"@ {
        LogLevel::Warning
    } else if lowered == "error"@ {
        LogLevel::Error
    } else {
        LogLevel::Info
    }
}

/// The level that a lower-case name stands for: `debug`, `info`, `warning` or
/// `error`; `Info` for any other text.
pub fn log_level_from_name(lowered: &str) -> (level: LogLevel)
    ensures
        level == log_level_named(lowered@),
{
    if str_equals(lowered, "debug") {
        LogLevel::Debug
    } else if str_equals(lowered, "warning") {
        LogLevel::Warning
    } else if str_equals(lowered, "error") {
        LogLevel::Error
    } else {
        LogLevel::Info
    }
}

impl LogLevel {
    /// The level that `value` names, whatever its case; `Info` where it names none.
    pub fn from(value: &String) -> (level: LogLevel)
        ensures
            level == log_level_named(lowercase(value@)),
    {
        let lowered = to_lowercase(value.as_str());
        log_level_from_name(lowered.as_str())
    }
}

impl PartialOrd for LogLevel {
    fn partial_cmp(&self, other: &Self) -> (order: Option<Ordering>) {
        let mine = self.severity();
        let theirs = other.severity();
        if mine < theirs {
            Some(Ordering::Less)
        } else if mine > theirs {
            Some(Ordering::Greater)
        } else {
            Some(Ordering::Equal)
        }
    }
}

impl PartialOrdSpecImpl for LogLevel {
    open spec fn obeys_partial_cmp_spec() -> bool {
        true
    }

    open spec fn partial_cmp_spec(&self, other: &Self) -> Option<Ordering> {
        if self.rank() < other.rank() {
            Some(Ordering::Less)
        } else if self.rank() > other.rank() {
            Some(Ordering::Greater)
        } else {
            Some(Ordering::Equal)
        }
    }
}

impl Default for LogLevel {
    fn default() -> (level: Self)
        ensures
            level == LogLevel::Info,
    {
        LogLevel::Info
    }
}

/// One recorded entry.
#[derive(Debug)]
pub struct Log {
    pub level: LogLevel,
    pub message: String,
    pub timestamp: String,
}

/// The mathematical content of a [`Log`].
pub ghost struct LogView {
    pub level: LogLevel,
    pub message: Seq<char>,
    pub timestamp: Seq<char>,
}

impl View for Log {
    type V = LogView;

    open spec fn view(&self) -> LogView {
        LogView { level: self.level, message: self.message@, timestamp: self.timestamp@ }
    }
}

impl DeepView for Log {
    type V = LogView;

    open spec fn deep_view(&self) -> LogView {
        self@
    }
}

impl Clone for Log {
    fn clone(&self) -> (copy: Self)
        ensures
            copy@ == self@,
    {
        Log {
            level: self.level,
            message: self.message.clone(),
            timestamp: self.timestamp.clone(),
        }
    }
}

/// The mathematical content of a [`Logger`].
pub ghost struct LoggerView {
    pub level: LogLevel,
    pub logs: Seq<LogView>,
}

impl LoggerView {
    /// Whether an entry of `level` passes the threshold.
    pub open spec fn admits(self, level: LogLevel) -> bool {
        level.rank() <= self.level.rank()
    }

    /// The logger after its threshold has been set to `level`: the change is recorded
    /// at level `Global`, which every threshold admits.
    pub open spec fn with_level(self, level: LogLevel, timestamp: Seq<char>) -> LoggerView {
        (LoggerView { level, ..self }).recorded(
            LogLevel::Global,
            level_change_message(level),
            timestamp,
        )
    }

    /// The logger after an attempt to record: an admitted entry joins at the end,
    /// any other leaves the logger as it was.
    pub open spec fn recorded(
        self,
        level: LogLevel,
        message: Seq<char>,
        timestamp: Seq<char>,
    ) -> LoggerView {
        if self.admits(level) {
            LoggerView { logs: self.logs.push(LogView { level, message, timestamp }), ..self }
        } else {
            self
        }
    }

}

/// The trailing message of a change of level.
pub open spec fn level_change_message(level: LogLevel) -> Seq<char> {
    "Log level has been set to: "@ + level.name()
}

/// A reading of the wall clock: the whole seconds since the start of 1970 in
/// universal time, negative before it, and the nanoseconds past them.
#[derive(Debug, Clone, Copy, PartialEq, Eq, Structural)]
pub struct Moment {
    pub seconds: i64,
    pub nanos: u32,
}

/// The ISO 8601 text with milliseconds that `chrono` writes for a reading of the
/// clock, where its calendar holds the reading.
pub uninterp spec fn timestamp_text(seconds: i64, nanos: u32) -> Option<Seq<char>>;

/// Calls `chrono::DateTime::from_timestamp`, which gives no date for a reading that
/// the calendar cannot hold, and formats a date as `%Y-%m-%dT%H:%M:%S%.3fZ`. The
/// contract names the text.
#[verifier::external_body]
fn format_timestamp(seconds: i64, nanos: u32) -> (text: Option<String>)
    ensures
        text is Some <==> timestamp_text(seconds, nanos) is Some,
        text matches Some(t) ==> Some(t@) == timestamp_text(seconds, nanos),
{
    match chrono::DateTime::from_timestamp(seconds, nanos) {
        Some(date) => Some(date.format("%Y-%m-%dT%H:%M:%S%.3fZ").to_string()),
        None => None,
    }
}

/// The time stamp of an entry recorded at `at`: the reading's text, and the empty
/// text for a reading that the calendar cannot hold.
pub open spec fn stamp_of(at: Moment) -> Seq<char> {
    match timestamp_text(at.seconds, at.nanos) {
        Some(text) => text,
        None => Seq::empty(),
    }
}

/// The time stamp for the formatted text of a reading, if it has one.
pub open spec fn stamp_from(text: Option<Seq<char>>) -> Seq<char> {
    match text {
        Some(t) => t,
        None => Seq::empty(),
    }
}

/// The time stamp for the formatted text of a reading: the text itself, or the empty
/// text where there is none.
pub fn stamp_or_empty(text: Option<String>) -> (stamp: String)
    ensures
        stamp@ == stamp_from(
            match text {
                Some(t) => Some(t@),
                None => None,
            },
        ),
{
    match text {
        Some(t) => t,
        None => String::new(),
    }
}

impl Moment {
    /// The time stamp of an entry recorded at this reading.
    pub fn stamp(&self) -> (stamp: String)
        ensures
            stamp@ == stamp_of(*self),
    {
        stamp_or_empty(format_timestamp(self.seconds, self.nanos))
    }
}

/// The logger: entries at or below the threshold's rank are recorded in arrival order.
#[derive(Debug)]
pub struct Logger {
    level: LogLevel,
    logs: Vec<Log>,
}

impl View for Logger {
    type V = LoggerView;

    closed spec fn view(&self) -> LoggerView {
        LoggerView { level: self.level, logs: self.logs.deep_view() }
    }
}

impl Clone for Logger {
    fn clone(&self) -> (copy: Self)
        ensures
            copy@ == self@,
    {
        Logger { level: self.level, logs: self.get_logs() }
    }
}

impl Default for Logger {
    fn default() -> (logger: Self)
        ensures
            logger@ == (LoggerView { level: LogLevel::Info, logs: Seq::empty() }),
    {
        let logger = Logger { level: LogLevel::Info, logs: Vec::new() };
        assert(logger.logs.deep_view() =~= Seq::<LogView>::empty());
        logger
    }
}

impl Logger {
    /// Records `message` at `level` under the given time stamp, if the threshold admits it.
    pub fn log_at(&mut self, level: LogLevel, message: &str, timestamp: String)
        ensures
            final(self)@ == old(self)@.recorded(level, message@, timestamp@),
    {
        if level.severity() <= self.level.severity() {
            let ghost before = self.logs.deep_view();
            let entry = Log { level, message: message.to_owned(), timestamp };
            self.logs.push(entry);
            assert(self.logs.deep_view() =~= before.push(entry@));
        }
    }

    /// Records `message` at `level` under the time `at`, if the threshold admits it.
    fn log(&mut self, level: LogLevel, message: &str, at: Moment)
        ensures
            final(self)@ == old(self)@.recorded(level, message@, stamp_of(at)),
    {
        self.log_at(level, message, at.stamp());
    }

    /// Records `message` at level `Debug` under the time `at`.
    pub fn debug(&mut self, message: &str, at: Moment)
        ensures
            final(self)@ == old(self)@.recorded(LogLevel::Debug, message@, stamp_of(at)),
    {
        self.log(LogLevel::Debug, message, at);
    }

    /// Records `message` at level `Info` under the time `at`.
    pub fn info(&mut self, message: &str, at: Moment)
        ensures
            final(self)@ == old(self)@.recorded(LogLevel::Info, message@, stamp_of(at)),
    {
        self.log(LogLevel::Info, message, at);
    }

    /// Records `message` at level `Warning` under the time `at`.
    pub fn warning(&mut self, message: &str, at: Moment)
        ensures
            final(self)@ == old(self)@.recorded(LogLevel::Warning, message@, stamp_of(at)),
    {
        self.log(LogLevel::Warning, message, at);
    }

    /// Records `message` at level `Error` under the time `at`.
    pub fn error(&mut self, message: &str, at: Moment)
        ensures
            final(self)@ == old(self)@.recorded(LogLevel::Error, message@, stamp_of(at)),
    {
        self.log(LogLevel::Error, message, at);
    }

    /// Records `message` at level `Global`, which every threshold admits.
    pub fn global(&mut self, message: &str, at: Moment)
        ensures
            final(self)@ == old(self)@.recorded(LogLevel::Global, message@, stamp_of(at)),
    {
        self.log(LogLevel::Global, message, at);
    }

    /// A copy of the recorded entries, oldest first.
    pub fn get_logs(&self) -> (logs: Vec<Log>)
        ensures
            logs.deep_view() == self@.logs,
    {
        let mut logs: Vec<Log> = Vec::new();
        let mut i: usize = 0;
        while i < self.logs.len()
            invariant
                i <= self.logs.len(),
                logs.len() == i,
                forall|k: int| 0 <= k < i ==> logs@[k]@ == self.logs@[k]@,
            decreases self.logs.len() - i,
        {
            logs.push(self.logs[i].clone());
            i += 1;
        }
        assert(logs.deep_view() =~= self.logs.deep_view());
        logs
    }

    /// The number of recorded entries.
    pub fn count(&self) -> (count: usize)
        ensures
            count == self@.logs.len(),
    {
        self.logs.len()
    }

    /// The threshold.
    pub fn level(&self) -> (level: LogLevel)
        ensures
            level == self@.level,
    {
        self.level
    }

    /// Sets the threshold to `value` and records the change at level `Global` under
    /// the time `at`.
    pub fn set_level(&mut self, value: LogLevel, at: Moment)
        ensures
            final(self)@ == old(self)@.with_level(value, stamp_of(at)),
    {
        self.level = value;
        let message = "Log level has been set to: ".to_owned().concat(value.to_string().as_str());
        self.log(LogLevel::Global, message.as_str(), at);
    }
}

/// An entry that the threshold admits joins the log as its newest entry; any other
/// leaves the logger as it was. The threshold and the earlier entries stay.
pub proof fn law_admitted_entry_is_last(
    before: LoggerView,
    level: LogLevel,
    message: Seq<char>,
    timestamp: Seq<char>,
)
    ensures
        before.recorded(level, message, timestamp).level == before.level,
        before.admits(level) ==> before.recorded(level, message, timestamp).logs
            == before.logs.push(LogView { level, message, timestamp }),
        !before.admits(level) ==> before.recorded(level, message, timestamp) == before,
        before.logs.is_prefix_of(before.recorded(level, message, timestamp).logs),
        before.admits(LogLevel::Global),
{
}

} // verus!
