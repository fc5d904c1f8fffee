use crate::clock::Timestamp;
use vstd::prelude::*;

verus! {

/// Severity of a message, from least to most important.
#[derive(Clone, Copy, Debug, PartialEq, Eq, Structural)]
pub enum LogLevel {
    Debug,
    Info,
    Warn,
    Error,
    Fatal,
}

/// The numeric rank of a level: a higher rank is more severe.
pub open spec fn rank(level: LogLevel) -> int {
    match level {
        LogLevel::Debug => 0,
        LogLevel::Info => 1,
        LogLevel::Warn => 2,
        LogLevel::Error => 3,
        LogLevel::Fatal => 4,
    }
}

/// Whether a message of `level` passes a client whose threshold is `threshold`.
pub open spec fn emits(level: LogLevel, threshold: LogLevel) -> bool {
    rank(level) >= rank(threshold)
}

impl LogLevel {
    /// The level's rank, 0 for `Debug` up to 4 for `Fatal`.
    pub fn rank(&self) -> (r: i32)
        ensures
            r as int == rank(*self),
    {
        match self {
            LogLevel::Debug => 0,
            LogLevel::Info => 1,
            LogLevel::Warn => 2,
            LogLevel::Error => 3,
            LogLevel::Fatal => 4,
        }
    }

    /// Upper-case name of the level, as it appears in a log line.
    pub fn name(&self) -> (r: &'static str)
        ensures
            r@ == level_name(*self),
    {
        match self {
            LogLevel::Debug => "DEBUG",
            LogLevel::Info => "INFO",
            LogLevel::Warn => "WARN",
            LogLevel::Error => "ERROR",
            LogLevel::Fatal => "FATAL",
        }
    }
}

/// Upper-case name of a level.
pub open spec fn level_name(level: LogLevel) -> Seq<char> {
    match level {
        LogLevel::Debug => "DEBUG"@,
        LogLevel::Info => "INFO"@,
        LogLevel::Warn => "WARN"@,
        LogLevel::Error => "ERROR"@,
        LogLevel::Fatal => "FATAL"@,
    }
}

impl From<&LogLevel> for i32 {
    fn from(level: &LogLevel) -> (r: i32) {
        level.rank()
    }
}

impl vstd::std_specs::convert::FromSpecImpl<&LogLevel> for i32 {
    open spec fn obeys_from_spec() -> bool {
        true
    }

    open spec fn from_spec(level: &LogLevel) -> i32 {
        rank(*level) as i32
    }
}

/// Filter of a client: a message passes when its rank is at least the
/// rank of the client's threshold.
pub fn should_emit(level: LogLevel, threshold: LogLevel) -> (r: bool)
    ensures
        r == emits(level, threshold),
        r == (rank(level) >= rank(threshold)),
{
    i32::from(&level) >= i32::from(&threshold)
}

} // verus!

verus! {

/// One log event: who sent it, when, at which level, and its text.
pub enum LoggingMessage {
    Debug { from: String, when: Timestamp, msg: String },
    Info { from: String, when: Timestamp, msg: String },
    Warn { from: String, when: Timestamp, msg: String },
    Error { from: String, when: Timestamp, msg: String },
    Fatal { from: String, when: Timestamp, msg: String },
}

impl LoggingMessage {
    /// The level of the message.
    pub open spec fn spec_level(self) -> LogLevel {
        match self {
            LoggingMessage::Debug { .. } => LogLevel::Debug,
            LoggingMessage::Info { .. } => LogLevel::Info,
            LoggingMessage::Warn { .. } => LogLevel::Warn,
            LoggingMessage::Error { .. } => LogLevel::Error,
            LoggingMessage::Fatal { .. } => LogLevel::Fatal,
        }
    }

    /// The name of the client that sent the message.
    pub open spec fn source(self) -> Seq<char> {
        match self {
            LoggingMessage::Debug { from, .. } => from@,
            LoggingMessage::Info { from, .. } => from@,
            LoggingMessage::Warn { from, .. } => from@,
            LoggingMessage::Error { from, .. } => from@,
            LoggingMessage::Fatal { from, .. } => from@,
        }
    }

    /// The instant at which the message was stamped.
    pub open spec fn stamp(self) -> Timestamp {
        match self {
            LoggingMessage::Debug { when, .. } => when,
            LoggingMessage::Info { when, .. } => when,
            LoggingMessage::Warn { when, .. } => when,
            LoggingMessage::Error { when, .. } => when,
            LoggingMessage::Fatal { when, .. } => when,
        }
    }

    /// The text of the message.
    pub open spec fn text(self) -> Seq<char> {
        match self {
            LoggingMessage::Debug { msg, .. } => msg@,
            LoggingMessage::Info { msg, .. } => msg@,
            LoggingMessage::Warn { msg, .. } => msg@,
            LoggingMessage::Error { msg, .. } => msg@,
            LoggingMessage::Fatal { msg, .. } => msg@,
        }
    }

    /// A message of `level` from `from`, stamped `when`, with text `msg`.
    pub fn new(level: LogLevel, from: String, when: Timestamp, msg: String) -> (r: LoggingMessage)
        ensures
            r.spec_level() == level,
            r.source() == from@,
            r.stamp() == when,
            r.text() == msg@,
    {
        match level {
            LogLevel::Debug => LoggingMessage::Debug { from, when, msg },
            LogLevel::Info => LoggingMessage::Info { from, when, msg },
            LogLevel::Warn => LoggingMessage::Warn { from, when, msg },
            LogLevel::Error => LoggingMessage::Error { from, when, msg },
            LogLevel::Fatal => LoggingMessage::Fatal { from, when, msg },
        }
    }

    /// The level of the message.
    pub fn level(&self) -> (r: LogLevel)
        ensures
            r == self.spec_level(),
    {
        match self {
            LoggingMessage::Debug { .. } => LogLevel::Debug,
            LoggingMessage::Info { .. } => LogLevel::Info,
            LoggingMessage::Warn { .. } => LogLevel::Warn,
            LoggingMessage::Error { .. } => LogLevel::Error,
            LoggingMessage::Fatal { .. } => LogLevel::Fatal,
        }
    }

    /// The name of the client that sent the message.
    pub fn from(&self) -> (r: &String)
        ensures
            r@ == self.source(),
    {
        match self {
            LoggingMessage::Debug { from, .. } => from,
            LoggingMessage::Info { from, .. } => from,
            LoggingMessage::Warn { from, .. } => from,
            LoggingMessage::Error { from, .. } => from,
            LoggingMessage::Fatal { from, .. } => from,
        }
    }

    /// The instant at which the message was stamped.
    pub fn when(&self) -> (r: Timestamp)
        ensures
            r == self.stamp(),
    {
        match self {
            LoggingMessage::Debug { when, .. } => *when,
            LoggingMessage::Info { when, .. } => *when,
            LoggingMessage::Warn { when, .. } => *when,
            LoggingMessage::Error { when, .. } => *when,
            LoggingMessage::Fatal { when, .. } => *when,
        }
    }

    /// The text of the message.
    pub fn msg(&self) -> (r: &String)
        ensures
            r@ == self.text(),
    {
        match self {
            LoggingMessage::Debug { msg, .. } => msg,
            LoggingMessage::Info { msg, .. } => msg,
            LoggingMessage::Warn { msg, .. } => msg,
            LoggingMessage::Error { msg, .. } => msg,
            LoggingMessage::Fatal { msg, .. } => msg,
        }
    }
}

/// The producing end of a backend's message queue, shared by every client
/// of that backend.
#[derive(Clone)]
pub struct LoggingChannel {
    pub channel: crossbeam::channel::Sender<LoggingMessage>,
}

} // verus!
