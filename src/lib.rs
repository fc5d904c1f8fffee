//! Multi-producer, single-consumer logging.
//!
//! Clients (`Logger`) stamp, filter and enqueue messages on a shared
//! channel; one backend worker drains that channel, formats each message
//! into a line and hands the line to every configured sink.

pub mod backend;
pub mod clock;
pub mod queue;
pub mod types;

pub use backend::Backend;
pub use clock::Timestamp;
pub use types::{LogLevel, LoggingChannel, LoggingMessage};

use crate::queue::send_value;
use crate::types::{emits, should_emit};
use vstd::prelude::*;

verus! {

/// Why a client could not submit a message.
#[derive(Clone, Copy, Debug, PartialEq, Eq, Structural)]
pub enum LogError {
    /// The backend's worker is gone and nothing drains the queue.
    Disconnected,
}

/// A client: submits messages under its name to a backend, keeping only
/// those at or above its threshold level.
pub struct Logger {
    name: String,
    loglevel: LogLevel,
    log: LoggingChannel,
}

impl Logger {
    /// The name stamped on the client's messages.
    pub closed spec fn spec_name(self) -> Seq<char> {
        self.name@
    }

    /// The least level that the client submits.
    pub closed spec fn threshold(self) -> LogLevel {
        self.loglevel
    }

    /// A client named `name` with threshold `loglevel`, submitting to the
    /// backend behind `logging_channel`.
    pub fn new(name: String, loglevel: LogLevel, logging_channel: &LoggingChannel) -> (r: Logger)
        ensures
            r.spec_name() == name@,
            r.threshold() == loglevel,
    {
        Logger { name, loglevel, log: logging_channel.clone() }
    }

    /// The message that the client submits for `text` at `level`, stamped
    /// `when`: none where the level is below the client's threshold.
    pub fn message(&self, level: LogLevel, text: &str, when: Timestamp) -> (r: Option<
        LoggingMessage,
    >)
        ensures
            r is Some <==> emits(level, self.threshold()),
            r is Some ==> r.unwrap().spec_level() == level && r.unwrap().source() == self.spec_name()
                && r.unwrap().stamp() == when && r.unwrap().text() == text@,
    {
        if should_emit(level, self.loglevel) {
            Some(LoggingMessage::new(level, self.name.clone(), when, text.to_owned()))
        } else {
            None
        }
    }

    /// Stamps `text` with the current time and submits it at `level`, where
    /// the level passes the client's threshold.
    pub fn log(&self, level: LogLevel, text: &str) -> (r: Result<(), LogError>)
        ensures
            !emits(level, self.threshold()) ==> r is Ok,
            r is Err ==> r == Err::<(), LogError>(LogError::Disconnected),
    {
        match self.message(level, text, Timestamp::now()) {
            Some(m) => match send_value(&self.log.channel, m) {
                Ok(()) => Ok(()),
                Err(_) => Err(LogError::Disconnected),
            },
            None => Ok(()),
        }
    }

    /// Submits `msg` at level `Debug`.
    pub fn debug(&self, msg: &str) -> (r: Result<(), LogError>)
        ensures
            !emits(LogLevel::Debug, self.threshold()) ==> r is Ok,
            r is Err ==> r == Err::<(), LogError>(LogError::Disconnected),
    {
        self.log(LogLevel::Debug, msg)
    }

    /// Submits `msg` at level `Info`.
    pub fn info(&self, msg: &str) -> (r: Result<(), LogError>)
        ensures
            !emits(LogLevel::Info, self.threshold()) ==> r is Ok,
            r is Err ==> r == Err::<(), LogError>(LogError::Disconnected),
    {
        self.log(LogLevel::Info, msg)
    }

    /// Submits `msg` at level `Warn`.
    pub fn warn(&self, msg: &str) -> (r: Result<(), LogError>)
        ensures
            !emits(LogLevel::Warn, self.threshold()) ==> r is Ok,
            r is Err ==> r == Err::<(), LogError>(LogError::Disconnected),
    {
        self.log(LogLevel::Warn, msg)
    }

    /// Submits `msg` at level `Error`.
    pub fn error(&self, msg: &str) -> (r: Result<(), LogError>)
        ensures
            !emits(LogLevel::Error, self.threshold()) ==> r is Ok,
            r is Err ==> r == Err::<(), LogError>(LogError::Disconnected),
    {
        self.log(LogLevel::Error, msg)
    }

    /// Submits `msg` at level `Fatal`.
    pub fn fatal(&self, msg: &str) -> (r: Result<(), LogError>)
        ensures
            !emits(LogLevel::Fatal, self.threshold()) ==> r is Ok,
            r is Err ==> r == Err::<(), LogError>(LogError::Disconnected),
    {
        self.log(LogLevel::Fatal, msg)
    }
}

} // verus!
