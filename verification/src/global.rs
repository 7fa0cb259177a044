//! Settings that belong to no document and no tool.

use vstd::prelude::*;
use crate::communication::message::GlobalMessage;

verus! {

/// How much the editor logs.
#[derive(Clone, Copy, Debug, PartialEq, Eq, Hash, Structural)]
pub enum LogLevel {
    Info,
    Debug,
    Trace,
}

/// The settings of the editor as a whole.
#[derive(Clone, Copy, Debug, PartialEq, Eq, Structural)]
pub struct GlobalMessageHandler {
    pub log_level: LogLevel,
}

/// The log level that `message` asks for.
pub open spec fn requested_level(message: GlobalMessage) -> LogLevel {
    match message {
        GlobalMessage::LogDebug => LogLevel::Debug,
        GlobalMessage::LogInfo => LogLevel::Info,
        GlobalMessage::LogTrace => LogLevel::Trace,
    }
}

impl GlobalMessageHandler {
    /// The settings at start-up: logging at the info level.
    pub fn new() -> (handler: GlobalMessageHandler)
        ensures
            handler.log_level == LogLevel::Info,
    {
        GlobalMessageHandler { log_level: LogLevel::Info }
    }

    /// Sets the log level that `message` asks for.
    pub fn process_action(&mut self, message: GlobalMessage)
        ensures
            final(self).log_level == requested_level(message),
    {
        self.log_level = match message {
            GlobalMessage::LogDebug => LogLevel::Debug,
            GlobalMessage::LogInfo => LogLevel::Info,
            GlobalMessage::LogTrace => LogLevel::Trace,
        };
    }
}

} // verus!
