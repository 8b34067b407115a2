//! Severity levels and the rule that gates output by them.

use vstd::prelude::*;

verus! {

/// Severity of a message, from the most verbose to the one that silences
/// everything.
#[derive(Debug, Clone, Copy, PartialEq, Eq, Structural, PartialOrd, Ord)]
pub enum Level {
    Trace,
    Debug,
    Message,
    Info,
    Warning,
    Error,
    Silent,
}

impl Level {
    /// Position of the level in the order
    /// `Trace < Debug < Message < Info < Warning < Error < Silent`.
    pub open spec fn spec_rank(self) -> nat {
        match self {
            Level::Trace => 0,
            Level::Debug => 1,
            Level::Message => 2,
            Level::Info => 3,
            Level::Warning => 4,
            Level::Error => 5,
            Level::Silent => 6,
        }
    }

    /// The name under which the level shows in a log line.
    pub open spec fn spec_name(self) -> Seq<char> {
        match self {
            Level::Trace => "Trace"@,
            Level::Debug => "Debug"@,
            Level::Message => "Message"@,
            Level::Info => "Info"@,
            Level::Warning => "Warning"@,
            Level::Error => "Error"@,
            Level::Silent => "Silent"@,
        }
    }

    /// Whether a sink whose threshold is `self` lets a message of severity
    /// `message` through: the threshold is not above the message.
    pub open spec fn spec_admits(self, message: Level) -> bool {
        self.spec_rank() <= message.spec_rank()
    }

    /// Position of the level in the severity order.
    pub fn rank(self) -> (rank: u8)
        ensures
            rank == self.spec_rank(),
    {
        match self {
            Level::Trace => 0,
            Level::Debug => 1,
            Level::Message => 2,
            Level::Info => 3,
            Level::Warning => 4,
            Level::Error => 5,
            Level::Silent => 6,
        }
    }

    /// Whether a sink whose threshold is `self` lets a message of severity
    /// `message` through.
    pub fn admits(self, message: Level) -> (admitted: bool)
        ensures
            admitted == self.spec_admits(message),
    {
        self.rank() <= message.rank()
    }

    /// The name under which the level shows in a log line.
    pub fn to_string(&self) -> (name: String)
        ensures
            name@ == self.spec_name(),
    {
        match self {
            Level::Trace => "Trace".to_owned(),
            Level::Debug => "Debug".to_owned(),
            Level::Message => "Message".to_owned(),
            Level::Info => "Info".to_owned(),
            Level::Warning => "Warning".to_owned(),
            Level::Error => "Error".to_owned(),
            Level::Silent => "Silent".to_owned(),
        }
    }
}

} // verus!
