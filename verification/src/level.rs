//! Severity levels and their order.

use vstd::prelude::*;

verus! {

/// The severity of an event or a span, most severe first.
#[derive(Clone, Copy, Debug, PartialEq, Eq, Structural)]
pub enum Level {
    Error,
    Warn,
    Info,
    Debug,
    Trace,
}

impl Level {
    /// The position of the level in the order
    /// `Error < Warn < Info < Debug < Trace`: a greater rank is less severe.
    pub open spec fn severity(self) -> nat {
        match self {
            Level::Error => 1,
            Level::Warn => 2,
            Level::Info => 3,
            Level::Debug => 4,
            Level::Trace => 5,
        }
    }

    /// The upper-case name under which the level appears in a console line.
    pub open spec fn label(self) -> Seq<char> {
        match self {
            Level::Error => "ERROR"@,
            Level::Warn => "WARN"@,
            Level::Info => "INFO"@,
            Level::Debug => "DEBUG"@,
            Level::Trace => "TRACE"@,
        }
    }

    /// `self` is at least as severe as `max`.
    pub open spec fn within(self, max: Level) -> bool {
        self.severity() <= max.severity()
    }

    /// The rank as a machine integer.
    pub fn rank(self) -> (r: u8)
        ensures
            r == self.severity(),
    {
        match self {
            Level::Error => 1,
            Level::Warn => 2,
            Level::Info => 3,
            Level::Debug => 4,
            Level::Trace => 5,
        }
    }

    /// The name as a string slice.
    pub fn name(self) -> (r: &'static str)
        ensures
            r@ == self.label(),
    {
        match self {
            Level::Error => "ERROR",
            Level::Warn => "WARN",
            Level::Info => "INFO",
            Level::Debug => "DEBUG",
            Level::Trace => "TRACE",
        }
    }

    /// Whether `self` passes a threshold of `max`.
    pub fn is_within(self, max: Level) -> (r: bool)
        ensures
            r == self.within(max),
    {
        self.rank() <= max.rank()
    }
}

} // verus!
