//! Severity levels of log records and the threshold that admits them.

use vstd::prelude::*;

verus! {

/// The severity of a record, least severe first:
/// `Trace < Debug < Info < Warn < Error`.
#[derive(Clone, Copy, Debug, PartialEq, Eq, PartialOrd, Ord, Hash, Structural)]
pub enum Level {
    Trace,
    Debug,
    Info,
    Warn,
    Error,
}

/// The least severity that the logging facade lets through to the sink.
/// `Off` lets nothing through, `Trace` everything.
#[derive(Clone, Copy, Debug, PartialEq, Eq, Hash, Structural)]
pub enum LevelFilter {
    Off,
    Error,
    Warn,
    Info,
    Debug,
    Trace,
}

impl Level {
    /// The rank of a level in the severity order, `Trace` being 0.
    pub open spec fn rank(self) -> nat {
        match self {
            Level::Trace => 0,
            Level::Debug => 1,
            Level::Info => 2,
            Level::Warn => 3,
            Level::Error => 4,
        }
    }

    /// The upper-case name under which a level is printed.
    pub open spec fn name(self) -> Seq<char> {
        match self {
            Level::Trace => seq!['T', 'R', 'A', 'C', 'E'],
            Level::Debug => seq!['D', 'E', 'B', 'U', 'G'],
            Level::Info => seq!['I', 'N', 'F', 'O'],
            Level::Warn => seq!['W', 'A', 'R', 'N'],
            Level::Error => seq!['E', 'R', 'R', 'O', 'R'],
        }
    }

    /// The rank of this level in the severity order.
    pub fn severity(self) -> (r: u8)
        ensures
            r == self.rank(),
    {
        match self {
            Level::Trace => 0,
            Level::Debug => 1,
            Level::Info => 2,
            Level::Warn => 3,
            Level::Error => 4,
        }
    }

    /// The printed name of this level.
    pub fn label(self) -> (name: String)
        ensures
            name@ == self.name(),
    {
        level_name(self)
    }
}

impl LevelFilter {
    /// The number of levels that the threshold lets through.
    pub open spec fn width(self) -> nat {
        match self {
            LevelFilter::Off => 0,
            LevelFilter::Error => 1,
            LevelFilter::Warn => 2,
            LevelFilter::Info => 3,
            LevelFilter::Debug => 4,
            LevelFilter::Trace => 5,
        }
    }

    /// Whether a record of severity `level` passes the threshold: the
    /// `width` most severe levels do.
    pub open spec fn admits(self, level: Level) -> bool {
        level.rank() + self.width() >= 5
    }

    /// Whether a record of severity `level` passes this threshold.
    pub fn allows(self, level: Level) -> (b: bool)
        ensures
            b == self.admits(level),
    {
        let width: u8 = match self {
            LevelFilter::Off => 0,
            LevelFilter::Error => 1,
            LevelFilter::Warn => 2,
            LevelFilter::Info => 3,
            LevelFilter::Debug => 4,
            LevelFilter::Trace => 5,
        };
        level.severity() + width >= 5
    }
}

/// `log::Level::as_str` on the level of the same name: the name is that
/// variant's entry in the facade's table of level names, which is the spelling
/// that `Level::name` gives.
#[verifier::external_body]
fn level_name(level: Level) -> (name: String)
    ensures
        name@ == level.name(),
{
    let theirs = match level {
        Level::Trace => log::Level::Trace,
        Level::Debug => log::Level::Debug,
        Level::Info => log::Level::Info,
        Level::Warn => log::Level::Warn,
        Level::Error => log::Level::Error,
    };
    theirs.as_str().to_string()
}

} // verus!
