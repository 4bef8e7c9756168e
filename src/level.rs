//! Severity levels and the filter that admits them.
use vstd::prelude::*;

verus! {

/// Importance of a record, from most to least severe.
#[derive(Clone, Copy, Debug, PartialEq, Eq, Structural, Hash)]
pub enum Level {
    Error,
    Warn,
    Info,
    Debug,
    Trace,
}

/// The most verbose level that is let through; `Off` lets nothing through.
#[derive(Clone, Copy, Debug, PartialEq, Eq, Structural, Hash)]
pub enum LevelFilter {
    Off,
    Error,
    Warn,
    Info,
    Debug,
    Trace,
}

impl Level {
    /// Position of the level in the order of verbosity: `Error` is 1,
    /// `Trace` is 5. A smaller rank is more severe.
    pub open spec fn rank(self) -> nat {
        match self {
            Level::Error => 1,
            Level::Warn => 2,
            Level::Info => 3,
            Level::Debug => 4,
            Level::Trace => 5,
        }
    }

    /// The canonical upper-case name of the level.
    pub open spec fn name(self) -> Seq<char> {
        match self {
            Level::Error => seq!['E', 'R', 'R', 'O', 'R'],
            Level::Warn => seq!['W', 'A', 'R', 'N'],
            Level::Info => seq!['I', 'N', 'F', 'O'],
            Level::Debug => seq!['D', 'E', 'B', 'U', 'G'],
            Level::Trace => seq!['T', 'R', 'A', 'C', 'E'],
        }
    }

    /// Whether `self` is at least as severe as `other`.
    pub fn at_least(self, other: Level) -> (r: bool)
        ensures
            r == (self.rank() <= other.rank()),
    {
        self.index() <= other.index()
    }

    fn index(self) -> (r: u8)
        ensures
            r as nat == self.rank(),
    {
        match self {
            Level::Error => 1,
            Level::Warn => 2,
            Level::Info => 3,
            Level::Debug => 4,
            Level::Trace => 5,
        }
    }

    /// The canonical upper-case name of the level, as the `log` crate
    /// renders it.
    pub fn as_str(self) -> (r: &'static str)
        ensures
            r@ == self.name(),
    {
        log_level_name(self)
    }
}

impl LevelFilter {
    /// Number of levels let through: 0 for `Off`, 5 for `Trace`.
    pub open spec fn rank(self) -> nat {
        match self {
            LevelFilter::Off => 0,
            LevelFilter::Error => 1,
            LevelFilter::Warn => 2,
            LevelFilter::Info => 3,
            LevelFilter::Debug => 4,
            LevelFilter::Trace => 5,
        }
    }

    /// Whether a record at `level` gets through this filter.
    pub open spec fn admits_spec(self, level: Level) -> bool {
        level.rank() <= self.rank()
    }

    /// Whether a record at `level` gets through this filter: its level is no
    /// more verbose than the filter.
    pub fn admits(self, level: Level) -> (r: bool)
        ensures
            r == self.admits_spec(level),
    {
        level.index() <= self.index()
    }

    fn index(self) -> (r: u8)
        ensures
            r as nat == self.rank(),
    {
        match self {
            LevelFilter::Off => 0,
            LevelFilter::Error => 1,
            LevelFilter::Warn => 2,
            LevelFilter::Info => 3,
            LevelFilter::Debug => 4,
            LevelFilter::Trace => 5,
        }
    }
}

/// Relies on `log::Level::as_str`: it returns the entry of the crate's table
/// `["OFF", "ERROR", "WARN", "INFO", "DEBUG", "TRACE"]` at the level's
/// discriminant (`Error` is 1 through `Trace` is 5).
#[verifier::external_body]
fn log_level_name(l: Level) -> (r: &'static str)
    ensures
        r@ == l.name(),
{
    let level = match l {
        Level::Error => log::Level::Error,
        Level::Warn => log::Level::Warn,
        Level::Info => log::Level::Info,
        Level::Debug => log::Level::Debug,
        Level::Trace => log::Level::Trace,
    };
    level.as_str()
}

} // verus!
