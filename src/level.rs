use vstd::prelude::*;

verus! {

/// Severity of a log record, from the most severe (`Error`) to the least
/// severe (`Trace`).
#[derive(Clone, Copy, Debug, PartialEq, Eq, Structural)]
pub enum Level {
    Error,
    Warn,
    Info,
    Debug,
    Trace,
}

impl Level {
    /// Position in the order of severity: 0 for the most severe level.
    pub open spec fn rank(self) -> nat {
        match self {
            Level::Error => 0,
            Level::Warn => 1,
            Level::Info => 2,
            Level::Debug => 3,
            Level::Trace => 4,
        }
    }

    /// The canonical upper-case name of the level.
    pub open spec fn name(self) -> Seq<char> {
        match self {
            Level::Error => seq!['E', 'R', 'R', 'O', 'R'],
            Level::Warn => seq!['W', 'A', 'R', 'N'],
            Level::Info => seq!['I', 'N', 'F', 'O'],
            Level::Debug => seq!['D', 'E', 'B', 'U', 'G'],
            Level::Trace => seq!['T', 'R', 'A', 'C', 'E'],
        }
    }

    fn rank_of(self) -> (r: u8)
        ensures
            r as nat == self.rank(),
    {
        match self {
            Level::Error => 0,
            Level::Warn => 1,
            Level::Info => 2,
            Level::Debug => 3,
            Level::Trace => 4,
        }
    }

    /// Whether `self` is at least as severe as `other`.
    pub fn is_at_least_as_severe_as(self, other: Level) -> (r: bool)
        ensures
            r == (self.rank() <= other.rank()),
    {
        self.rank_of() <= other.rank_of()
    }

    /// The canonical upper-case name of the level, as `log` spells it.
    pub fn as_str(self) -> (r: &'static str)
        ensures
            r@ == self.name(),
    {
        level_name(self)
    }
}

/// Relies on `log::Level::as_str`: it returns the entry of `LOG_LEVEL_NAMES`
/// ("ERROR", "WARN", "INFO", "DEBUG", "TRACE") for the level.
#[verifier::external_body]
fn level_name(level: Level) -> (r: &'static str)
    ensures
        r@ == level.name(),
{
    let l = match level {
        Level::Error => log::Level::Error,
        Level::Warn => log::Level::Warn,
        Level::Info => log::Level::Info,
        Level::Debug => log::Level::Debug,
        Level::Trace => log::Level::Trace,
    };
    l.as_str()
}

} // verus!
