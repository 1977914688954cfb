use vstd::prelude::*;

use crate::format::{formatted, DefaultFormatter, Record, RecordFormatter};
use crate::level::Level;

verus! {

/// The host console's output channels.
#[derive(Clone, Copy, Debug, PartialEq, Eq, Structural)]
pub enum Channel {
    Error,
    Warn,
    Log,
}

/// The channel that a record of the given level is written to: errors and
/// warnings have their own, every other level goes to the plain log channel.
pub open spec fn channel_for(level: Level) -> Channel {
    match level {
        Level::Error => Channel::Error,
        Level::Warn => Channel::Warn,
        _ => Channel::Log,
    }
}

/// One write to the host console: the text and the channel it goes to.
pub struct Dispatch {
    pub channel: Channel,
    pub text: String,
}

/// A logger that filters records by a severity threshold, formats them and
/// routes them to the host console's channels.
///
/// It holds no mutable state: after construction it only reads its fields.
pub struct ConsoleLogger<F: RecordFormatter> {
    formatter: F,
    log_level: Level,
}

impl<F: RecordFormatter> ConsoleLogger<F> {
    /// The least severe level that the logger lets through.
    pub closed spec fn threshold(&self) -> Level {
        self.log_level
    }

    /// The formatter that renders the records.
    pub closed spec fn formatter(&self) -> F {
        self.formatter
    }

    /// Whether a record of `level` passes the threshold.
    pub open spec fn is_enabled(&self, level: Level) -> bool {
        level.rank() <= self.threshold().rank()
    }

    /// What `log` may return for `record`: nothing for a level below the
    /// threshold; otherwise one write, to the level's channel, of a text that
    /// the formatter produces for the record.
    pub open spec fn outcome(&self, record: &Record, d: Option<Dispatch>) -> bool {
        match d {
            None => !self.is_enabled(record.level),
            Some(w) => {
                &&& self.is_enabled(record.level)
                &&& w.channel == channel_for(record.level)
                &&& self.formatter().produces(record, w.text)
            },
        }
    }

    /// Constructs a logger that renders records with `formatter` and lets
    /// through those at least as severe as `log_level`.
    pub fn new(formatter: F, log_level: Level) -> (l: Self)
        ensures
            l.formatter() == formatter,
            l.threshold() == log_level,
    {
        ConsoleLogger { formatter, log_level }
    }

    /// Whether a record of `level` is at least as severe as the threshold.
    pub fn enabled(&self, level: Level) -> (r: bool)
        ensures
            r == self.is_enabled(level),
    {
        level.is_at_least_as_severe_as(self.log_level)
    }

    /// Decides what to write for `record`: `None` when its level is below
    /// the threshold (nothing is formatted then), else the formatted text
    /// and the channel it goes to.
    pub fn log(&self, record: &Record) -> (d: Option<Dispatch>)
        requires
            self.formatter().accepts(record),
        ensures
            self.outcome(record, d),
    {
        if self.enabled(record.level) {
            let text = self.formatter.format(record);
            let channel = match record.level {
                Level::Error => Channel::Error,
                Level::Warn => Channel::Warn,
                Level::Info | Level::Debug | Level::Trace => Channel::Log,
            };
            Some(Dispatch { channel, text })
        } else {
            None
        }
    }
}

impl ConsoleLogger<DefaultFormatter> {
    /// Constructs a logger with the default formatting that lets through the
    /// records at least as severe as `level`.
    pub fn with_level(level: Level) -> (l: Self)
        ensures
            l.threshold() == level,
    {
        ConsoleLogger::new(DefaultFormatter, level)
    }
}

impl Default for ConsoleLogger<DefaultFormatter> {
    /// The logger with the default formatting that lets every record through.
    fn default() -> (l: Self)
        ensures
            l.threshold() == Level::Trace,
            forall|level: Level| l.is_enabled(level),
    {
        ConsoleLogger::with_level(Level::Trace)
    }
}

/// A logger whose threshold is the least severe level lets every record
/// through.
pub proof fn trace_threshold_enables_every_level<F: RecordFormatter>(
    logger: ConsoleLogger<F>,
    level: Level,
)
    requires
        logger.threshold() == Level::Trace,
    ensures
        logger.is_enabled(level),
{
}

/// The threshold splits the levels in two: a level is let through exactly
/// when it is at least as severe as the threshold, so every level more
/// severe than one that is let through is let through too.
pub proof fn enabled_levels_are_closed_upward<F: RecordFormatter>(
    logger: ConsoleLogger<F>,
    level: Level,
    more_severe: Level,
)
    requires
        logger.is_enabled(level),
        more_severe.rank() <= level.rank(),
    ensures
        logger.is_enabled(more_severe),
{
}

/// Logging the same record twice gives two writes of the same kind: both
/// or neither happen, on the same channel, and, where the formatter gives
/// one text per record, with the same text. Nothing is merged or cached.
pub proof fn logging_twice_repeats_the_write<F: RecordFormatter>(
    logger: ConsoleLogger<F>,
    record: &Record,
    first: Option<Dispatch>,
    second: Option<Dispatch>,
)
    requires
        logger.outcome(record, first),
        logger.outcome(record, second),
    ensures
        first is Some <==> second is Some,
        first is Some ==> first->0.channel == second->0.channel,
        first is Some && (forall|a: String, b: String|
            logger.formatter().produces(record, a) && logger.formatter().produces(record, b)
                ==> a@ == b@) ==> first->0.text@ == second->0.text@,
{
}

/// With the default formatting, what is written for a record that passes
/// the threshold is exactly the default rendering of the record.
pub proof fn default_formatting_writes_formatted_text(
    logger: ConsoleLogger<DefaultFormatter>,
    record: &Record,
    d: Option<Dispatch>,
)
    requires
        logger.outcome(record, d),
        logger.is_enabled(record.level),
    ensures
        d is Some,
        d->0.text@ == formatted(record.level, record.message@),
{
}

/// The default formatting gives one text per record, so a logger that uses
/// it writes the same text each time it logs the same record.
pub proof fn default_formatting_repeats_the_text(
    logger: ConsoleLogger<DefaultFormatter>,
    record: &Record,
    first: Option<Dispatch>,
    second: Option<Dispatch>,
)
    requires
        logger.outcome(record, first),
        logger.outcome(record, second),
    ensures
        first is Some <==> second is Some,
        first is Some ==> first->0.channel == second->0.channel && first->0.text@
            == second->0.text@,
{
    logging_twice_repeats_the_write(logger, record, first, second);
}

} // verus!
