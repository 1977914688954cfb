use vstd::prelude::*;
use vstd::string::*;

use crate::level::Level;

verus! {

/// One log event: its severity and its message, already rendered to text.
pub struct Record {
    pub level: Level,
    pub message: String,
}

/// Whether the default formatting tags a record of this level with the
/// level's name.
pub open spec fn is_tagged(level: Level) -> bool {
    level == Level::Error || level == Level::Warn || level == Level::Debug
}

/// The text that the default formatting gives a record: `"<LEVEL>: <message>"`
/// for the tagged levels, the bare message for the others.
pub open spec fn formatted(level: Level, message: Seq<char>) -> Seq<char> {
    if is_tagged(level) {
        level.name() + seq![':', ' '] + message
    } else {
        message
    }
}

/// Formats a record with the default layout.
pub fn format_message(record: &Record) -> (text: String)
    ensures
        text@ == formatted(record.level, record.message@),
{
    let tagged = match record.level {
        Level::Error | Level::Warn | Level::Debug => true,
        Level::Info | Level::Trace => false,
    };
    if tagged {
        let mut text = String::from_str(record.level.as_str());
        text.append(": ");
        text.append(record.message.as_str());
        proof {
            reveal_strlit(": ");
        }
        text
    } else {
        record.message.clone()
    }
}

/// Turns a record into display text.
///
/// `accepts` says on which records `format` may be called, `produces` which
/// texts it may return for a record.
pub trait RecordFormatter {
    spec fn accepts(&self, record: &Record) -> bool;

    spec fn produces(&self, record: &Record, text: String) -> bool;

    fn format(&self, record: &Record) -> (text: String)
        requires
            self.accepts(record),
        ensures
            self.produces(record, text),
    ;
}

/// Any closure from a record to a string is a formatter, with the closure's
/// own precondition and postcondition.
impl<T: Fn(&Record) -> String> RecordFormatter for T {
    open spec fn accepts(&self, record: &Record) -> bool {
        call_requires(*self, (record,))
    }

    open spec fn produces(&self, record: &Record, text: String) -> bool {
        call_ensures(*self, (record,), text)
    }

    fn format(&self, record: &Record) -> (text: String) {
        (self)(record)
    }
}

/// The formatter that [`format_message`] describes.
#[derive(Clone, Copy, Debug)]
pub struct DefaultFormatter;

impl RecordFormatter for DefaultFormatter {
    open spec fn accepts(&self, record: &Record) -> bool {
        true
    }

    open spec fn produces(&self, record: &Record, text: String) -> bool {
        text@ == formatted(record.level, record.message@)
    }

    fn format(&self, record: &Record) -> (text: String) {
        format_message(record)
    }
}

} // verus!
