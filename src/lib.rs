//! Routes log records to a host console that offers three output channels
//! (`error`, `warn` and `log`).
//!
//! The library decides, for each record, whether it passes the logger's
//! severity threshold, renders it with the logger's formatter, and names the
//! channel that the text goes to. Writing the text to the console is left to
//! the host glue, which performs the returned [`Dispatch`].

pub mod format;
pub mod level;
pub mod logger;

pub use format::{format_message, DefaultFormatter, Record, RecordFormatter};
pub use level::Level;
pub use logger::{Channel, ConsoleLogger, Dispatch};
