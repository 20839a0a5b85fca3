//! A process-wide logging backend: a one-shot registration state machine,
//! a slot holding at most one attached byte sink, and the formatting and
//! filtering that turn a record into the line handed to that sink.
//!
//! The library decides; the embedding code acts. It makes the one
//! registration call with the logging facade when told to, performs the
//! writes and flushes on the sink handles it is handed back, and shares the
//! one [`LogBackend`] of the process behind a single lock.

pub mod level;
pub mod sink;
pub mod status;
pub mod registration;
pub mod backend;
pub mod logger;
pub mod error;
pub mod metric;
pub mod bstring;
pub mod options;

pub use level::Level;
pub use sink::{LogRecord, RawLogger, format_line, timestamp_now, TIMESTAMP_FORMAT};
pub use status::{LoggerStatus, LoggingError};
pub use registration::{RegistrationState, SetupStep};
pub use backend::{LogBackend, DIRECT_MODULE};
pub use logger::Logger;
pub use error::Error;
pub use metric::metric_anon_union;
pub use bstring::{BString, BStringStr, BStringRef, BStringRefMut};
pub use options::{
    Sealed, Options, OutOfMemoryError, OptionValue, option, option_default,
    option_load_default, Bool, UInt, Str,
};
