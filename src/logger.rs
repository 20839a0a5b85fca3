use vstd::prelude::*;
use crate::backend::LogBackend;
use crate::level::Level;
use crate::sink::{LogRecord, record_tail, ends_with};

verus! {

/// The one object registered with the logging facade. It keeps no state:
/// every record goes to whatever sink the backend holds at that moment, and
/// while none is attached a record is dropped without a word.
pub struct Logger {}

impl Logger {
    pub fn new() -> (r: Logger) {
        Logger {  }
    }

    /// The facade asks before formatting a record; the answer is always yes,
    /// so that the attached sink's level, which may change with each attach,
    /// does the filtering.
    pub fn enabled(&self, level: Level) -> (r: bool)
        ensures
            r,
    {
        true
    }

    /// The line that the backend's current sink is to write for `record`.
    pub fn log<H>(&self, backend: &LogBackend<H>, record: &LogRecord) -> (r: Option<String>)
        ensures
            r is Some <==> (backend.spec_sink() is Some && record.level.rank()
                <= backend.spec_sink()->Some_0.level.rank()),
            r matches Some(line) ==> ends_with(line@, record_tail(record)),
    {
        backend.log(record)
    }

    /// The handle that a flush goes to: the backend's current sink's, if any.
    pub fn flush<'a, H>(&self, backend: &'a LogBackend<H>) -> (r: Option<&'a H>)
        ensures
            r is Some <==> backend.spec_sink() is Some,
            r matches Some(h) ==> *h == backend.spec_sink()->Some_0.handle,
    {
        backend.flush()
    }
}

} // verus!
