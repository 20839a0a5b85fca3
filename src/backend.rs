use vstd::prelude::*;
use vstd::utf8::{valid_utf8, decode_utf8, encode_utf8_decode_utf8};
use vstd::string::StringExecFns;
use vstd::string::StringSliceAdditionalSpecFns;
use crate::level::Level;
use crate::registration::{
    RegistrationState, SetupStep, SetupEvent, attempt, step, state_after_registration,
};
use crate::sink::{LogRecord, RawLogger, line_tail, record_tail, ends_with, contains, lemma_line_holds_message};
use crate::status::LoggerStatus;

verus! {

/// The module path that records logged through [`LogBackend::log_direct`] carry.
pub const DIRECT_MODULE: &'static str = "ccommon_rs::backend";

/// Relies on std::str::from_utf8: `Some` exactly for valid UTF-8, and then a
/// string made of those very bytes.
#[verifier::external_body]
fn utf8_str(b: &[u8]) -> (r: Option<&str>)
    ensures
        r is Some <==> valid_utf8(b@),
        r matches Some(s) ==> s.spec_bytes() == b@,
{
    std::str::from_utf8(b).ok()
}

/// Relies on log::set_max_level: sets the facade's own global threshold.
#[verifier::external_body]
fn set_facade_max_level(level: Level) {
    log::set_max_level(
        match level {
            Level::Error => log::LevelFilter::Error,
            Level::Warn => log::LevelFilter::Warn,
            Level::Info => log::LevelFilter::Info,
            Level::Debug => log::LevelFilter::Debug,
            Level::Trace => log::LevelFilter::Trace,
        },
    )
}

/// The logging backend: the registration state, the slot holding at most one
/// attached sink, and the facade's threshold (`None` while the facade lets
/// nothing through).
///
/// One value serves the whole process; callers share it behind a single lock,
/// which makes every operation on it atomic with respect to the others.
pub struct LogBackend<H> {
    state: RegistrationState,
    sink: Option<RawLogger<H>>,
    max_level: Option<Level>,
}

/// Whether the facade's threshold lets a record at `level` through.
pub open spec fn facade_allows(max_level: Option<Level>, level: Level) -> bool {
    match max_level {
        Some(m) => level.rank() <= m.rank(),
        None => false,
    }
}

/// What attaching `handle` at `level` does to the slot `sink` in registration
/// state `state`: the new slot and the status.
pub open spec fn attach_spec<H>(
    state: RegistrationState,
    sink: Option<RawLogger<H>>,
    handle: H,
    level: Level,
) -> (Option<RawLogger<H>>, LoggerStatus) {
    if !(state is Initialized) {
        (sink, LoggerStatus::LoggerNotSetupError)
    } else if sink is Some {
        (sink, LoggerStatus::LoggerAlreadySetError)
    } else {
        (Some(RawLogger { handle, level }), LoggerStatus::OK)
    }
}

/// What detaching hands back from the slot `sink`; the slot is empty after.
pub open spec fn detach_spec<H>(sink: Option<RawLogger<H>>) -> Option<H> {
    match sink {
        Some(s) => Some(s.handle),
        None => None,
    }
}

impl<H> LogBackend<H> {
    pub closed spec fn spec_state(&self) -> RegistrationState {
        self.state
    }

    pub closed spec fn spec_sink(&self) -> Option<RawLogger<H>> {
        self.sink
    }

    pub closed spec fn spec_max_level(&self) -> Option<Level> {
        self.max_level
    }

    /// A sink is attached only once setup has succeeded.
    pub closed spec fn wf(&self) -> bool {
        self.sink is Some ==> self.state is Initialized
    }

    /// A backend that is not set up, with no sink, behind a facade that lets
    /// nothing through.
    pub fn new() -> (r: Self)
        ensures
            r.wf(),
            r.spec_state() is Uninitialized,
            r.spec_sink() is None,
            r.spec_max_level() is None,
    {
        LogBackend { state: RegistrationState::Uninitialized, sink: None, max_level: None }
    }

    /// The registration state.
    pub fn get_state(&self) -> (r: RegistrationState)
        ensures
            r == self.spec_state(),
    {
        self.state
    }

    /// Whether setup has succeeded.
    pub fn is_setup(&self) -> (r: bool)
        ensures
            r == (self.spec_state() is Initialized),
    {
        self.state.is_setup()
    }

    /// A setup attempt (see [`RegistrationState::setup_step`]); the sink and
    /// the threshold stay as they are.
    pub fn setup_step(&mut self) -> (r: SetupStep)
        requires
            old(self).wf(),
        ensures
            final(self).wf(),
            (final(self).spec_state(), r) == attempt(old(self).spec_state()),
            (final(self).spec_state(), r) == step(old(self).spec_state(), SetupEvent::Attempt),
            final(self).spec_sink() == old(self).spec_sink(),
            final(self).spec_max_level() == old(self).spec_max_level(),
    {
        self.state.setup_step()
    }

    /// Records the outcome of the registration call made after
    /// [`SetupStep::Register`]. On success the facade's threshold opens to
    /// `Trace`; a failure is final.
    pub fn finish_setup(&mut self, registered: bool) -> (r: LoggerStatus)
        requires
            old(self).wf(),
            old(self).spec_state() is Initializing,
        ensures
            final(self).wf(),
            final(self).spec_state() == state_after_registration(registered),
            r == (if registered { LoggerStatus::OK } else { LoggerStatus::RegistrationFailure }),
            (final(self).spec_state(), SetupStep::Done(r)) == step(
                old(self).spec_state(),
                SetupEvent::Complete(registered),
            ),
            final(self).spec_sink() == old(self).spec_sink(),
            final(self).spec_max_level() == (if registered {
                Some(Level::Trace)
            } else {
                old(self).spec_max_level()
            }),
    {
        let r = self.state.complete(registered);
        if registered {
            self.set_max_level(Level::Trace);
        }
        r
    }

    /// Attaches a sink that forwards records at `level` and more severe.
    /// Refused, with nothing changed, before setup has succeeded and while
    /// another sink is attached.
    pub fn attach(&mut self, handle: H, level: Level) -> (r: LoggerStatus)
        requires
            old(self).wf(),
        ensures
            final(self).wf(),
            (final(self).spec_sink(), r) == attach_spec(
                old(self).spec_state(),
                old(self).spec_sink(),
                handle,
                level,
            ),
            r != LoggerStatus::OK ==> *final(self) == *old(self),
            final(self).spec_state() == old(self).spec_state(),
            final(self).spec_max_level() == old(self).spec_max_level(),
    {
        if !self.state.is_setup() {
            LoggerStatus::LoggerNotSetupError
        } else if self.sink.is_some() {
            LoggerStatus::LoggerAlreadySetError
        } else {
            self.sink = Some(RawLogger::new(handle, level));
            LoggerStatus::OK
        }
    }

    /// Empties the slot and hands back the handle that was attached, if any.
    pub fn detach(&mut self) -> (r: Option<H>)
        requires
            old(self).wf(),
        ensures
            final(self).wf(),
            final(self).spec_sink() is None,
            r == detach_spec(old(self).spec_sink()),
            final(self).spec_state() == old(self).spec_state(),
            final(self).spec_max_level() == old(self).spec_max_level(),
    {
        match self.sink.take() {
            Some(s) => Some(s.handle),
            None => None,
        }
    }

    /// The attached sink, if any.
    pub fn current(&self) -> (r: Option<&RawLogger<H>>)
        ensures
            r is Some <==> self.spec_sink() is Some,
            r matches Some(s) ==> *s == self.spec_sink()->Some_0,
    {
        self.sink.as_ref()
    }

    /// The handle that a flush goes to: the attached sink's, if any.
    pub fn flush(&self) -> (r: Option<&H>)
        ensures
            r is Some <==> self.spec_sink() is Some,
            r matches Some(h) ==> *h == self.spec_sink()->Some_0.handle,
    {
        match &self.sink {
            Some(s) => Some(s.inner()),
            None => None,
        }
    }

    /// The line that the attached sink is to write for `record`: none while
    /// no sink is attached or where the record is below the sink's level.
    pub fn log(&self, record: &LogRecord) -> (r: Option<String>)
        ensures
            r is Some <==> (self.spec_sink() is Some && record.level.rank()
                <= self.spec_sink()->Some_0.level.rank()),
            r matches Some(line) ==> ends_with(line@, record_tail(record)),
    {
        match &self.sink {
            Some(s) => s.log(record),
            None => None,
        }
    }

    /// Sets the facade's threshold; later records above it are not logged.
    pub fn set_max_level(&mut self, level: Level)
        requires
            old(self).wf(),
        ensures
            final(self).wf(),
            final(self).spec_max_level() == Some(level),
            final(self).spec_state() == old(self).spec_state(),
            final(self).spec_sink() == old(self).spec_sink(),
    {
        set_facade_max_level(level);
        self.max_level = Some(level);
    }

    /// Logs `msg` at `level` through the facade path: the line that the
    /// attached sink is to write, after which the caller flushes the sink.
    /// `InvalidUTF8`, with nothing logged, where `msg` is not valid UTF-8.
    pub fn log_direct(&self, msg: &[u8], level: Level) -> (r: Result<Option<String>, LoggerStatus>)
        ensures
            !valid_utf8(msg@) <==> r == Err::<Option<String>, LoggerStatus>(
                LoggerStatus::InvalidUTF8,
            ),
            valid_utf8(msg@) ==> r is Ok,
            r is Err ==> r == Err::<Option<String>, LoggerStatus>(LoggerStatus::InvalidUTF8),
            r matches Ok(line) ==> (line is Some <==> (facade_allows(self.spec_max_level(), level)
                && self.spec_sink() is Some && level.rank()
                <= self.spec_sink()->Some_0.level.rank())),
            r matches Ok(Some(line)) ==> ends_with(
                line@,
                line_tail(level, DIRECT_MODULE@, decode_utf8(msg@)),
            ),
            r matches Ok(Some(line)) ==> contains(line@, decode_utf8(msg@)),
    {
        match utf8_str(msg) {
            None => Err(LoggerStatus::InvalidUTF8),
            Some(text) => {
                proof {
                    encode_utf8_decode_utf8(text@);
                }
                let allowed = match self.max_level {
                    Some(m) => level.passes(m),
                    None => false,
                };
                if allowed {
                    let record = LogRecord {
                        level,
                        module_name: Some(String::from_str(DIRECT_MODULE)),
                        message: String::from_str(text),
                    };
                    let line = self.log(&record);
                    proof {
                        if line is Some {
                            lemma_line_holds_message(
                                line->Some_0@,
                                level,
                                DIRECT_MODULE@,
                                text@,
                            );
                        }
                    }
                    Ok(line)
                } else {
                    Ok(None)
                }
            },
        }
    }
}

/// Attaching before setup has succeeded is refused with `LoggerNotSetupError`
/// and leaves the slot as it was.
pub proof fn lemma_attach_before_setup<H>(
    state: RegistrationState,
    sink: Option<RawLogger<H>>,
    handle: H,
    level: Level,
)
    requires
        !(state is Initialized),
    ensures
        attach_spec(state, sink, handle, level) == (sink, LoggerStatus::LoggerNotSetupError),
{
}

/// After a successful attach, a second attach with no detach between is
/// refused with `LoggerAlreadySetError`, and the first sink stays attached.
pub proof fn lemma_second_attach_refused<H>(
    state: RegistrationState,
    sink: Option<RawLogger<H>>,
    first: H,
    first_level: Level,
    second: H,
    second_level: Level,
)
    requires
        attach_spec(state, sink, first, first_level).1 == LoggerStatus::OK,
    ensures
        ({
            let after_first = attach_spec(state, sink, first, first_level).0;
            &&& after_first == Some(RawLogger { handle: first, level: first_level })
            &&& attach_spec(state, after_first, second, second_level) == (
                after_first,
                LoggerStatus::LoggerAlreadySetError,
            )
        }),
{
}

/// Detaching after a successful attach of `handle` hands back exactly
/// `handle`; detaching again, with nothing attached, hands back nothing.
pub proof fn lemma_detach_returns_attached<H>(
    state: RegistrationState,
    sink: Option<RawLogger<H>>,
    handle: H,
    level: Level,
)
    requires
        attach_spec(state, sink, handle, level).1 == LoggerStatus::OK,
    ensures
        detach_spec(attach_spec(state, sink, handle, level).0) == Some(handle),
        detach_spec::<H>(None) == None::<H>,
{
}

/// Of two sinks offered one after the other with no detach between, the
/// first is attached, the second refused, and a detach hands back the first.
pub proof fn lemma_first_sink_kept<H>(
    state: RegistrationState,
    sink: Option<RawLogger<H>>,
    first: H,
    first_level: Level,
    second: H,
    second_level: Level,
)
    requires
        attach_spec(state, sink, first, first_level).1 == LoggerStatus::OK,
    ensures
        ({
            let (after_first, _) = attach_spec(state, sink, first, first_level);
            let (after_second, r) = attach_spec(state, after_first, second, second_level);
            &&& r == LoggerStatus::LoggerAlreadySetError
            &&& detach_spec(after_second) == Some(first)
        }),
{
}

} // verus!
