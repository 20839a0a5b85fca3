use vstd::prelude::*;

verus! {

/// Status codes handed back to callers of the entry points, foreign ones
/// included.
#[derive(Clone, Copy, Debug, PartialEq, Eq, Structural)]
pub enum LoggerStatus {
    OK,
    LoggerNotSetupError,
    RegistrationFailure,
    LoggerAlreadySetError,
    InvalidUTF8,
}

impl LoggerStatus {
    /// The stable numeric code of the status.
    pub open spec fn spec_code(self) -> u32 {
        match self {
            LoggerStatus::OK => 0,
            LoggerStatus::LoggerNotSetupError => 1,
            LoggerStatus::RegistrationFailure => 2,
            LoggerStatus::LoggerAlreadySetError => 3,
            LoggerStatus::InvalidUTF8 => 4,
        }
    }

    /// The stable numeric code of the status, as foreign callers read it.
    pub fn code(&self) -> (r: u32)
        ensures
            r == self.spec_code(),
    {
        match self {
            LoggerStatus::OK => 0,
            LoggerStatus::LoggerNotSetupError => 1,
            LoggerStatus::RegistrationFailure => 2,
            LoggerStatus::LoggerAlreadySetError => 3,
            LoggerStatus::InvalidUTF8 => 4,
        }
    }
}

/// Why setting up the backend did not succeed.
#[derive(Clone, Copy, Debug, PartialEq, Eq, Structural)]
pub enum LoggingError {
    /// Another caller is registering the backend, or it already is registered.
    LoggingAlreadySetUp,
    /// The facade already holds another logger; this never changes.
    LoggerRegistrationFailure,
}

/// The status reported for an error.
pub open spec fn status_of_error(e: LoggingError) -> LoggerStatus {
    match e {
        LoggingError::LoggerRegistrationFailure => LoggerStatus::RegistrationFailure,
        LoggingError::LoggingAlreadySetUp => LoggerStatus::LoggerAlreadySetError,
    }
}

impl From<LoggingError> for LoggerStatus {
    fn from(e: LoggingError) -> (r: LoggerStatus) {
        match e {
            LoggingError::LoggerRegistrationFailure => LoggerStatus::RegistrationFailure,
            LoggingError::LoggingAlreadySetUp => LoggerStatus::LoggerAlreadySetError,
        }
    }
}

impl vstd::std_specs::convert::FromSpecImpl<LoggingError> for LoggerStatus {
    open spec fn obeys_from_spec() -> bool {
        true
    }

    open spec fn from_spec(e: LoggingError) -> LoggerStatus {
        status_of_error(e)
    }
}

} // verus!
