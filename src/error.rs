use vstd::prelude::*;

verus! {

/// Error codes returned by the C library's functions.
#[derive(Clone, Copy, Debug, PartialEq, Eq, Structural)]
pub enum Error {
    Generic,
    EAgain,
    ERetry,
    ENoMem,
    EEmpty,
    ERdHup,
    EInval,
    EOther,
}

/// The error that a C status code stands for; any code it does not name is
/// `EOther`.
pub open spec fn error_of_code(val: i32) -> Error {
    if val == -1 {
        Error::Generic
    } else if val == -2 {
        Error::EAgain
    } else if val == -3 {
        Error::ERetry
    } else if val == -4 {
        Error::ENoMem
    } else if val == -5 {
        Error::EEmpty
    } else if val == -6 {
        Error::ERdHup
    } else if val == -7 {
        Error::EInval
    } else {
        Error::EOther
    }
}

impl Error {
    /// The C status code of the error.
    pub open spec fn spec_code(self) -> int {
        match self {
            Error::Generic => -1,
            Error::EAgain => -2,
            Error::ERetry => -3,
            Error::ENoMem => -4,
            Error::EEmpty => -5,
            Error::ERdHup => -6,
            Error::EInval => -7,
            Error::EOther => -8,
        }
    }

    /// The C status code of the error.
    pub fn code(&self) -> (r: i32)
        ensures
            r == self.spec_code(),
            error_of_code(r) == *self,
    {
        match self {
            Error::Generic => -1,
            Error::EAgain => -2,
            Error::ERetry => -3,
            Error::ENoMem => -4,
            Error::EEmpty => -5,
            Error::ERdHup => -6,
            Error::EInval => -7,
            Error::EOther => -8,
        }
    }

    /// The short name under which the error is printed.
    pub fn as_str(&self) -> (r: &'static str)
        ensures
            r@ == self.spec_name(),
    {
        proof {
            reveal_strlit("Generic Error");
            reveal_strlit("EAGAIN");
            reveal_strlit("ERETRY");
            reveal_strlit("ENOMEM");
            reveal_strlit("EEMPTY");
            reveal_strlit("ERDHUP");
            reveal_strlit("EINVAL");
            reveal_strlit("EOTHER");
        }
        match self {
            Error::Generic => "Generic Error",
            Error::EAgain => "EAGAIN",
            Error::ERetry => "ERETRY",
            Error::ENoMem => "ENOMEM",
            Error::EEmpty => "EEMPTY",
            Error::ERdHup => "ERDHUP",
            Error::EInval => "EINVAL",
            Error::EOther => "EOTHER",
        }
    }

    pub open spec fn spec_name(self) -> Seq<char> {
        match self {
            Error::Generic => "Generic Error"@,
            Error::EAgain => "EAGAIN"@,
            Error::ERetry => "ERETRY"@,
            Error::ENoMem => "ENOMEM"@,
            Error::EEmpty => "EEMPTY"@,
            Error::ERdHup => "ERDHUP"@,
            Error::EInval => "EINVAL"@,
            Error::EOther => "EOTHER"@,
        }
    }
}

impl From<i32> for Error {
    fn from(val: i32) -> (r: Error) {
        match val {
            -1 => Error::Generic,
            -2 => Error::EAgain,
            -3 => Error::ERetry,
            -4 => Error::ENoMem,
            -5 => Error::EEmpty,
            -6 => Error::ERdHup,
            -7 => Error::EInval,
            _ => Error::EOther,
        }
    }
}

impl vstd::std_specs::convert::FromSpecImpl<i32> for Error {
    open spec fn obeys_from_spec() -> bool {
        true
    }

    open spec fn from_spec(val: i32) -> Error {
        error_of_code(val)
    }
}

} // verus!
