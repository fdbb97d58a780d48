use vstd::prelude::*;
use vstd::string::StringExecFns;

verus! {

/// Errors of the Unix layer, each with a text that explains it.
#[derive(Clone, Debug)]
pub enum UnixError {
    AllocationError(String),
    PTYOpenError(String),
    PTYCommandError(String),
    SignalFdError(String),
    StdInRegisterError(String),
    TimerFdError(String),
}

/// The exit code of an error: one number per kind of error.
pub open spec fn unix_error_code(e: UnixError) -> i32 {
    match e {
        UnixError::AllocationError(_) => 1,
        UnixError::PTYOpenError(_) => 2,
        UnixError::PTYCommandError(_) => 3,
        UnixError::SignalFdError(_) => 4,
        UnixError::StdInRegisterError(_) => 5,
        UnixError::TimerFdError(_) => 6,
    }
}

/// The text of an error: the name of its kind, a colon and its own text.
pub open spec fn unix_error_text(e: UnixError) -> Seq<char> {
    match e {
        UnixError::AllocationError(m) => "Allocation Error: "@ + m@,
        UnixError::PTYOpenError(m) => "PTY Open Error: "@ + m@,
        UnixError::PTYCommandError(m) => "PTY Command Error: "@ + m@,
        UnixError::SignalFdError(m) => "SignalFd Error: "@ + m@,
        UnixError::StdInRegisterError(m) => "StdIn Register Error: "@ + m@,
        UnixError::TimerFdError(m) => "TimerFd Error: "@ + m@,
    }
}

impl UnixError {
    /// The exit code of this error.
    pub fn code(&self) -> (c: i32)
        ensures
            c == unix_error_code(*self),
    {
        match self {
            UnixError::AllocationError(_) => 1,
            UnixError::PTYOpenError(_) => 2,
            UnixError::PTYCommandError(_) => 3,
            UnixError::SignalFdError(_) => 4,
            UnixError::StdInRegisterError(_) => 5,
            UnixError::TimerFdError(_) => 6,
        }
    }

    /// The text of this error.
    pub fn message(&self) -> (s: String)
        ensures
            s@ == unix_error_text(*self),
    {
        let (prefix, m) = match self {
            UnixError::AllocationError(m) => ("Allocation Error: ", m),
            UnixError::PTYOpenError(m) => ("PTY Open Error: ", m),
            UnixError::PTYCommandError(m) => ("PTY Command Error: ", m),
            UnixError::SignalFdError(m) => ("SignalFd Error: ", m),
            UnixError::StdInRegisterError(m) => ("StdIn Register Error: ", m),
            UnixError::TimerFdError(m) => ("TimerFd Error: ", m),
        };
        let mut s = String::from_str(prefix);
        s.append(m.as_str());
        s
    }

    /// The exit code and the text of this error.
    pub fn code_and_message(&self) -> (r: (i32, String))
        ensures
            r.0 == unix_error_code(*self),
            r.1@ == unix_error_text(*self),
    {
        (self.code(), self.message())
    }
}

impl From<UnixError> for i32 {
    fn from(err: UnixError) -> (c: i32) {
        err.code()
    }
}

impl vstd::std_specs::convert::FromSpecImpl<UnixError> for i32 {
    open spec fn obeys_from_spec() -> bool {
        true
    }

    open spec fn from_spec(err: UnixError) -> i32 {
        unix_error_code(err)
    }
}

} // verus!
