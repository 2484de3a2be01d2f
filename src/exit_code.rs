//! jq's numeric halt status, turned into a closed set of outcomes.
use vstd::prelude::*;

verus! {

/// The exit codes that jq checks for once its state machine has halted.
#[allow(non_camel_case_types)]
#[derive(Debug, Clone, Copy, PartialEq, Eq, Structural)]
pub enum ExitCode {
    JQ_OK,
    JQ_OK_NULL_KIND,
    JQ_ERROR_SYSTEM,
    JQ_ERROR_COMPILE,
    JQ_OK_NO_OUTPUT,
    JQ_ERROR_UNKNOWN,
}

/// The outcome that a numeric exit code stands for; numbers jq does not define are unknown.
pub open spec fn code_of(number: int) -> ExitCode {
    if number == 0 {
        ExitCode::JQ_OK
    } else if number == -1 {
        ExitCode::JQ_OK_NULL_KIND
    } else if number == 2 {
        ExitCode::JQ_ERROR_SYSTEM
    } else if number == 3 {
        ExitCode::JQ_ERROR_COMPILE
    } else if number == -4 {
        ExitCode::JQ_OK_NO_OUTPUT
    } else {
        ExitCode::JQ_ERROR_UNKNOWN
    }
}

impl From<isize> for ExitCode {
    fn from(number: isize) -> (r: ExitCode)
        ensures
            r == code_of(number as int),
    {
        match number {
            0 => ExitCode::JQ_OK,
            -1 => ExitCode::JQ_OK_NULL_KIND,
            2 => ExitCode::JQ_ERROR_SYSTEM,
            3 => ExitCode::JQ_ERROR_COMPILE,
            -4 => ExitCode::JQ_OK_NO_OUTPUT,
            _ => ExitCode::JQ_ERROR_UNKNOWN,
        }
    }
}

impl vstd::std_specs::convert::FromSpecImpl<isize> for ExitCode {
    open spec fn obeys_from_spec() -> bool {
        true
    }

    open spec fn from_spec(number: isize) -> ExitCode {
        code_of(number as int)
    }
}

/// What the engine's exit-code value looked like when it was read after a halt.
#[derive(Debug, Clone, Copy, PartialEq, Eq, Structural)]
pub struct ExitStatus {
    /// The value is a valid one.
    pub valid: bool,
    /// Its numeric content, where it has one.
    pub number: Option<isize>,
}

/// The outcome an exit-code value stands for: a valid value means the halt was clean;
/// otherwise its number decides, and without a number the outcome is unknown.
pub open spec fn status_code(s: ExitStatus) -> ExitCode {
    if s.valid {
        ExitCode::JQ_OK
    } else {
        match s.number {
            Some(n) => code_of(n as int),
            None => ExitCode::JQ_ERROR_UNKNOWN,
        }
    }
}

impl ExitStatus {
    /// Interprets the exit-code value.
    pub fn code(&self) -> (r: ExitCode)
        ensures
            r == status_code(*self),
    {
        if self.valid {
            ExitCode::JQ_OK
        } else {
            match self.number {
                Some(n) => ExitCode::from(n),
                None => ExitCode::JQ_ERROR_UNKNOWN,
            }
        }
    }
}

} // verus!
