//! The error taxonomy shared by compilation, parsing and evaluation.
use crate::text::{decimal, decimal_text};
use vstd::prelude::*;

verus! {

/// Text of an error whose cause is not known.
pub const ERR_UNKNOWN: &'static str = "JQ: Unknown error";

/// Text of a compilation failure.
pub const ERR_COMPILE: &'static str = "JQ: Program failed to compile";

/// Text of a failed string conversion.
pub const ERR_STRING_CONV: &'static str = "JQ: Failed to convert string";

/// Why a text could not cross the boundary to or from the engine.
#[derive(Debug, Clone, Copy, PartialEq, Eq, Structural)]
pub enum ConversionFailure {
    /// The text holds a nul byte, at this byte offset, so it cannot be handed over as a C string.
    InteriorNul { position: usize },
    /// The engine handed back bytes that are not well-formed UTF-8.
    InvalidUtf8,
}

/// There are many potential causes for failure when running jq programs.
/// This enum unifies them under a single type.
#[derive(Debug)]
pub enum Error {
    /// The jq program failed to compile, with jq's explanation when it gave one.
    InvalidProgram { reason: Option<String> },
    /// Raised by the jq state machine or its parser: bad input, a runtime error, or a
    /// failure to initialise the engine.
    System { reason: Option<String> },
    /// A text could not be converted for or from the engine.
    StringConvert { cause: ConversionFailure },
    /// Something unexpected happened.
    Unknown,
}

/// The mathematical value of an [`Error`].
pub enum ErrorView {
    InvalidProgram { reason: Option<Seq<char>> },
    System { reason: Option<Seq<char>> },
    StringConvert { cause: ConversionFailure },
    Unknown,
}

/// The characters of an optional text.
pub open spec fn text_of(t: Option<String>) -> Option<Seq<char>> {
    match t {
        Some(s) => Some(s@),
        None => None,
    }
}

impl View for Error {
    type V = ErrorView;

    open spec fn view(&self) -> ErrorView {
        match self {
            Error::InvalidProgram { reason } => ErrorView::InvalidProgram { reason: text_of(*reason) },
            Error::System { reason } => ErrorView::System { reason: text_of(*reason) },
            Error::StringConvert { cause } => ErrorView::StringConvert { cause: *cause },
            Error::Unknown => ErrorView::Unknown,
        }
    }
}

/// What a conversion failure says of itself.
pub open spec fn cause_text(c: ConversionFailure) -> Seq<char> {
    match c {
        ConversionFailure::InteriorNul { position } => "nul byte found in provided data at position: "@
            + decimal(position as nat),
        ConversionFailure::InvalidUtf8 => "invalid utf-8 sequence"@,
    }
}

/// The short description of an error: jq's own words where it gave some.
pub open spec fn description_of(e: ErrorView) -> Seq<char> {
    match e {
        ErrorView::InvalidProgram { reason } => match reason {
            Some(r) => r,
            None => ERR_COMPILE@,
        },
        ErrorView::System { reason } => match reason {
            Some(r) => r,
            None => ERR_UNKNOWN@,
        },
        ErrorView::StringConvert { .. } => ERR_STRING_CONV@,
        ErrorView::Unknown => ERR_UNKNOWN@,
    }
}

/// The message shown to a user for an error.
pub open spec fn message_of(e: ErrorView) -> Seq<char> {
    match e {
        ErrorView::InvalidProgram { reason } => match reason {
            Some(r) => ERR_COMPILE@ + ": "@ + r,
            None => ERR_COMPILE@,
        },
        ErrorView::System { reason } => match reason {
            Some(r) => r,
            None => ERR_UNKNOWN@,
        },
        ErrorView::StringConvert { cause } => ERR_STRING_CONV@ + " - `"@ + cause_text(cause)
            + "`"@,
        ErrorView::Unknown => ERR_UNKNOWN@,
    }
}

impl ConversionFailure {
    /// Says what went wrong in the conversion.
    pub fn message(&self) -> (r: String)
        ensures
            r@ == cause_text(*self),
    {
        match self {
            ConversionFailure::InteriorNul { position } => {
                let mut s = "nul byte found in provided data at position: ".to_owned();
                s.append(decimal_text(*position).as_str());
                s
            },
            ConversionFailure::InvalidUtf8 => "invalid utf-8 sequence".to_owned(),
        }
    }
}

impl Error {
    /// A short description: jq's own words where it gave some, else a fixed text of the kind.
    pub fn description(&self) -> (r: String)
        ensures
            r@ == description_of(self@),
    {
        match self {
            Error::InvalidProgram { reason: Some(r) } => r.clone(),
            Error::InvalidProgram { reason: None } => ERR_COMPILE.to_owned(),
            Error::System { reason: Some(r) } => r.clone(),
            Error::System { reason: None } => ERR_UNKNOWN.to_owned(),
            Error::StringConvert { .. } => ERR_STRING_CONV.to_owned(),
            Error::Unknown => ERR_UNKNOWN.to_owned(),
        }
    }

    /// The message to show a user.
    pub fn message(&self) -> (r: String)
        ensures
            r@ == message_of(self@),
    {
        match self {
            Error::InvalidProgram { reason: Some(r) } => {
                let mut s = ERR_COMPILE.to_owned();
                s.append(": ");
                s.append(r.as_str());
                s
            },
            Error::InvalidProgram { reason: None } => ERR_COMPILE.to_owned(),
            Error::System { reason: Some(r) } => r.clone(),
            Error::System { reason: None } => ERR_UNKNOWN.to_owned(),
            Error::StringConvert { cause } => {
                let mut s = ERR_STRING_CONV.to_owned();
                s.append(" - `");
                s.append(cause.message().as_str());
                s.append("`");
                s
            },
            Error::Unknown => ERR_UNKNOWN.to_owned(),
        }
    }

    /// The failure underneath this one: the conversion that failed, for a `StringConvert`.
    pub fn source(&self) -> (r: Option<ConversionFailure>)
        ensures
            r == match self@ {
                ErrorView::StringConvert { cause } => Some(cause),
                _ => None,
            },
    {
        match self {
            Error::StringConvert { cause } => Some(*cause),
            _ => None,
        }
    }
}

} // verus!
