//! The engine's invalid-value marker, and the diagnostic it may carry.
use crate::text::{decode, decoded};
use vstd::prelude::*;

verus! {

/// Text put before every diagnostic that the engine supplies.
pub const PARSE_PREFIX: &'static str = "JQ: Parse error: ";

/// Stands for a diagnostic that could not be read as text.
pub const UNREADABLE: &'static str = "unknown";

/// What an invalid value from the engine carried.
#[derive(Debug)]
pub enum Marker {
    /// No message at all.
    Bare,
    /// A string message: its bytes as the engine holds them.
    Text { bytes: Vec<u8> },
    /// A message of some other kind of value.
    Other,
}

/// The mathematical value of a [`Marker`].
pub enum MarkerView {
    Bare,
    Text { bytes: Seq<u8> },
    Other,
}

impl View for Marker {
    type V = MarkerView;

    open spec fn view(&self) -> MarkerView {
        match self {
            Marker::Bare => MarkerView::Bare,
            Marker::Text { bytes } => MarkerView::Text { bytes: bytes@ },
            Marker::Other => MarkerView::Other,
        }
    }
}

/// The diagnostic a marker yields: none for a bare one; otherwise the prefix followed by the
/// message, or by a stand-in where the message is not readable text.
pub open spec fn marker_reason(m: MarkerView) -> Option<Seq<char>> {
    match m {
        MarkerView::Bare => None,
        MarkerView::Text { bytes } => Some(
            PARSE_PREFIX@ + match decoded(bytes) {
                Some(t) => t,
                None => UNREADABLE@,
            },
        ),
        MarkerView::Other => Some(PARSE_PREFIX@ + UNREADABLE@),
    }
}

impl Marker {
    /// Reads the diagnostic out of the marker.
    pub fn reason(self) -> (r: Option<String>)
        ensures
            match r {
                Some(s) => marker_reason(self@) == Some(s@),
                None => marker_reason(self@) is None,
            },
    {
        match self {
            Marker::Bare => None,
            Marker::Text { bytes } => {
                let mut s = PARSE_PREFIX.to_owned();
                match decode(bytes) {
                    Some(t) => s.append(t.as_str()),
                    None => s.append(UNREADABLE),
                }
                Some(s)
            },
            Marker::Other => {
                let mut s = PARSE_PREFIX.to_owned();
                s.append(UNREADABLE);
                Some(s)
            },
        }
    }
}

} // verus!
