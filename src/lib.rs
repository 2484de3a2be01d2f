//! Safe session logic around the jq evaluation engine.
//!
//! A jq program is compiled into engine state, input is fed through the engine's streaming
//! parser, and outputs are pulled one at a time until the engine signals exhaustion. This crate
//! holds every decision of that exchange: which request the engine gets next, how the outputs
//! are rendered into one text, and which error ends a call. The engine itself, and every value
//! handle it hands out, stay with the driver that carries the commands out.
use vstd::prelude::*;

pub mod errors;
pub mod exit_code;
pub mod laws;
pub mod marker;
pub mod session;
pub mod text;

pub use errors::{ConversionFailure, Error, ErrorView};
pub use exit_code::{ExitCode, ExitStatus};
pub use marker::Marker;
pub use session::{Command, Event, JqProgram};

verus! {

use session::begin;

/// Runs a jq program once on a JSON text: compiles it, then runs the text through it.
///
/// Returns the session and the driver's first command; the session's commands then go on as
/// for [`compile`] followed by [`JqProgram::run`].
pub fn run(program: &str, data: &str) -> (r: (JqProgram, Command))
    ensures
        (r.0@, r.1@) == begin(program@, Some(data@)),
{
    JqProgram::begin(program, Some(data))
}

/// Compiles a jq program, to run it on several inputs.
///
/// Returns the program and the driver's first command; the program is ready for runs once a
/// command says [`Command::Ready`].
pub fn compile(program: &str) -> (r: (JqProgram, Command))
    ensures
        (r.0@, r.1@) == begin(program@, None),
{
    JqProgram::begin(program, None)
}

} // verus!
