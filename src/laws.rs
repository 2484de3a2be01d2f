//! What holds of every session, whatever the engine answers.
use crate::errors::ErrorView;
use crate::marker::{marker_reason, MarkerView};
use crate::session::{
    at_rest, begin, broken, fail, parse_failure, start_run, step, CommandView, EventView,
    ProgramView, StageView,
};
use crate::text::blank;
use vstd::prelude::*;

verus! {

/// The state of a compilation that also carries the input of a one-off run.
pub open spec fn pending(p: ProgramView, input: Seq<char>) -> ProgramView {
    match p.stage {
        StageView::Starting { program, input: None } => ProgramView {
            stage: StageView::Starting { program, input: Some(input) },
            outputs: p.outputs,
        },
        StageView::Compiling { input: None } => ProgramView {
            stage: StageView::Compiling { input: Some(input) },
            outputs: p.outputs,
        },
        _ => p,
    }
}

/// A compilation begun by `compile`, not yet over.
pub open spec fn compiling(p: ProgramView) -> bool {
    ||| p.stage matches StageView::Starting { input: None, .. }
    ||| p.stage matches StageView::Compiling { input: None }
}

/// A run in progress on a compiled program.
pub open spec fn in_run(p: ProgramView) -> bool {
    ||| p.stage is Parsing
    ||| p.stage is Evaluating
    ||| p.stage is Halted
}

/// A one-off run starts as `compile` does: with the same first command, in the state that
/// `compile` reaches, carrying the input along.
pub proof fn lemma_one_off_begins_as_compile(program: Seq<char>, input: Seq<char>)
    ensures
        begin(program, Some(input)) == (pending(begin(program, None).0, input), begin(
            program,
            None,
        ).1),
        compiling(begin(program, None).0) || begin(program, None).0 == broken(),
{
}

/// Every engine answer during compilation draws the same command from a one-off run as from
/// `compile`, and leaves the one-off run carrying its input in the state `compile` reaches;
/// where `compile` reports the program ready, the one-off run instead goes straight to the state
/// and command that running the input on the ready program gives.
///
/// With the previous law, a one-off run sends the engine the same requests, and ends with the
/// same result, as compiling the program and then running the input on it.
pub proof fn lemma_one_off_steps_as_compile_then_run(
    p: ProgramView,
    input: Seq<char>,
    e: EventView,
)
    requires
        compiling(p),
    ensures
        step(p, e).1 is Ready ==> step(p, e).0 == at_rest() && step(pending(p, input), e)
            == start_run(input),
        !(step(p, e).1 is Ready) ==> step(pending(p, input), e) == (
            pending(step(p, e).0, input),
            step(p, e).1,
        ),
        compiling(step(p, e).0) || step(p, e).0 == broken() || step(p, e).0 == at_rest(),
{
}

/// A run leaves nothing behind: it stays in progress until it finishes, and when it finishes,
/// whatever the input and whatever the engine answered, the program is back at rest with nothing
/// buffered, the one state every ready program shares. So runs of one program, or of two
/// programs taken in turn, do not depend on one another, and repeating a run repeats its course.
pub proof fn lemma_finished_run_is_at_rest(p: ProgramView, input: Seq<char>, e: EventView)
    requires
        in_run(p),
    ensures
        start_run(input).1 is Finish ==> start_run(input).0 == at_rest(),
        !(start_run(input).1 is Finish) ==> in_run(start_run(input).0),
        step(p, e).1 is Finish ==> step(p, e).0 == at_rest(),
        !(step(p, e).1 is Finish) ==> in_run(step(p, e).0),
{
}

/// Blank input, the empty text included, gives an empty result once the program has compiled,
/// without a call to the parser: on a ready program and in a one-off run alike.
pub proof fn lemma_blank_input_gives_empty(p: ProgramView, input: Seq<char>)
    requires
        blank(input),
        p.stage == (StageView::Compiling { input: Some(input) }),
    ensures
        start_run(input) == (at_rest(), CommandView::Finish { result: Ok(Seq::<char>::empty()) }),
        step(p, EventView::Compiled { ok: true }) == (
            at_rest(),
            CommandView::Finish { result: Ok(Seq::<char>::empty()) },
        ),
{
}

/// A program the engine does not compile fails with `InvalidProgram`, whatever the input of a
/// one-off run, and can do nothing more.
pub proof fn lemma_invalid_program_fails(p: ProgramView)
    requires
        p.stage is Compiling,
    ensures
        step(p, EventView::Compiled { ok: false }) == (
            broken(),
            fail(ErrorView::InvalidProgram { reason: None }),
        ),
{
}

/// Input the parser rejects fails the run with a `System` error that carries the parser's
/// diagnostic, or a fixed one where it gave none.
pub proof fn lemma_rejected_input_fails(p: ProgramView, marker: MarkerView)
    requires
        p.stage is Parsing,
    ensures
        step(p, EventView::ParseFailed { marker }) == (
            at_rest(),
            fail(ErrorView::System { reason: Some(parse_failure(marker)) }),
        ),
{
}

/// Outputs that end, without a halt, on a sentinel carrying a message fail the run with a
/// `System` error carrying that message, whatever was emitted before.
pub proof fn lemma_runtime_error_fails(p: ProgramView, sentinel: MarkerView)
    requires
        p.stage is Evaluating,
        marker_reason(sentinel) is Some,
    ensures
        step(p, EventView::Exhausted { sentinel, halted: false }) == (
            at_rest(),
            fail(ErrorView::System { reason: marker_reason(sentinel) }),
        ),
{
}

} // verus!
