//! The decisions of a compiled program's life, kept apart from the engine that carries them out.
//!
//! A driver that owns the engine asks the program what to do next ([`Command`]), does it, and
//! reports what the engine answered ([`Event`]). Every engine handle stays with the driver; the
//! program decides which request comes next, what a run's output is, and which error ends it.
use crate::errors::{text_of, ConversionFailure, Error, ErrorView};
use crate::exit_code::{status_code, ExitCode, ExitStatus};
use crate::marker::{marker_reason, Marker, MarkerView};
use crate::text::{blank, decode, decoded, first_nul, is_blank, join_lines, joined, nul_position};
use vstd::prelude::*;
use vstd::utf8::encode_utf8;

verus! {

/// Diagnostic of an engine that could not be initialised.
pub const INIT_FAILED: &'static str = "Failed to init";

/// Diagnostic of input the parser rejected without saying why.
pub const PARSER_ERROR: &'static str = "JQ: Parser error";

/// What the driver must do next.
#[derive(Debug)]
pub enum Command {
    /// Create a fresh engine state.
    Initialize,
    /// Compile this program text, which holds no nul byte, into the engine state.
    Compile { program: String },
    /// Hand this input, which holds no nul byte and is not blank, to a new parser that is told
    /// more input may follow, and pull one value from it. A run evaluates the first top-level
    /// value of its input alone; any that follow it are not read.
    Parse { input: String },
    /// Start evaluation on the parsed value, which the engine takes over, then pull an output.
    Start,
    /// Pull the next output.
    Next,
    /// Read the engine's exit-code value.
    ReadExitCode,
    /// Compilation is done: the program is ready for runs.
    Ready,
    /// The run, or the compilation, is over with this result.
    Finish { result: Result<String, Error> },
}

/// What the engine answered.
#[derive(Debug)]
pub enum Event {
    /// Engine state creation succeeded, or gave no usable state.
    Initialized { ok: bool },
    /// The compile call's success flag.
    Compiled { ok: bool },
    /// The parser produced a valid value.
    Parsed,
    /// The parser produced an invalid value carrying this marker.
    ParseFailed { marker: Marker },
    /// The engine emitted a value; these are the bytes of its rendering.
    Output { rendered: Vec<u8> },
    /// The engine produced its exhaustion sentinel, and reported whether it has halted.
    Exhausted { sentinel: Marker, halted: bool },
    /// The engine's exit-code value.
    Exit { status: ExitStatus },
}

/// The mathematical value of a [`Command`].
pub enum CommandView {
    Initialize,
    Compile { program: Seq<char> },
    Parse { input: Seq<char> },
    Start,
    Next,
    ReadExitCode,
    Ready,
    Finish { result: Result<Seq<char>, ErrorView> },
}

/// The mathematical value of an [`Event`].
pub enum EventView {
    Initialized { ok: bool },
    Compiled { ok: bool },
    Parsed,
    ParseFailed { marker: MarkerView },
    Output { rendered: Seq<u8> },
    Exhausted { sentinel: MarkerView, halted: bool },
    Exit { status: ExitStatus },
}

/// The mathematical value of a run's or a compilation's result.
pub open spec fn result_view(r: Result<String, Error>) -> Result<Seq<char>, ErrorView> {
    match r {
        Ok(s) => Ok(s@),
        Err(e) => Err(e@),
    }
}

impl View for Command {
    type V = CommandView;

    open spec fn view(&self) -> CommandView {
        match self {
            Command::Initialize => CommandView::Initialize,
            Command::Compile { program } => CommandView::Compile { program: program@ },
            Command::Parse { input } => CommandView::Parse { input: input@ },
            Command::Start => CommandView::Start,
            Command::Next => CommandView::Next,
            Command::ReadExitCode => CommandView::ReadExitCode,
            Command::Ready => CommandView::Ready,
            Command::Finish { result } => CommandView::Finish { result: result_view(*result) },
        }
    }
}

impl View for Event {
    type V = EventView;

    open spec fn view(&self) -> EventView {
        match self {
            Event::Initialized { ok } => EventView::Initialized { ok: *ok },
            Event::Compiled { ok } => EventView::Compiled { ok: *ok },
            Event::Parsed => EventView::Parsed,
            Event::ParseFailed { marker } => EventView::ParseFailed { marker: marker@ },
            Event::Output { rendered } => EventView::Output { rendered: rendered@ },
            Event::Exhausted { sentinel, halted } => EventView::Exhausted {
                sentinel: sentinel@,
                halted: *halted,
            },
            Event::Exit { status } => EventView::Exit { status: *status },
        }
    }
}

/// Where a program stands between two engine answers.
#[derive(Debug)]
enum Stage {
    /// Waiting for the engine state; the text to compile, and the input of a one-off run.
    Starting { program: String, input: Option<String> },
    /// Waiting for compilation; the input of a one-off run.
    Compiling { input: Option<String> },
    /// Compiled, and no run in progress.
    Idle,
    /// Waiting for the parser.
    Parsing,
    /// Pulling outputs.
    Evaluating,
    /// Halted; waiting for the exit code, with the sentinel that ended the outputs.
    Halted { sentinel: Marker },
    /// Compilation failed: the program can do nothing more.
    Broken,
}

/// The mathematical value of a program's stage.
pub enum StageView {
    Starting { program: Seq<char>, input: Option<Seq<char>> },
    Compiling { input: Option<Seq<char>> },
    Idle,
    Parsing,
    Evaluating,
    Halted { sentinel: MarkerView },
    Broken,
}

/// The mathematical value of a [`JqProgram`]: its stage, and the outputs of the run in progress.
pub struct ProgramView {
    pub stage: StageView,
    pub outputs: Seq<Seq<char>>,
}

/// A compiled jq program, which can be run against different inputs, one run at a time.
#[derive(Debug)]
pub struct JqProgram {
    stage: Stage,
    outputs: Vec<String>,
}

impl View for JqProgram {
    type V = ProgramView;

    closed spec fn view(&self) -> ProgramView {
        ProgramView { stage: stage_view(self.stage), outputs: self.outputs.deep_view() }
    }
}

spec fn stage_view(s: Stage) -> StageView {
    match s {
        Stage::Starting { program, input } => StageView::Starting {
            program: program@,
            input: text_of(input),
        },
        Stage::Compiling { input } => StageView::Compiling { input: text_of(input) },
        Stage::Idle => StageView::Idle,
        Stage::Parsing => StageView::Parsing,
        Stage::Evaluating => StageView::Evaluating,
        Stage::Halted { sentinel } => StageView::Halted { sentinel: sentinel@ },
        Stage::Broken => StageView::Broken,
    }
}

/// A compiled program at rest: no run in progress, nothing buffered.
pub open spec fn at_rest() -> ProgramView {
    ProgramView { stage: StageView::Idle, outputs: Seq::empty() }
}

/// A program whose compilation failed.
pub open spec fn broken() -> ProgramView {
    ProgramView { stage: StageView::Broken, outputs: Seq::empty() }
}

/// The command that ends with an error.
pub open spec fn fail(e: ErrorView) -> CommandView {
    CommandView::Finish { result: Err(e) }
}

/// The error of a text that holds a nul byte at `position`.
pub open spec fn nul_error(position: nat) -> ErrorView {
    ErrorView::StringConvert {
        cause: ConversionFailure::InteriorNul { position: position as usize },
    }
}

/// How a session over `program` begins; `input` is there for a one-off run.
pub open spec fn begin(program: Seq<char>, input: Option<Seq<char>>) -> (ProgramView, CommandView) {
    match first_nul(encode_utf8(program)) {
        Some(p) => (broken(), fail(nul_error(p))),
        None => (
            ProgramView { stage: StageView::Starting { program, input }, outputs: Seq::empty() },
            CommandView::Initialize,
        ),
    }
}

/// How a run on `input` begins: blank input gives an empty result without the parser; input
/// with a nul byte cannot be handed over; anything else goes to the parser.
pub open spec fn start_run(input: Seq<char>) -> (ProgramView, CommandView) {
    if blank(input) {
        (at_rest(), CommandView::Finish { result: Ok(Seq::empty()) })
    } else {
        match first_nul(encode_utf8(input)) {
            Some(p) => (at_rest(), fail(nul_error(p))),
            None => (
                ProgramView { stage: StageView::Parsing, outputs: Seq::empty() },
                CommandView::Parse { input },
            ),
        }
    }
}

/// Where a program lands after an answer it did not expect.
pub open spec fn settle(s: StageView) -> ProgramView {
    match s {
        StageView::Starting { .. } => broken(),
        StageView::Compiling { .. } => broken(),
        StageView::Broken => broken(),
        _ => at_rest(),
    }
}

/// The result of a run whose engine halted with `code`.
pub open spec fn halt_result(code: ExitCode, sentinel: MarkerView, outputs: Seq<Seq<char>>) -> Result<
    Seq<char>,
    ErrorView,
> {
    match code {
        ExitCode::JQ_ERROR_SYSTEM => Err(ErrorView::System { reason: marker_reason(sentinel) }),
        ExitCode::JQ_ERROR_COMPILE => Err(
            ErrorView::InvalidProgram { reason: marker_reason(sentinel) },
        ),
        ExitCode::JQ_ERROR_UNKNOWN => Err(ErrorView::Unknown),
        _ => Ok(joined(outputs)),
    }
}

/// The diagnostic of input that the parser rejected with `marker`.
pub open spec fn parse_failure(marker: MarkerView) -> Seq<char> {
    match marker_reason(marker) {
        Some(r) => r,
        None => PARSER_ERROR@,
    }
}

/// The result of a run whose outputs ended, without a halt, on `sentinel`.
pub open spec fn end_result(sentinel: MarkerView, outputs: Seq<Seq<char>>) -> Result<
    Seq<char>,
    ErrorView,
> {
    match marker_reason(sentinel) {
        Some(r) => Err(ErrorView::System { reason: Some(r) }),
        None => Ok(joined(outputs)),
    }
}

/// What a program does with an engine answer: its next state and the driver's next command.
pub open spec fn step(p: ProgramView, e: EventView) -> (ProgramView, CommandView) {
    let unexpected = (settle(p.stage), fail(ErrorView::Unknown));
    match p.stage {
        StageView::Starting { program, input } => match e {
            EventView::Initialized { ok } => if ok {
                (
                    ProgramView { stage: StageView::Compiling { input }, outputs: Seq::empty() },
                    CommandView::Compile { program },
                )
            } else {
                (broken(), fail(ErrorView::System { reason: Some(INIT_FAILED@) }))
            },
            _ => unexpected,
        },
        StageView::Compiling { input } => match e {
            EventView::Compiled { ok } => if !ok {
                (broken(), fail(ErrorView::InvalidProgram { reason: None }))
            } else {
                match input {
                    None => (at_rest(), CommandView::Ready),
                    Some(i) => start_run(i),
                }
            },
            _ => unexpected,
        },
        StageView::Parsing => match e {
            EventView::Parsed => (
                ProgramView { stage: StageView::Evaluating, outputs: Seq::empty() },
                CommandView::Start,
            ),
            EventView::ParseFailed { marker } => (
                at_rest(),
                fail(ErrorView::System { reason: Some(parse_failure(marker)) }),
            ),
            _ => unexpected,
        },
        StageView::Evaluating => match e {
            EventView::Output { rendered } => match decoded(rendered) {
                Some(t) => (
                    ProgramView { stage: StageView::Evaluating, outputs: p.outputs.push(t) },
                    CommandView::Next,
                ),
                None => (
                    at_rest(),
                    fail(
                        ErrorView::StringConvert {
                            cause: ConversionFailure::InvalidUtf8,
                        },
                    ),
                ),
            },
            EventView::Exhausted { sentinel, halted } => if halted {
                (
                    ProgramView { stage: StageView::Halted { sentinel }, outputs: p.outputs },
                    CommandView::ReadExitCode,
                )
            } else {
                (at_rest(), CommandView::Finish { result: end_result(sentinel, p.outputs) })
            },
            _ => unexpected,
        },
        StageView::Halted { sentinel } => match e {
            EventView::Exit { status } => (
                at_rest(),
                CommandView::Finish {
                    result: halt_result(status_code(status), sentinel, p.outputs),
                },
            ),
            _ => unexpected,
        },
        _ => unexpected,
    }
}

fn copy_input(input: Option<&str>) -> (r: Option<String>)
    ensures
        text_of(r) == match input {
            Some(s) => Some(s@),
            None => None,
        },
{
    match input {
        Some(s) => Some(s.to_owned()),
        None => None,
    }
}

fn finish_err(e: Error) -> (r: Command)
    ensures
        r@ == fail(e@),
{
    Command::Finish { result: Err(e) }
}

fn nul_err(position: usize) -> (r: Error)
    ensures
        r@ == nul_error(position as nat),
{
    Error::StringConvert { cause: ConversionFailure::InteriorNul { position } }
}

impl JqProgram {
    fn at_rest() -> (r: JqProgram)
        ensures
            r@ == at_rest(),
    {
        let r = JqProgram { stage: Stage::Idle, outputs: Vec::new() };
        assert(r@.outputs == Seq::<Seq<char>>::empty());
        r
    }

    fn broken() -> (r: JqProgram)
        ensures
            r@ == broken(),
    {
        let r = JqProgram { stage: Stage::Broken, outputs: Vec::new() };
        assert(r@.outputs == Seq::<Seq<char>>::empty());
        r
    }

    /// Begins a session over `program`, with the input of a one-off run where there is one.
    pub(crate) fn begin(program: &str, input: Option<&str>) -> (r: (JqProgram, Command))
        ensures
            (r.0@, r.1@) == begin(
                program@,
                match input {
                    Some(s) => Some(s@),
                    None => None,
                },
            ),
    {
        match nul_position(program) {
            Some(p) => (JqProgram::broken(), finish_err(nul_err(p))),
            None => {
                let r = JqProgram {
                    stage: Stage::Starting { program: program.to_owned(), input: copy_input(input) },
                    outputs: Vec::new(),
                };
                assert(r@.outputs == Seq::<Seq<char>>::empty());
                (r, Command::Initialize)
            },
        }
    }

    fn start_run(input: &str) -> (r: (JqProgram, Command))
        ensures
            (r.0@, r.1@) == start_run(input@),
    {
        if is_blank(input) {
            (JqProgram::at_rest(), Command::Finish { result: Ok(String::new()) })
        } else {
            match nul_position(input) {
                Some(p) => (JqProgram::at_rest(), finish_err(nul_err(p))),
                None => {
                    let r = JqProgram { stage: Stage::Parsing, outputs: Vec::new() };
                    assert(r@.outputs == Seq::<Seq<char>>::empty());
                    (r, Command::Parse { input: input.to_owned() })
                },
            }
        }
    }

    /// Whether the program is compiled and at rest, so that a run may begin.
    pub fn is_ready(&self) -> (r: bool)
        ensures
            r == (self@ == at_rest()),
    {
        match self.stage {
            Stage::Idle => {
                if self.outputs.len() == 0 {
                    assert(self@.outputs == Seq::<Seq<char>>::empty());
                    true
                } else {
                    false
                }
            },
            _ => false,
        }
    }

    /// Runs a JSON text against the compiled program: returns the driver's first command.
    ///
    /// Blank input ends the run at once with an empty result, and input with a nul byte with a
    /// conversion error; other input goes to the parser.
    pub fn run(&mut self, data: &str) -> (r: Command)
        requires
            old(self)@ == at_rest(),
        ensures
            (final(self)@, r@) == start_run(data@),
    {
        let (next, command) = JqProgram::start_run(data);
        *self = next;
        command
    }

    /// Takes the engine's answer to the last command, and returns the next one.
    pub fn step(&mut self, event: Event) -> (r: Command)
        ensures
            (final(self)@, r@) == step(old(self)@, event@),
    {
        let ghost before = self@;
        let mut stage = Stage::Broken;
        let mut outputs: Vec<String> = Vec::new();
        std::mem::swap(&mut self.stage, &mut stage);
        std::mem::swap(&mut self.outputs, &mut outputs);
        assert(outputs.deep_view() == before.outputs);
        assert(stage_view(stage) == before.stage);
        let compiled = match stage {
            Stage::Starting { .. } | Stage::Compiling { .. } | Stage::Broken => false,
            _ => true,
        };
        let unexpected = if compiled {
            JqProgram::at_rest()
        } else {
            JqProgram::broken()
        };
        match stage {
            Stage::Starting { program, input } => match event {
                Event::Initialized { ok } => {
                    if ok {
                        let r = JqProgram { stage: Stage::Compiling { input }, outputs: Vec::new() };
                        assert(r@.outputs == Seq::<Seq<char>>::empty());
                        *self = r;
                        Command::Compile { program }
                    } else {
                        *self = JqProgram::broken();
                        finish_err(Error::System { reason: Some(INIT_FAILED.to_owned()) })
                    }
                },
                _ => {
                    *self = unexpected;
                    finish_err(Error::Unknown)
                },
            },
            Stage::Compiling { input } => match event {
                Event::Compiled { ok } => {
                    if !ok {
                        *self = JqProgram::broken();
                        finish_err(Error::InvalidProgram { reason: None })
                    } else {
                        match input {
                            None => {
                                *self = JqProgram::at_rest();
                                Command::Ready
                            },
                            Some(i) => {
                                let (next, command) = JqProgram::start_run(i.as_str());
                                *self = next;
                                command
                            },
                        }
                    }
                },
                _ => {
                    *self = unexpected;
                    finish_err(Error::Unknown)
                },
            },
            Stage::Parsing => match event {
                Event::Parsed => {
                    let r = JqProgram { stage: Stage::Evaluating, outputs: Vec::new() };
                    assert(r@.outputs == Seq::<Seq<char>>::empty());
                    *self = r;
                    Command::Start
                },
                Event::ParseFailed { marker } => {
                    let reason = match marker.reason() {
                        Some(r) => r,
                        None => PARSER_ERROR.to_owned(),
                    };
                    *self = JqProgram::at_rest();
                    finish_err(Error::System { reason: Some(reason) })
                },
                _ => {
                    *self = unexpected;
                    finish_err(Error::Unknown)
                },
            },
            Stage::Evaluating => match event {
                Event::Output { rendered } => match decode(rendered) {
                    Some(t) => {
                        let ghost t_view = t@;
                        outputs.push(t);
                        assert(outputs.deep_view() == before.outputs.push(t_view));
                        *self = JqProgram { stage: Stage::Evaluating, outputs };
                        Command::Next
                    },
                    None => {
                        *self = JqProgram::at_rest();
                        finish_err(
                            Error::StringConvert {
                                cause: ConversionFailure::InvalidUtf8,
                            },
                        )
                    },
                },
                Event::Exhausted { sentinel, halted } => {
                    if halted {
                        *self = JqProgram { stage: Stage::Halted { sentinel }, outputs };
                        Command::ReadExitCode
                    } else {
                        let result = match sentinel.reason() {
                            Some(r) => Err(Error::System { reason: Some(r) }),
                            None => Ok(join_lines(&outputs)),
                        };
                        *self = JqProgram::at_rest();
                        Command::Finish { result }
                    }
                },
                _ => {
                    *self = unexpected;
                    finish_err(Error::Unknown)
                },
            },
            Stage::Halted { sentinel } => match event {
                Event::Exit { status } => {
                    let result = match status.code() {
                        ExitCode::JQ_ERROR_SYSTEM => Err(Error::System { reason: sentinel.reason() }),
                        ExitCode::JQ_ERROR_COMPILE => Err(
                            Error::InvalidProgram { reason: sentinel.reason() },
                        ),
                        ExitCode::JQ_ERROR_UNKNOWN => Err(Error::Unknown),
                        _ => Ok(join_lines(&outputs)),
                    };
                    *self = JqProgram::at_rest();
                    Command::Finish { result }
                },
                _ => {
                    *self = unexpected;
                    finish_err(Error::Unknown)
                },
            },
            _ => {
                *self = unexpected;
                finish_err(Error::Unknown)
            },
        }
    }
}

} // verus!
