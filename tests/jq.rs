use jq_rs::{compile, run, Command, Error, Event, JqProgram, Marker};

/// Feeds the engine's answers to a session, one per command, and returns how it ended.
fn answer(program: &mut JqProgram, first: Command, answers: Vec<Event>) -> Result<String, Error> {
    let mut command = first;
    for event in answers {
        assert!(!matches!(command, Command::Finish { .. }), "finished early: {:?}", command);
        command = program.step(event);
    }
    match command {
        Command::Finish { result } => result,
        other => panic!("not finished: {:?}", other),
    }
}

fn compiled(source: &str) -> JqProgram {
    let (mut program, first) = compile(source);
    assert!(matches!(first, Command::Initialize));
    let c = program.step(Event::Initialized { ok: true });
    assert!(matches!(c, Command::Compile { program: ref text } if text == source));
    let c = program.step(Event::Compiled { ok: true });
    assert!(matches!(c, Command::Ready));
    assert!(program.is_ready());
    program
}

fn compiling() -> Vec<Event> {
    vec![Event::Initialized { ok: true }, Event::Compiled { ok: true }]
}

fn evaluating(outputs: &[&str], sentinel: Marker) -> Vec<Event> {
    let mut events = vec![Event::Parsed];
    for o in outputs {
        events.push(Event::Output { rendered: o.as_bytes().to_vec() });
    }
    events.push(Event::Exhausted { sentinel, halted: false });
    events
}

fn one_off(source: &str, data: &str, answers: Vec<Event>) -> Result<String, Error> {
    let (mut program, first) = run(source, data);
    answer(&mut program, first, answers)
}

fn text(message: &str) -> Marker {
    Marker::Text { bytes: message.as_bytes().to_vec() }
}

#[test]
fn reuse_compiled_program() {
    let query = r#"if . == 0 then "zero" elif . == 1 then "one" else "many" end"#;
    let mut prog = compiled(query);
    for (input, output) in [("2", "\"many\""), ("1", "\"one\""), ("0", "\"zero\"")] {
        let first = prog.run(input);
        assert!(matches!(first, Command::Parse { input: ref i } if i == input));
        let res = answer(&mut prog, first, evaluating(&[output], Marker::Bare));
        assert_eq!(res.unwrap(), output);
    }
}

#[test]
fn jq_state_is_not_global() {
    let input = r#"{"id": 123, "name": "foo"}"#;
    let mut prog1 = compiled(".name");
    let mut prog2 = compiled(".id");
    for _ in 0..2 {
        let first = prog1.run(input);
        let res = answer(&mut prog1, first, evaluating(&["\"foo\""], Marker::Bare));
        assert_eq!(res.unwrap(), "\"foo\"");
        let first = prog2.run(input);
        let res = answer(&mut prog2, first, evaluating(&["123"], Marker::Bare));
        assert_eq!(res.unwrap(), "123");
    }
}

#[test]
fn identity_nothing() {
    assert_eq!(one_off(".", "", compiling()).unwrap(), "".to_string());
}

#[test]
fn identity_empty() {
    let mut answers = compiling();
    answers.extend(evaluating(&["{}"], Marker::Bare));
    assert_eq!(one_off(".", "{}", answers).unwrap(), "{}".to_string());
}

#[test]
fn extract_dates() {
    let data = r#"{"movies":[{"title":"Coraline","year":2009},{"title":"ParaNorman","year":2012},{"title":"Boxtrolls","year":2014},{"title":"Kubo and the Two Strings","year":2016},{"title":"Missing Link","year":2019}]}"#;
    let query = "[.movies[].year]";
    let mut answers = compiling();
    answers.extend(evaluating(&["[2009,2012,2014,2016,2019]"], Marker::Bare));
    let output = one_off(query, data, answers).unwrap();
    let parsed: Vec<i64> = serde_json::from_str(&output).unwrap();
    assert_eq!(vec![2009, 2012, 2014, 2016, 2019], parsed);
}

#[test]
fn extract_name() {
    let mut answers = compiling();
    answers.extend(evaluating(&["\"test\""], Marker::Bare));
    let res = one_off(".name", r#"{"name": "test"}"#, answers);
    assert_eq!(res.unwrap(), "\"test\"".to_string());
}

#[test]
fn unpack_array() {
    let mut answers = compiling();
    answers.extend(evaluating(&["1", "2", "3"], Marker::Bare));
    let res = one_off(".[]", "[1,2,3]", answers);
    assert_eq!(res.unwrap(), "1\n2\n3".to_string());
}

#[test]
fn compile_failure() {
    let answers = vec![Event::Initialized { ok: true }, Event::Compiled { ok: false }];
    let res = one_off(". aa12312me  dsaafsdfsd", "{\"name\": \"test\"}", answers);
    assert!(matches!(res, Err(Error::InvalidProgram { .. })));
}

#[test]
fn parse_error() {
    let mut answers = compiling();
    answers.push(Event::ParseFailed { marker: text("Invalid numeric literal at line 1, column 6") });
    let res = one_off(".", "{1233 invalid json ahoy : est\"}", answers);
    assert!(matches!(res, Err(Error::System { .. })));
}

#[test]
fn just_open_brace() {
    let mut answers = compiling();
    answers.push(Event::ParseFailed { marker: Marker::Bare });
    let res = one_off(".", "{", answers);
    assert!(matches!(res, Err(Error::System { .. })));
}

#[test]
fn just_close_brace() {
    let mut answers = compiling();
    answers.push(Event::ParseFailed { marker: text("Unmatched '}' at line 1, column 1") });
    let res = one_off(".", "}", answers);
    assert!(matches!(res, Err(Error::System { .. })));
}

#[test]
fn total_garbage() {
    let data = r#"
    {
        moreLike: "an object literal but also bad"
        loveToDangleComma: true,
    }"#;
    let mut answers = compiling();
    answers.push(Event::ParseFailed { marker: text("Invalid literal at line 3, column 17") });
    let res = one_off(".", data, answers);
    assert!(matches!(res, Err(Error::System { .. })));
}

#[test]
fn missing_field_access() {
    let prog = ".[] | .hello";
    let data = "[1,2,3]";
    let mut answers = compiling();
    answers.extend(evaluating(&[], text("Cannot index number with \"hello\"")));
    let res = one_off(prog, data, answers);
    assert!(matches!(res, Err(Error::System { .. })));
}

#[test]
fn missing_field_access_compiled() {
    let mut prog = compiled(".[] | .hello");
    let data = "[1,2,3]";
    for _ in 0..3 {
        let first = prog.run(data);
        let res = answer(&mut prog, first, evaluating(&[], text("Cannot index number with \"hello\"")));
        assert!(matches!(res, Err(Error::System { .. })));
        assert!(prog.is_ready());
    }
}
