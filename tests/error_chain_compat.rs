use jq_rs::{run, Command, Error, Event, Marker};

fn parse_failure(data: &str, message: &str) -> Error {
    let (mut program, first) = run(".", data);
    assert!(matches!(first, Command::Initialize));
    program.step(Event::Initialized { ok: true });
    let c = program.step(Event::Compiled { ok: true });
    assert!(matches!(c, Command::Parse { .. }));
    let marker = Marker::Text { bytes: message.as_bytes().to_vec() };
    match program.step(Event::ParseFailed { marker }) {
        Command::Finish { result: Err(e) } => e,
        other => panic!("expected a failure: {:?}", other),
    }
}

#[test]
fn test_match_errorkind() {
    let e = parse_failure("[[[{}}", "Objects must consist of key:value pairs at line 1, column 6");
    assert!(matches!(e, Error::System { .. }));
    assert!(e.source().is_none());
}

#[test]
fn test_chain_err() {
    let e = parse_failure("[[[{}}", "Objects must consist of key:value pairs at line 1, column 6");
    let chain = format!("Error: custom message\nCaused by: {}", e.message());

    // the chain is a multi-line string mentioning each error in the chain.
    assert!(chain.contains("custom message"));
    assert!(chain.contains("Parse error"))
}
