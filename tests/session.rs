use walletbridge::encoding::{decode_base64_text, encode_base64_text, failure_response, success_response};
use walletbridge::session::{
    command_args, error_response, init_next, init_start, snapshot_response, InitAction, InitMode,
    InitStep,
};
use walletbridge::Session;

#[test]
fn empty_session_refuses() {
    let s: Session<u32> = Session::new();
    assert!(!s.is_initialized());
    match s.active() {
        Err(m) => assert_eq!(m, "Error: Light Client is not initialized"),
        Ok(_) => panic!("no session was installed"),
    }
}

#[test]
fn installed_session_is_lent() {
    let mut s: Session<u32> = Session::new();
    s.install(7);
    assert!(s.is_initialized());
    assert_eq!(s.active(), Ok(&7));
    s.install(9);
    assert_eq!(s.active(), Ok(&9));
}

#[test]
fn arguments_for_commands() {
    assert!(command_args("").is_empty());
    assert_eq!(command_args("{\"a\":1}"), vec!["{\"a\":1}"]);
}

#[test]
fn snapshot_replies() {
    assert_eq!(snapshot_response(Ok(vec![1, 2, 3])), "AQID");
    assert_eq!(snapshot_response(Err("disk full".to_string())), "Error: disk full");
    assert_eq!(snapshot_response(Ok(vec![])), "");
}

#[test]
fn plain_errors() {
    assert_eq!(error_response("boom"), "Error: boom");
}

#[test]
fn structured_replies() {
    assert_eq!(success_response(), r#"{"error":"none","initalized":true}"#);
    assert_eq!(failure_response("bad \"x\""), r#"{"error":"bad \"x\"","initalized":false}"#);
}

#[test]
fn base64_round_trip() {
    assert_eq!(encode_base64_text(&[104, 105]), "aGk=");
    assert_eq!(decode_base64_text("aGk="), Ok(vec![104, 105]));
    let e = decode_base64_text("a$").unwrap_err();
    assert!(e.starts_with("Decoding Base64 "));
}

fn run(mode: InitMode, outcomes: &[Result<&str, &str>]) -> (Vec<InitStep>, InitAction) {
    let mut step = init_start(mode);
    let mut steps = vec![step];
    for o in outcomes {
        let o = o.map(|s| s.to_string()).map_err(|s| s.to_string());
        match init_next(mode, step, o) {
            InitAction::Run(next) => {
                step = next;
                steps.push(next);
            }
            done => return (steps, done),
        }
    }
    panic!("the initialization did not finish");
}

#[test]
fn fresh_initialization_steps() {
    let ok = Ok("");
    let (steps, done) = run(InitMode::Fresh, &[ok, ok, ok, Ok("word list")]);
    assert_eq!(
        steps,
        vec![InitStep::CreateConfig, InitStep::BuildClient, InitStep::InstallParams, InitStep::ReadPhrase]
    );
    assert!(matches!(done, InitAction::Install(t) if t == "word list"));
}

#[test]
fn restore_failure_keeps_session() {
    let (steps, done) = run(InitMode::FromPhrase, &[Ok(""), Err("Invalid Seed")]);
    assert_eq!(steps, vec![InitStep::CreateConfig, InitStep::BuildClient]);
    assert!(matches!(done, InitAction::Reply(t) if t == "Error: Invalid Seed"));
}

#[test]
fn snapshot_initialization_steps() {
    let ok = Ok("");
    let (steps, done) = run(InitMode::FromSnapshot, &[ok, ok, ok, ok]);
    assert_eq!(
        steps,
        vec![
            InitStep::CreateConfig,
            InitStep::DecodeSnapshot,
            InitStep::BuildClient,
            InitStep::InstallParams
        ]
    );
    assert!(matches!(done, InitAction::Install(t) if t == r#"{"error":"none","initalized":true}"#));
}

#[test]
fn corrupted_snapshot_is_reported() {
    let message = decode_base64_text("%%%").unwrap_err();
    let (_, done) = run(InitMode::FromSnapshot, &[Ok(""), Err(message.as_str())]);
    match done {
        InitAction::Reply(t) => {
            assert!(t.starts_with(r#"{"error":"Decoding Base64 "#), "{}", t);
            assert!(t.ends_with(r#","initalized":false}"#));
        }
        other => panic!("unexpected {:?}", other),
    }
}

#[test]
fn server_failure_in_every_mode() {
    for mode in [InitMode::Fresh, InitMode::FromPhrase] {
        let (_, done) = run(mode, &[Err("no server")]);
        assert!(matches!(done, InitAction::Reply(t) if t == "Error: no server"));
    }
    let (_, done) = run(InitMode::FromSnapshot, &[Err("no server")]);
    assert!(matches!(done, InitAction::Reply(t) if t == r#"{"error":"no server","initalized":false}"#));
}
