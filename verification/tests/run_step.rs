use elm_torture::config::Config;
use elm_torture::run::{harness, judge_runtime, run, run_step, RunError, RunState, RunStep};
use elm_torture::world::{FileRef, Invocation, ProcessOutput, Reply, Request};
use std::io::{Error, ErrorKind};
use std::path::PathBuf;

const DEV_NOTICE: &str = "Compiled in DEV mode. Follow the advice at https://elm-lang.org/0.19.1/optimize for better performance and smaller assets.\n";
const DEBUG_NOTICE: &str = "Compiled in DEBUG mode. Follow the advice at https://elm-lang.org/0.19.1/optimize for better performance and smaller assets.\n";
const DRIVER: &str = "module.exports = function (Elm, expected) {};";

fn exited(status: Option<i32>, stdout: &[u8], stderr: &[u8]) -> ProcessOutput {
    ProcessOutput { status, stdout: stdout.to_vec(), stderr: stderr.to_vec() }
}

fn quiet_world_for_run(request: &Request) -> Reply {
    match request {
        Request::Exists { .. } => Reply::Exists(true),
        Request::Locate { program } => Reply::Located(PathBuf::from(format!("/usr/bin/{}", program))),
        Request::ReadBytes { .. } => Reply::Bytes(b"{\"result\":\"ok\"}".to_vec()),
        Request::WriteText { .. } => Reply::Done,
        Request::Spawn { .. } => Reply::Exited(exited(Some(0), b"", b"")),
        other => panic!("the run step has no business asking {:?}", other),
    }
}

fn drive_run(
    config: &Config,
    world: &mut dyn FnMut(&Request) -> Option<Reply>,
) -> (Result<(), RunError>, Vec<Request>) {
    let mut asked = Vec::new();
    let mut step = run_step("suite", "out", config, DRIVER, RunState::Start, Reply::Done);
    for _ in 0..50 {
        match step {
            RunStep::Done(result) => return (result, asked),
            RunStep::Ask(state, request) => {
                let reply = match world(&request) {
                    Some(reply) => reply,
                    None => quiet_world_for_run(&request),
                };
                asked.push(request);
                step = run_step("suite", "out", config, DRIVER, state, reply);
            }
        }
    }
    panic!("the run step did not end; it asked {:?}", asked);
}

fn file(dir: &str, name: &str) -> FileRef {
    FileRef { dir: dir.to_string(), name: name.to_string() }
}

fn runs_something(request: &Request) -> bool {
    matches!(request, Request::Spawn { .. })
}

#[test]
fn run_succeeds_on_expected_output_and_a_silent_runtime() {
    let config = Config::default();
    let (result, asked) = drive_run(&config, &mut |_| None);
    assert!(result.is_ok());
    let expected_harness = format!(
        "\nconst {{ Elm }} = require('./elm.js');\nconst expectedOutput = JSON.parse(String.raw`{}`);\n{}\n\nmodule.exports(Elm, expectedOutput);\n",
        "{\"result\":\"ok\"}", DRIVER
    );
    assert_eq!(
        asked,
        vec![
            Request::Exists { file: file("suite", "elm.json") },
            Request::Locate { program: "node".to_string() },
            Request::ReadBytes { file: file("suite", "output.json") },
            Request::WriteText { file: file("out", "harness.js"), contents: expected_harness },
            Request::Spawn {
                command: Invocation {
                    program: PathBuf::from("/usr/bin/node"),
                    current_dir: None,
                    args: vec!["--unhandled-rejections=strict".to_string()],
                    target: file("out", "harness.js"),
                    forwarded_env: Vec::new(),
                },
            },
        ]
    );
}

#[test]
fn dev_mode_notice_on_stderr_is_benign() {
    assert!(judge_runtime(exited(Some(0), b"", DEV_NOTICE.as_bytes())).is_ok());
    let config = Config::default();
    let (result, _) = drive_run(&config, &mut |request| match request {
        Request::Spawn { .. } => Some(Reply::Exited(exited(Some(0), b"", DEV_NOTICE.as_bytes()))),
        _ => None,
    });
    assert!(result.is_ok());
}

#[test]
fn debug_mode_notice_on_stderr_is_benign() {
    assert!(judge_runtime(exited(Some(0), b"", DEBUG_NOTICE.as_bytes())).is_ok());
}

#[test]
fn any_other_diagnostic_is_unexpected_output() {
    let prod = DEV_NOTICE.replace("DEV", "PROD");
    let untrimmed = DEV_NOTICE.trim_end();
    let doubled = format!("{}{}", DEV_NOTICE, DEV_NOTICE);
    for stderr in [prod.as_str(), untrimmed, doubled.as_str(), "x", "\n"] {
        let output = exited(Some(0), b"", stderr.as_bytes());
        match judge_runtime(output.clone()) {
            Err(RunError::UnexpectedOutputProduced(attached)) => assert_eq!(attached, output),
            other => panic!("expected UnexpectedOutputProduced for {:?}, got {:?}", stderr, other),
        }
    }
}

#[test]
fn any_standard_output_is_unexpected_output() {
    for stdout in [&b"hello"[..], &b"\n"[..], &[0u8][..]] {
        for stderr in [&b""[..], DEV_NOTICE.as_bytes(), &b"noise"[..]] {
            let output = exited(Some(0), stdout, stderr);
            match judge_runtime(output.clone()) {
                Err(RunError::UnexpectedOutputProduced(attached)) => assert_eq!(attached, output),
                other => panic!("expected UnexpectedOutputProduced, got {:?}", other),
            }
        }
    }
    let config = Config::default();
    let (result, _) = drive_run(&config, &mut |request| match request {
        Request::Spawn { .. } => Some(Reply::Exited(exited(Some(0), b"hello", b""))),
        _ => None,
    });
    assert!(matches!(result, Err(RunError::UnexpectedOutputProduced(_))));
}

#[test]
fn failing_exit_code_comes_before_unexpected_output() {
    let output = exited(Some(1), b"hello", b"boom");
    match judge_runtime(output.clone()) {
        Err(RunError::RuntimeReportedFailure(attached)) => assert_eq!(attached, output),
        other => panic!("expected RuntimeReportedFailure, got {:?}", other),
    }
    assert!(matches!(
        judge_runtime(exited(None, b"", b"")),
        Err(RunError::RuntimeReportedFailure(_))
    ));
}

#[test]
fn harness_embeds_text_that_would_need_escaping_unchanged() {
    let expected = "{\"quote\":\"she said \\\"hi\\\"\",\"path\":\"C:\\\\tmp\",\"tick\":\"'\"}";
    let text = harness(expected, DRIVER);
    let head = "\nconst { Elm } = require('./elm.js');\nconst expectedOutput = JSON.parse(String.raw`";
    assert!(text.starts_with(head));
    assert_eq!(&text[head.len()..head.len() + expected.len()], expected);
    assert_eq!(
        &text[head.len() + expected.len()..],
        format!("`);\n{}\n\nmodule.exports(Elm, expectedOutput);\n", DRIVER)
    );
    let parsed: serde_json::Value = serde_json::from_str(&text[head.len()..head.len() + expected.len()]).unwrap();
    assert_eq!(parsed, serde_json::from_str::<serde_json::Value>(expected).unwrap());
    assert_eq!(parsed["path"], serde_json::Value::String("C:\\tmp".to_string()));
}

#[test]
fn harness_of_nothing_is_the_fixed_frame() {
    assert_eq!(
        harness("", ""),
        "\nconst { Elm } = require('./elm.js');\nconst expectedOutput = JSON.parse(String.raw``);\n\n\nmodule.exports(Elm, expectedOutput);\n"
    );
}

#[test]
fn expected_output_keeps_its_non_ascii_characters() {
    let config = Config::default();
    let (result, asked) = drive_run(&config, &mut |request| match request {
        Request::ReadBytes { .. } => Some(Reply::Bytes("\"héllo → 世界\"".as_bytes().to_vec())),
        _ => None,
    });
    assert!(result.is_ok());
    match &asked[3] {
        Request::WriteText { contents, .. } => assert_eq!(*contents, harness("\"héllo → 世界\"", DRIVER)),
        other => panic!("expected the harness to be written, got {:?}", other),
    }
}

#[test]
fn run_of_a_suite_without_descriptor_asks_for_nothing_more() {
    let config = Config::default();
    let (result, asked) = drive_run(&config, &mut |request| match request {
        Request::Exists { .. } => Some(Reply::Exists(false)),
        _ => None,
    });
    assert!(matches!(result, Err(RunError::SuiteDoesNotExist)));
    assert_eq!(asked.len(), 1);
}

#[test]
fn runtime_that_cannot_be_located_fails_before_the_expected_output_is_read() {
    let config = Config::default();
    let (result, asked) = drive_run(&config, &mut |request| match request {
        Request::Locate { .. } => Some(Reply::NotLocated(which::Error::CannotFindBinaryPath)),
        _ => None,
    });
    assert!(matches!(result, Err(RunError::RuntimeNotFound(which::Error::CannotFindBinaryPath))));
    assert!(!asked.iter().any(|r| matches!(r, Request::ReadBytes { .. })));
}

#[test]
fn expected_output_that_cannot_be_opened_is_reported_missing() {
    let config = Config::default();
    let (result, asked) = drive_run(&config, &mut |request| match request {
        Request::ReadBytes { .. } => Some(Reply::Unopened(Error::from(ErrorKind::NotFound))),
        _ => None,
    });
    assert!(matches!(result, Err(RunError::CannotFindExpectedOutput)));
    assert!(!asked.iter().any(runs_something));
}

#[test]
fn expected_output_that_cannot_be_read_to_its_end_is_reported() {
    let config = Config::default();
    let (result, _) = drive_run(&config, &mut |request| match request {
        Request::ReadBytes { .. } => Some(Reply::Failed(Error::new(ErrorKind::UnexpectedEof, "cut"))),
        _ => None,
    });
    match result {
        Err(RunError::CopyingExpectedOutput(e)) => assert_eq!(e.kind(), ErrorKind::UnexpectedEof),
        other => panic!("expected CopyingExpectedOutput, got {:?}", other),
    }
}

#[test]
fn expected_output_that_is_not_utf8_is_reported_with_its_bytes() {
    let config = Config::default();
    let bytes = vec![b'{', 0xff, 0xfe, b'}'];
    let given = bytes.clone();
    let (result, asked) = drive_run(&config, &mut |request| match request {
        Request::ReadBytes { .. } => Some(Reply::Bytes(given.clone())),
        _ => None,
    });
    match result {
        Err(RunError::ExpectedOutputNotUtf8(e)) => assert_eq!(e.into_bytes(), bytes),
        other => panic!("expected ExpectedOutputNotUtf8, got {:?}", other),
    }
    assert!(!asked.iter().any(|r| matches!(r, Request::WriteText { .. })));
}

#[test]
fn harness_that_cannot_be_written_fails_the_run_step() {
    let config = Config::default();
    let (result, asked) = drive_run(&config, &mut |request| match request {
        Request::WriteText { .. } => Some(Reply::Failed(Error::new(ErrorKind::PermissionDenied, "ro"))),
        _ => None,
    });
    match result {
        Err(RunError::WritingHarnessFailed(e)) => assert_eq!(e.kind(), ErrorKind::PermissionDenied),
        other => panic!("expected WritingHarnessFailed, got {:?}", other),
    }
    assert!(!asked.iter().any(runs_something));
}

#[test]
fn runtime_that_cannot_be_started_fails_the_run_step() {
    let config = Config::default();
    let (result, _) = drive_run(&config, &mut |request| match request {
        Request::Spawn { .. } => Some(Reply::Failed(Error::new(ErrorKind::NotFound, "node"))),
        _ => None,
    });
    match result {
        Err(RunError::RuntimeProcessFailed(e)) => assert_eq!(e.kind(), ErrorKind::NotFound),
        other => panic!("expected RuntimeProcessFailed, got {:?}", other),
    }
}

#[test]
fn run_step_makes_its_request_again_on_a_reply_that_answers_nothing() {
    let config = Config::default();
    let state = RunState::Harness { runtime: PathBuf::from("/bin/node"), harness: "text".to_string() };
    match run_step("suite", "out", &config, DRIVER, state, Reply::Exists(true)) {
        RunStep::Ask(RunState::Harness { runtime, harness }, request) => {
            assert_eq!(runtime, PathBuf::from("/bin/node"));
            assert_eq!(harness, "text");
            assert_eq!(
                request,
                Request::WriteText { file: file("out", "harness.js"), contents: "text".to_string() }
            );
        }
        other => panic!("expected the same request again, got {:?}", other),
    }
}

#[test]
fn configured_runtime_is_the_one_located() {
    let mut config = Config::default();
    config.node = "nodejs18".to_string();
    let (_, asked) = drive_run(&config, &mut |_| None);
    assert_eq!(asked[1], Request::Locate { program: "nodejs18".to_string() });
}

fn drive_run_for_real(config: &Config) -> (Result<(), RunError>, Vec<Request>) {
    let mut asked = Vec::new();
    let mut step = run("suite", "out", config, DRIVER, RunState::Start, Reply::Done);
    for _ in 0..50 {
        match step {
            RunStep::Done(result) => return (result, asked),
            RunStep::Ask(state, request) => {
                assert!(
                    !matches!(request, Request::Locate { .. }),
                    "locating the runtime is not the caller's work"
                );
                let reply = quiet_world_for_run(&request);
                asked.push(request);
                step = run("suite", "out", config, DRIVER, state, reply);
            }
        }
    }
    panic!("the run step did not end; it asked {:?}", asked);
}

#[test]
fn run_locates_the_runtime_on_its_own() {
    let mut config = Config::default();
    config.node = "/bin/sh".to_string();
    let (result, asked) = drive_run_for_real(&config);
    assert!(result.is_ok());
    assert_eq!(asked.len(), 4);
    assert_eq!(asked[1], Request::ReadBytes { file: file("suite", "output.json") });
    match &asked[3] {
        Request::Spawn { command } => {
            assert!(command.program.is_file());
            assert_eq!(command.args, vec!["--unhandled-rejections=strict"]);
            assert_eq!(command.target, file("out", "harness.js"));
        }
        other => panic!("expected the runtime to be run, got {:?}", other),
    }
}

#[test]
fn run_reports_a_runtime_that_is_not_installed() {
    let mut config = Config::default();
    config.node = "no-such-node-runtime-0451".to_string();
    let (result, asked) = drive_run_for_real(&config);
    assert!(matches!(result, Err(RunError::RuntimeNotFound(which::Error::CannotFindBinaryPath))));
    assert_eq!(asked, vec![Request::Exists { file: file("suite", "elm.json") }]);
}

#[test]
fn expected_output_that_is_there_and_cannot_be_opened_is_reported_missing() {
    let config = Config::default();
    let (result, asked) = drive_run(&config, &mut |request| match request {
        Request::ReadBytes { .. } => {
            Some(Reply::Unopened(Error::new(ErrorKind::PermissionDenied, "no")))
        }
        _ => None,
    });
    assert!(matches!(result, Err(RunError::CannotFindExpectedOutput)));
    assert!(!asked.iter().any(runs_something));
}
