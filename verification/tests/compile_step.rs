use elm_torture::compile::{
    compile, compile_step, judge_compiler, CompileError, CompileState, CompileStep,
};
use elm_torture::config::Config;
use elm_torture::world::{FileRef, Invocation, PathKind, ProcessOutput, Reply, Request};
use std::io::{Error, ErrorKind};
use std::path::PathBuf;

fn quiet_world_for_compile(request: &Request) -> Reply {
    match request {
        Request::Stat { .. } => Reply::Kind(PathKind::Directory),
        Request::CreateDir { .. } => Reply::Done,
        Request::Exists { .. } => Reply::Exists(true),
        Request::ReadText { .. } => Reply::Unopened(Error::from(ErrorKind::NotFound)),
        Request::Locate { program } => Reply::Located(PathBuf::from(format!("/usr/bin/{}", program))),
        Request::Canonicalize { path } => Reply::Path(format!("/abs/{}", path)),
        Request::Spawn { .. } => Reply::Exited(ProcessOutput {
            status: Some(0),
            stdout: Vec::new(),
            stderr: Vec::new(),
        }),
        other => panic!("the compile step has no business asking {:?}", other),
    }
}

fn drive_compile(
    config: &Config,
    world: &mut dyn FnMut(&Request) -> Option<Reply>,
) -> (Result<(), CompileError>, Vec<Request>) {
    let mut asked = Vec::new();
    let mut step = compile_step("suite", "out", config, CompileState::Start, Reply::Done);
    for _ in 0..50 {
        match step {
            CompileStep::Done(result) => return (result, asked),
            CompileStep::Ask(state, request) => {
                let reply = match world(&request) {
                    Some(reply) => reply,
                    None => quiet_world_for_compile(&request),
                };
                asked.push(request);
                step = compile_step("suite", "out", config, state, reply);
            }
        }
    }
    panic!("the compile step did not end; it asked {:?}", asked);
}

fn file(dir: &str, name: &str) -> FileRef {
    FileRef { dir: dir.to_string(), name: name.to_string() }
}

fn is_spawn(request: &Request) -> bool {
    matches!(request, Request::Spawn { .. })
}

#[test]
fn compile_asks_in_order_and_succeeds_on_a_silent_compiler() {
    let config = Config::default();
    let (result, asked) = drive_compile(&config, &mut |_| None);
    assert!(result.is_ok());
    assert_eq!(
        asked,
        vec![
            Request::Stat { path: "out".to_string() },
            Request::Exists { file: file("suite", "elm.json") },
            Request::ReadText { file: file("suite", "targets.txt") },
            Request::Locate { program: "elm".to_string() },
            Request::Canonicalize { path: "out".to_string() },
            Request::Spawn {
                command: Invocation {
                    program: PathBuf::from("/usr/bin/elm"),
                    current_dir: Some("suite".to_string()),
                    args: vec!["make".to_string(), "Main.elm".to_string(), "--output".to_string()],
                    target: file("/abs/out", "elm.js"),
                    forwarded_env: vec!["ELM_HOME".to_string()],
                },
            },
        ]
    );
}

#[test]
fn compile_passes_entry_points_then_extra_arguments() {
    let mut config = Config::default();
    config.elm_compiler = "lamdera".to_string();
    config.args = vec!["--optimize".to_string(), "--report=json".to_string()];
    let (result, asked) = drive_compile(&config, &mut |request| match request {
        Request::ReadText { .. } => Some(Reply::Text("A.elm\nsrc/B.elm".to_string())),
        _ => None,
    });
    assert!(result.is_ok());
    match asked.last() {
        Some(Request::Spawn { command }) => {
            assert_eq!(command.program, PathBuf::from("/usr/bin/lamdera"));
            assert_eq!(
                command.args,
                vec!["make", "A.elm", "src/B.elm", "--optimize", "--report=json", "--output"]
            );
        }
        other => panic!("expected the compiler to be run last, got {:?}", other),
    }
}

#[test]
fn targets_with_a_trailing_newline_end_in_an_empty_entry_point() {
    let config = Config::default();
    let (_, asked) = drive_compile(&config, &mut |request| match request {
        Request::ReadText { .. } => Some(Reply::Text("Main.elm\n".to_string())),
        _ => None,
    });
    match asked.last() {
        Some(Request::Spawn { command }) => {
            assert_eq!(command.args, vec!["make", "Main.elm", "", "--output"]);
        }
        other => panic!("expected the compiler to be run last, got {:?}", other),
    }
}

#[test]
fn missing_out_dir_is_created_and_a_failed_creation_is_ignored() {
    let config = Config::default();
    let (result, asked) = drive_compile(&config, &mut |request| match request {
        Request::Stat { .. } => Some(Reply::Kind(PathKind::Missing)),
        Request::CreateDir { .. } => Some(Reply::Failed(Error::new(ErrorKind::PermissionDenied, "no"))),
        _ => None,
    });
    assert!(result.is_ok());
    assert_eq!(asked[0], Request::Stat { path: "out".to_string() });
    assert_eq!(asked[1], Request::CreateDir { path: "out".to_string() });
    assert_eq!(asked[2], Request::Exists { file: file("suite", "elm.json") });
}

#[test]
fn out_dir_that_is_a_file_is_rejected_before_anything_else() {
    let config = Config::default();
    let (result, asked) = drive_compile(&config, &mut |request| match request {
        Request::Stat { .. } => Some(Reply::Kind(PathKind::Other)),
        _ => None,
    });
    assert!(matches!(result, Err(CompileError::OutDirNotADirectory)));
    assert_eq!(asked, vec![Request::Stat { path: "out".to_string() }]);
}

#[test]
fn suite_without_descriptor_is_not_compiled() {
    let config = Config::default();
    let (result, asked) = drive_compile(&config, &mut |request| match request {
        Request::Exists { .. } => Some(Reply::Exists(false)),
        _ => None,
    });
    assert!(matches!(result, Err(CompileError::SuiteDoesNotExist)));
    assert!(!asked.iter().any(is_spawn));
    assert_eq!(asked.len(), 2);
}

#[test]
fn unreadable_targets_fail_the_compile_step() {
    let config = Config::default();
    let (result, asked) = drive_compile(&config, &mut |request| match request {
        Request::ReadText { .. } => Some(Reply::Failed(Error::new(ErrorKind::InvalidData, "not utf-8"))),
        _ => None,
    });
    match result {
        Err(CompileError::ReadingTargetsFailed(e)) => assert_eq!(e.kind(), ErrorKind::InvalidData),
        other => panic!("expected ReadingTargetsFailed, got {:?}", other),
    }
    assert!(!asked.iter().any(is_spawn));
}

#[test]
fn compiler_that_cannot_be_located_fails_the_compile_step() {
    let config = Config::default();
    let (result, asked) = drive_compile(&config, &mut |request| match request {
        Request::Locate { .. } => Some(Reply::NotLocated(which::Error::CannotFindBinaryPath)),
        _ => None,
    });
    assert!(matches!(
        result,
        Err(CompileError::CompilerNotFound(which::Error::CannotFindBinaryPath))
    ));
    assert!(!asked.iter().any(is_spawn));
}

#[test]
fn out_dir_that_cannot_be_made_absolute_is_a_launch_failure() {
    let config = Config::default();
    let (result, asked) = drive_compile(&config, &mut |request| match request {
        Request::Canonicalize { .. } => Some(Reply::Failed(Error::new(ErrorKind::NotFound, "gone"))),
        _ => None,
    });
    match result {
        Err(CompileError::ProcessLaunchFailed(e)) => assert_eq!(e.kind(), ErrorKind::NotFound),
        other => panic!("expected ProcessLaunchFailed, got {:?}", other),
    }
    assert!(!asked.iter().any(is_spawn));
}

#[test]
fn compiler_that_cannot_be_started_is_a_launch_failure() {
    let config = Config::default();
    let (result, _) = drive_compile(&config, &mut |request| match request {
        Request::Spawn { .. } => Some(Reply::Failed(Error::new(ErrorKind::PermissionDenied, "x"))),
        _ => None,
    });
    match result {
        Err(CompileError::ProcessLaunchFailed(e)) => assert_eq!(e.kind(), ErrorKind::PermissionDenied),
        other => panic!("expected ProcessLaunchFailed, got {:?}", other),
    }
}

#[test]
fn compiler_exit_code_is_judged_before_its_diagnostics() {
    let output = ProcessOutput { status: Some(1), stdout: b"out".to_vec(), stderr: b"err".to_vec() };
    match judge_compiler(output.clone()) {
        Err(CompileError::CompilerReportedFailure(attached)) => assert_eq!(attached, output),
        other => panic!("expected CompilerReportedFailure, got {:?}", other),
    }
}

#[test]
fn compiler_ended_by_a_signal_has_failed() {
    let output = ProcessOutput { status: None, stdout: Vec::new(), stderr: Vec::new() };
    assert!(matches!(judge_compiler(output), Err(CompileError::CompilerReportedFailure(_))));
}

#[test]
fn successful_compiler_must_be_silent_on_its_diagnostic_stream() {
    let output = ProcessOutput { status: Some(0), stdout: Vec::new(), stderr: b"warning".to_vec() };
    match judge_compiler(output.clone()) {
        Err(CompileError::UnexpectedDiagnosticOutput(attached)) => assert_eq!(attached, output),
        other => panic!("expected UnexpectedDiagnosticOutput, got {:?}", other),
    }
}

#[test]
fn successful_compiler_may_write_to_its_standard_output() {
    let output = ProcessOutput { status: Some(0), stdout: b"Success!".to_vec(), stderr: Vec::new() };
    assert!(judge_compiler(output).is_ok());
}

#[test]
fn compile_failure_comes_out_of_the_step_with_the_output_attached() {
    let config = Config::default();
    let (result, _) = drive_compile(&config, &mut |request| match request {
        Request::Spawn { .. } => Some(Reply::Exited(ProcessOutput {
            status: Some(2),
            stdout: Vec::new(),
            stderr: b"type error".to_vec(),
        })),
        _ => None,
    });
    match result {
        Err(CompileError::CompilerReportedFailure(output)) => {
            assert_eq!(output.status, Some(2));
            assert_eq!(output.stderr, b"type error");
        }
        other => panic!("expected CompilerReportedFailure, got {:?}", other),
    }
}

#[test]
fn reply_that_answers_nothing_has_the_request_made_again() {
    let config = Config::default();
    let first = compile_step("suite", "out", &config, CompileState::Start, Reply::Done);
    let state = match first {
        CompileStep::Ask(state, request) => {
            assert_eq!(request, Request::Stat { path: "out".to_string() });
            state
        }
        other => panic!("expected a request, got {:?}", other),
    };
    match compile_step("suite", "out", &config, state, Reply::Exists(true)) {
        CompileStep::Ask(CompileState::OutDirKind, request) => {
            assert_eq!(request, Request::Stat { path: "out".to_string() });
        }
        other => panic!("expected the same request again, got {:?}", other),
    }
    let roots = vec!["Main.elm".to_string()];
    match compile_step("suite", "out", &config, CompileState::Compiler { roots }, Reply::Same(true)) {
        CompileStep::Ask(CompileState::Compiler { roots }, request) => {
            assert_eq!(roots, vec!["Main.elm"]);
            assert_eq!(request, Request::Locate { program: "elm".to_string() });
        }
        other => panic!("expected the same request again, got {:?}", other),
    }
}

fn drive_compile_for_real(config: &Config) -> (Result<(), CompileError>, Vec<Request>) {
    let mut asked = Vec::new();
    let mut step = compile("suite", "out", config, CompileState::Start, Reply::Done);
    for _ in 0..50 {
        match step {
            CompileStep::Done(result) => return (result, asked),
            CompileStep::Ask(state, request) => {
                assert!(
                    !matches!(request, Request::Locate { .. }),
                    "locating the compiler is not the caller's work"
                );
                let reply = quiet_world_for_compile(&request);
                asked.push(request);
                step = compile("suite", "out", config, state, reply);
            }
        }
    }
    panic!("the compile step did not end; it asked {:?}", asked);
}

#[test]
fn compile_locates_the_compiler_on_its_own() {
    let mut config = Config::default();
    config.elm_compiler = "/bin/sh".to_string();
    let (result, asked) = drive_compile_for_real(&config);
    assert!(result.is_ok());
    assert_eq!(asked.len(), 5);
    assert_eq!(asked[2], Request::ReadText { file: file("suite", "targets.txt") });
    assert_eq!(asked[3], Request::Canonicalize { path: "out".to_string() });
    match &asked[4] {
        Request::Spawn { command } => {
            assert!(command.program.is_file());
            assert!(command.program.ends_with("sh"));
            assert_eq!(command.args, vec!["make", "Main.elm", "--output"]);
        }
        other => panic!("expected the compiler to be run, got {:?}", other),
    }
}

#[test]
fn compile_reports_a_compiler_that_is_not_installed() {
    let mut config = Config::default();
    config.elm_compiler = "no-such-elm-compiler-0451".to_string();
    let (result, asked) = drive_compile_for_real(&config);
    assert!(matches!(
        result,
        Err(CompileError::CompilerNotFound(which::Error::CannotFindBinaryPath))
    ));
    assert_eq!(asked.last(), Some(&Request::ReadText { file: file("suite", "targets.txt") }));
}

#[test]
fn manifest_that_is_there_and_cannot_be_opened_fails_the_compile_step() {
    let config = Config::default();
    for kind in [ErrorKind::PermissionDenied, ErrorKind::Other, ErrorKind::InvalidInput] {
        let (result, asked) = drive_compile(&config, &mut |request| match request {
            Request::ReadText { .. } => Some(Reply::Unopened(Error::new(kind, "cannot open"))),
            _ => None,
        });
        match result {
            Err(CompileError::ReadingTargetsFailed(e)) => assert_eq!(e.kind(), kind),
            other => panic!("expected ReadingTargetsFailed, got {:?}", other),
        }
        assert!(!asked.iter().any(is_spawn));
        assert!(!asked.iter().any(|r| matches!(r, Request::Locate { .. })));
    }
}

#[test]
fn manifest_that_is_not_there_gives_the_default_entry_point() {
    let config = Config::default();
    let (result, asked) = drive_compile(&config, &mut |request| match request {
        Request::ReadText { .. } => Some(Reply::Unopened(Error::new(ErrorKind::NotFound, "none"))),
        _ => None,
    });
    assert!(result.is_ok());
    match asked.last() {
        Some(Request::Spawn { command }) => {
            assert_eq!(command.args, vec!["make", "Main.elm", "--output"]);
        }
        other => panic!("expected the compiler to be run last, got {:?}", other),
    }
}
