use elm_torture::batch::{
    compile_and_run_suites, compile_and_run_suites_step, is_failure, BatchState, BatchStep,
};
use elm_torture::compile::CompileError;
use elm_torture::config::{CliInstructions, CliTask, Config};
use elm_torture::outdir::OutDir;
use elm_torture::run::RunError;
use elm_torture::search::iterate_till_some;
use elm_torture::suite::{exit_code, CompileAndRunError};
use elm_torture::world::{PathKind, ProcessOutput, Reply, Request};
use std::io::{Error, ErrorKind};
use std::path::{Path, PathBuf};

const DRIVER: &str = "module.exports = function (Elm, expected) {};";

fn batch_instructions(fail_fast: bool, allowed_failures: &[&str]) -> CliInstructions {
    let mut config = Config::default();
    config.allowed_failures = allowed_failures.iter().map(|p| p.to_string()).collect();
    CliInstructions {
        config,
        clear_elm_stuff: false,
        fail_fast,
        task: CliTask::RunSuites("suites".to_string()),
    }
}

fn exited(status: i32) -> Reply {
    Reply::Exited(ProcessOutput { status: Some(status), stdout: Vec::new(), stderr: Vec::new() })
}

/// A world in which the compiler fails for the suites named in
/// `broken`, the runtime for those in `crashing`, and every suite is the
/// same file as an allowed path of its own name.
fn batch_world(
    request: &Request,
    broken: &[&str],
    crashing: &[&str],
    current: &mut String,
    scratch: &Path,
) -> Reply {
    match request {
        Request::Stat { path } if path == "nowhere" => Reply::Kind(PathKind::Missing),
        Request::Stat { .. } => Reply::Kind(PathKind::Directory),
        Request::CreateDir { .. } => Reply::Done,
        Request::Exists { file } => {
            *current = file.dir.clone();
            Reply::Exists(true)
        }
        Request::ReadText { .. } => Reply::Unopened(Error::from(ErrorKind::NotFound)),
        Request::ReadBytes { .. } => Reply::Bytes(b"[]".to_vec()),
        Request::WriteText { .. } => Reply::Done,
        Request::Locate { program } => Reply::Located(PathBuf::from(program)),
        Request::Canonicalize { path } => Reply::Path(path.clone()),
        Request::Spawn { command } if command.program == Path::new("elm") => {
            exited(if broken.contains(&current.as_str()) { 1 } else { 0 })
        }
        Request::Spawn { .. } => exited(if crashing.contains(&current.as_str()) { 1 } else { 0 }),
        Request::RemoveTree { .. } => Reply::Done,
        Request::SameFile { left, right } => Reply::Same(left == right),
        Request::CreateTempDir { prefix } => {
            Reply::TempDir(tempfile::Builder::new().prefix(prefix).tempdir_in(scratch).unwrap())
        }
    }
}

fn drive_batch(
    suites: &[&str],
    instructions: &CliInstructions,
    broken: &[&str],
    crashing: &[&str],
) -> (Vec<(String, Result<(), CompileAndRunError>)>, Vec<Request>) {
    let suites: Vec<String> = suites.iter().map(|s| s.to_string()).collect();
    let scratch = tempfile::tempdir().unwrap();
    let mut current = String::new();
    let mut asked = Vec::new();
    let mut handed_out = Vec::new();
    let mut step =
        compile_and_run_suites_step(&suites, instructions, DRIVER, BatchState::Next { index: 0 }, Reply::Done);
    for _ in 0..1000 {
        match step {
            BatchStep::Finished => return (handed_out, asked),
            BatchStep::Abort(fatal) => panic!("the batch was aborted: {:?}", fatal),
            BatchStep::Yield { index, path, outcome, then } => {
                assert_eq!(path, suites[index]);
                handed_out.push((path, outcome));
                step = compile_and_run_suites_step(&suites, instructions, DRIVER, then, Reply::Done);
            }
            BatchStep::Ask(state, request) => {
                let reply = batch_world(&request, broken, crashing, &mut current, scratch.path());
                asked.push(request);
                step = compile_and_run_suites_step(&suites, instructions, DRIVER, state, reply);
            }
        }
    }
    panic!("the batch did not end");
}

fn names(handed_out: &[(String, Result<(), CompileAndRunError>)]) -> Vec<&str> {
    handed_out.iter().map(|(suite, _)| suite.as_str()).collect()
}

#[test]
fn fail_fast_batch_ends_with_the_first_failure() {
    let (handed_out, asked) = drive_batch(&["A", "B", "C"], &batch_instructions(true, &[]), &["A"], &[]);
    assert_eq!(names(&handed_out), vec!["A"]);
    assert!(matches!(
        handed_out[0].1,
        Err(CompileAndRunError::CompileFailure { allowed: false, .. })
    ));
    assert!(!asked.contains(&Request::Stat { path: "B".to_string() }));
    assert!(!asked.contains(&Request::Stat { path: "C".to_string() }));
}

#[test]
fn batch_without_fail_fast_runs_every_suite_in_order() {
    let (handed_out, _) = drive_batch(&["A", "B", "C"], &batch_instructions(false, &[]), &["A"], &[]);
    assert_eq!(names(&handed_out), vec!["A", "B", "C"]);
    assert!(matches!(
        handed_out[0].1,
        Err(CompileAndRunError::CompileFailure { allowed: false, .. })
    ));
    assert!(handed_out[1].1.is_ok());
    assert!(handed_out[2].1.is_ok());
}

#[test]
fn fail_fast_batch_ends_with_a_run_failure_in_the_middle() {
    let (handed_out, _) = drive_batch(&["A", "B", "C"], &batch_instructions(true, &[]), &[], &["B"]);
    assert_eq!(names(&handed_out), vec!["A", "B"]);
    assert!(handed_out[0].1.is_ok());
    assert!(matches!(handed_out[1].1, Err(CompileAndRunError::RunFailure { allowed: false, .. })));
}

#[test]
fn allowed_failures_do_not_end_a_fail_fast_batch() {
    let todo = batch_instructions(true, &["A", "B"]);
    let (handed_out, _) = drive_batch(&["A", "B", "C", "D"], &todo, &["A", "C"], &["B"]);
    assert_eq!(names(&handed_out), vec!["A", "B", "C"]);
    assert!(matches!(handed_out[0].1, Err(CompileAndRunError::CompileFailure { allowed: true, .. })));
    assert!(matches!(handed_out[1].1, Err(CompileAndRunError::RunFailure { allowed: true, .. })));
    assert!(matches!(handed_out[2].1, Err(CompileAndRunError::CompileFailure { allowed: false, .. })));
}

#[test]
fn expected_failures_and_missing_suites_do_not_end_a_fail_fast_batch() {
    let todo = batch_instructions(true, &["A"]);
    let (handed_out, _) = drive_batch(&["A", "nowhere", "C"], &todo, &[], &[]);
    assert_eq!(names(&handed_out), vec!["A", "nowhere", "C"]);
    assert!(matches!(handed_out[0].1, Err(CompileAndRunError::ExpectedFailure)));
    assert!(matches!(handed_out[1].1, Err(CompileAndRunError::SuiteNotExist)));
    assert!(handed_out[2].1.is_ok());
}

#[test]
fn empty_batch_finishes_at_once() {
    let (handed_out, asked) = drive_batch(&[], &batch_instructions(true, &[]), &[], &[]);
    assert!(handed_out.is_empty());
    assert!(asked.is_empty());
}

#[test]
fn every_suite_of_a_batch_builds_into_a_temporary_directory_of_its_own() {
    let (handed_out, asked) = drive_batch(&["A", "B"], &batch_instructions(false, &[]), &[], &[]);
    assert_eq!(handed_out.len(), 2);
    let dirs: Vec<&String> = asked
        .iter()
        .filter_map(|r| match r {
            Request::Canonicalize { path } => Some(path),
            _ => None,
        })
        .collect();
    assert_eq!(dirs.len(), 2);
    assert_ne!(dirs[0], dirs[1]);
    assert_eq!(asked.iter().filter(|r| matches!(r, Request::CreateTempDir { .. })).count(), 2);
}

#[test]
fn stopped_batch_stays_finished() {
    let suites = vec!["A".to_string()];
    let todo = batch_instructions(true, &[]);
    let step = compile_and_run_suites_step(&suites, &todo, DRIVER, BatchState::Stopped, Reply::Done);
    assert!(matches!(step, BatchStep::Finished));
    let step = compile_and_run_suites_step(&suites, &todo, DRIVER, BatchState::Next { index: 1 }, Reply::Done);
    assert!(matches!(step, BatchStep::Finished));
}

#[test]
fn only_unallowed_compile_and_run_failures_count() {
    let output = || ProcessOutput { status: Some(1), stdout: Vec::new(), stderr: Vec::new() };
    assert!(!is_failure(&Ok(())));
    assert!(!is_failure(&Err(CompileAndRunError::ExpectedFailure)));
    assert!(!is_failure(&Err(CompileAndRunError::SuiteNotExist)));
    assert!(!is_failure(&Err(CompileAndRunError::SuiteNotDir)));
    assert!(!is_failure(&Err(CompileAndRunError::SuiteNotElm)));
    for allowed in [false, true] {
        assert_eq!(
            is_failure(&Err(CompileAndRunError::CompileFailure {
                allowed,
                reason: CompileError::CompilerReportedFailure(output()),
            })),
            !allowed
        );
        assert_eq!(
            is_failure(&Err(CompileAndRunError::RunFailure {
                allowed,
                outdir: OutDir::Persistent("kept".to_string()),
                reason: RunError::UnexpectedOutputProduced(output()),
            })),
            !allowed
        );
    }
}

#[test]
fn exit_code_of_a_batch_is_that_of_its_first_failure() {
    let (handed_out, _) = drive_batch(&["A", "B", "C"], &batch_instructions(false, &[]), &["C"], &["B"]);
    let code = iterate_till_some(handed_out.iter(), |(_, outcome)| exit_code(outcome));
    assert_eq!(code, Some(2));
    let (handed_out, _) = drive_batch(&["A", "B"], &batch_instructions(false, &[]), &[], &[]);
    assert_eq!(iterate_till_some(handed_out.iter(), |(_, outcome)| exit_code(outcome)), None);
}

#[test]
fn batch_for_real_runs_existing_suites_and_stops_at_the_first_failure() {
    let first = tempfile::tempdir().unwrap();
    let second = tempfile::tempdir().unwrap();
    let suites = vec![
        first.path().to_str().unwrap().to_string(),
        second.path().to_str().unwrap().to_string(),
    ];
    for fail_fast in [true, false] {
        let mut todo = batch_instructions(fail_fast, &[]);
        todo.config.elm_compiler = "/bin/sh".to_string();
        todo.config.node = "/bin/sh".to_string();
        let mut handed_out = Vec::new();
        let mut step =
            compile_and_run_suites(&suites, &todo, DRIVER, BatchState::Next { index: 0 }, Reply::Done);
        loop {
            match step {
                BatchStep::Finished => break,
                BatchStep::Abort(fatal) => panic!("the batch was aborted: {:?}", fatal),
                BatchStep::Yield { index, outcome, then, .. } => {
                    handed_out.push((index, outcome));
                    step = compile_and_run_suites(&suites, &todo, DRIVER, then, Reply::Done);
                }
                BatchStep::Ask(state, request) => {
                    let reply = match &request {
                        Request::Stat { .. } => Reply::Kind(PathKind::Directory),
                        Request::Exists { .. } => Reply::Exists(true),
                        Request::ReadText { .. } => Reply::Unopened(Error::from(ErrorKind::NotFound)),
                        Request::Canonicalize { path } => Reply::Path(path.clone()),
                        Request::Spawn { .. } => exited(1),
                        other => panic!("{:?} is not the caller's work here", other),
                    };
                    step = compile_and_run_suites(&suites, &todo, DRIVER, state, reply);
                }
            }
        }
        let indices: Vec<usize> = handed_out.iter().map(|(index, _)| *index).collect();
        assert_eq!(indices, if fail_fast { vec![0] } else { vec![0, 1] });
        assert!(handed_out
            .iter()
            .all(|(_, o)| matches!(o, Err(CompileAndRunError::CompileFailure { allowed: false, .. }))));
    }
}
