use elm_torture::in_process::answer_in_process;
use elm_torture::world::{FileRef, Reply, Request};
use std::io::ErrorKind;
use std::path::Path;

#[test]
fn executable_given_by_its_path_is_located_there() {
    let reply = answer_in_process(&Request::Locate { program: "/bin/sh".to_string() });
    match reply {
        Some(Reply::Located(path)) => assert_eq!(path, Path::new("/bin/sh")),
        other => panic!("expected the shell to be located, got {:?}", other),
    }
}

#[test]
fn executable_that_is_nowhere_is_not_located() {
    let reply = answer_in_process(&Request::Locate { program: "no-such-program-0451".to_string() });
    assert!(matches!(reply, Some(Reply::NotLocated(which::Error::CannotFindBinaryPath))));
}

#[test]
fn file_that_is_not_executable_is_not_located() {
    let dir = tempfile::tempdir().unwrap();
    let reply = answer_in_process(&Request::Locate { program: dir.path().to_str().unwrap().to_string() });
    assert!(matches!(reply, Some(Reply::NotLocated(_))));
}

#[test]
fn two_spellings_of_one_directory_are_the_same_file() {
    let dir = tempfile::tempdir().unwrap();
    let left = dir.path().to_str().unwrap().to_string();
    let right = format!("{}/.", left);
    assert!(matches!(
        answer_in_process(&Request::SameFile { left, right }),
        Some(Reply::Same(true))
    ));
}

#[test]
fn two_directories_are_not_the_same_file() {
    let left = tempfile::tempdir().unwrap();
    let right = tempfile::tempdir().unwrap();
    let reply = answer_in_process(&Request::SameFile {
        left: left.path().to_str().unwrap().to_string(),
        right: right.path().to_str().unwrap().to_string(),
    });
    assert!(matches!(reply, Some(Reply::Same(false))));
}

#[test]
fn comparing_with_a_path_that_is_not_there_fails() {
    let dir = tempfile::tempdir().unwrap();
    let left = dir.path().to_str().unwrap().to_string();
    let right = format!("{}/missing", left);
    match answer_in_process(&Request::SameFile { left, right }) {
        Some(Reply::Failed(e)) => assert_eq!(e.kind(), ErrorKind::NotFound),
        other => panic!("expected the comparison to fail, got {:?}", other),
    }
}

#[test]
fn temporary_directory_is_created_with_the_prefix_asked_for() {
    match answer_in_process(&Request::CreateTempDir { prefix: "elm-torture".to_string() }) {
        Some(Reply::TempDir(dir)) => {
            let created_at = dir.path().to_path_buf();
            assert!(created_at.is_dir());
            assert!(created_at.file_name().unwrap().to_str().unwrap().starts_with("elm-torture"));
            drop(dir);
            assert!(!created_at.exists());
        }
        other => panic!("expected a temporary directory, got {:?}", other),
    }
}

#[test]
fn requests_for_the_caller_are_left_alone() {
    let file = FileRef { dir: "/".to_string(), name: "tmp".to_string() };
    let for_the_caller = vec![
        Request::Stat { path: "/".to_string() },
        Request::CreateDir { path: "/tmp/never-created-0451".to_string() },
        Request::Exists { file: file.clone() },
        Request::ReadText { file: file.clone() },
        Request::ReadBytes { file: file.clone() },
        Request::Canonicalize { path: "/".to_string() },
        Request::RemoveTree { dir: FileRef { dir: "/tmp".to_string(), name: "never-0451".to_string() } },
    ];
    for request in for_the_caller {
        assert!(answer_in_process(&request).is_none(), "{:?}", request);
    }
    assert!(!Path::new("/tmp/never-created-0451").exists());
}
