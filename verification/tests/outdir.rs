use elm_torture::outdir::{OutDir, ScratchDir};
use std::path::Path;

#[test]
fn path_of_a_provided_directory_is_the_callers() {
    let dir = OutDir::Provided("some/where".to_string());
    assert_eq!(dir.path(), "some/where");
}

#[test]
fn path_of_a_persistent_directory_is_where_it_stayed() {
    let dir = OutDir::Persistent("/tmp/kept".to_string());
    assert_eq!(dir.path(), "/tmp/kept");
}

#[test]
fn path_of_a_temporary_directory_is_where_it_was_created() {
    let temp = tempfile::Builder::new().prefix("elm-torture").tempdir().unwrap();
    let created_at = temp.path().to_path_buf();
    let dir = OutDir::Temporary(ScratchDir::new(temp).unwrap());
    assert_eq!(Path::new(&dir.path()), created_at);
    assert!(created_at.is_dir());
}

#[test]
fn temporary_directory_is_deleted_when_dropped() {
    let temp = tempfile::Builder::new().prefix("elm-torture").tempdir().unwrap();
    let created_at = temp.path().to_path_buf();
    let dir = OutDir::Temporary(ScratchDir::new(temp).unwrap());
    drop(dir);
    assert!(!created_at.exists());
}

#[test]
fn persisted_temporary_directory_stays_at_the_same_path() {
    let scratch = tempfile::tempdir().unwrap();
    let temp = tempfile::Builder::new().prefix("elm-torture").tempdir_in(scratch.path()).unwrap();
    let created_at = temp.path().to_path_buf();
    let mut dir = OutDir::Temporary(ScratchDir::new(temp).unwrap());
    dir.persist();
    assert!(matches!(&dir, OutDir::Persistent(path) if Path::new(path) == created_at));
    assert_eq!(Path::new(&dir.path()), created_at);
    drop(dir);
    assert!(created_at.is_dir());
}

#[test]
fn persisting_twice_is_persisting_once() {
    let scratch = tempfile::tempdir().unwrap();
    let temp = tempfile::Builder::new().prefix("elm-torture").tempdir_in(scratch.path()).unwrap();
    let created_at = temp.path().to_path_buf();
    let mut dir = OutDir::Temporary(ScratchDir::new(temp).unwrap());
    dir.persist();
    let once = dir.path();
    dir.persist();
    assert!(matches!(&dir, OutDir::Persistent(path) if *path == once));
    assert_eq!(Path::new(&once), created_at);
    assert!(created_at.is_dir());
}

#[test]
fn persisting_a_provided_directory_changes_nothing() {
    let kept = tempfile::tempdir().unwrap();
    let location = kept.path().to_str().unwrap().to_string();
    let mut dir = OutDir::Provided(location.clone());
    dir.persist();
    assert!(matches!(&dir, OutDir::Provided(path) if *path == location));
    dir.persist();
    assert!(matches!(&dir, OutDir::Provided(path) if *path == location));
    drop(dir);
    assert!(kept.path().is_dir());
}

#[test]
fn persisting_a_persistent_directory_changes_nothing() {
    let mut dir = OutDir::Persistent("/tmp/kept".to_string());
    dir.persist();
    assert!(matches!(&dir, OutDir::Persistent(path) if path == "/tmp/kept"));
}

#[test]
fn scratch_directory_reports_where_it_was_created() {
    let temp = tempfile::Builder::new().prefix("elm-torture").tempdir().unwrap();
    let created_at = temp.path().to_path_buf();
    let scratch = ScratchDir::new(temp).unwrap();
    assert_eq!(Path::new(&scratch.path()), created_at);
    assert_eq!(scratch.path(), created_at.to_str().unwrap());
    drop(scratch);
    assert!(!created_at.exists());
}

#[test]
fn kept_scratch_directory_stays_where_it_was() {
    let parent = tempfile::tempdir().unwrap();
    let temp = tempfile::Builder::new().prefix("elm-torture").tempdir_in(parent.path()).unwrap();
    let created_at = temp.path().to_path_buf();
    let kept_at = ScratchDir::new(temp).unwrap().keep();
    assert_eq!(Path::new(&kept_at), created_at);
    assert!(created_at.is_dir());
}
