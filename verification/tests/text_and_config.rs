use elm_torture::world::{clone_file_ref, clone_invocation};
use elm_torture::config::{select_task, CliTask, Config};
use elm_torture::layout::file_ref;
use elm_torture::text::{append_texts, clone_texts, push_text, same_bytes, split_lines};
use elm_torture::world::{FileRef, Invocation, ProcessOutput};

#[test]
fn split_lines_matches_splitting_on_line_feeds() {
    for text in ["", "a", "a\nb", "a\n", "\n", "\n\n", "Main.elm\nsrc/Other.elm\n\nLast.elm", "é\n世界\r\n"] {
        let expected: Vec<String> = text.split('\n').map(String::from).collect();
        assert_eq!(split_lines(text), expected, "for {:?}", text);
    }
}

#[test]
fn split_lines_edge_cases() {
    assert_eq!(split_lines(""), vec![""]);
    assert_eq!(split_lines("Main.elm"), vec!["Main.elm"]);
    assert_eq!(split_lines("A.elm\nB.elm"), vec!["A.elm", "B.elm"]);
    assert_eq!(split_lines("A.elm\n"), vec!["A.elm", ""]);
    assert_eq!(split_lines("\nA.elm"), vec!["", "A.elm"]);
    assert_eq!(split_lines("A.elm\r\nB.elm"), vec!["A.elm\r", "B.elm"]);
}

#[test]
fn split_lines_joined_gives_the_text_back() {
    for text in ["", "x", "a\nb\nc", "\n\n\n", "tail\n"] {
        let pieces = split_lines(text);
        assert!(pieces.iter().all(|p| !p.contains('\n')));
        assert_eq!(pieces.join("\n"), text);
    }
}

#[test]
fn same_bytes_compares_lengths_and_contents() {
    assert!(same_bytes(b"", b""));
    assert!(same_bytes(b"abc", b"abc"));
    assert!(!same_bytes(b"abc", b"abd"));
    assert!(!same_bytes(b"abc", b"ab"));
    assert!(!same_bytes(b"", b"a"));
}

#[test]
fn texts_are_copied_and_appended_in_order() {
    let source = vec!["a".to_string(), "".to_string(), "c".to_string()];
    assert_eq!(clone_texts(&source), source);
    let mut strings = vec!["x".to_string()];
    push_text(&mut strings, "y".to_string());
    append_texts(&mut strings, &source);
    append_texts(&mut strings, &Vec::new());
    assert_eq!(strings, vec!["x", "y", "a", "", "c"]);
}

#[test]
fn file_references_and_invocations_are_copied_field_by_field() {
    let file = file_ref("dir", "name");
    assert_eq!(file, FileRef { dir: "dir".to_string(), name: "name".to_string() });
    assert_eq!(clone_file_ref(&file), file);
    let command = Invocation {
        program: std::path::PathBuf::from("elm"),
        current_dir: Some("suite".to_string()),
        args: vec!["make".to_string()],
        target: file,
        forwarded_env: vec!["ELM_HOME".to_string()],
    };
    assert_eq!(clone_invocation(&command), command);
    let bare = Invocation { current_dir: None, ..command };
    assert_eq!(clone_invocation(&bare), bare);
}

#[test]
fn process_succeeds_only_with_exit_code_zero() {
    let output = |status| ProcessOutput { status, stdout: Vec::new(), stderr: Vec::new() };
    assert!(output(Some(0)).success());
    assert!(!output(Some(1)).success());
    assert!(!output(Some(-1)).success());
    assert!(!output(None).success());
}

#[test]
fn default_configuration_uses_the_toolchain_on_the_search_path() {
    let config = Config::default();
    assert_eq!(config.elm_compiler, "elm");
    assert_eq!(config.node, "node");
    assert!(config.args.is_empty());
    assert!(config.allowed_failures.is_empty());
}

#[test]
fn task_selection_prefers_dump_then_suites_then_suite() {
    let some = |s: &str| Some(s.to_string());
    assert!(matches!(
        select_task(true, some("all"), some("one"), some("out")),
        Some(CliTask::DumpConfig)
    ));
    assert!(matches!(
        select_task(false, some("all"), some("one"), None),
        Some(CliTask::RunSuites(dir)) if dir == "all"
    ));
    assert!(matches!(
        select_task(false, None, some("one"), some("out")),
        Some(CliTask::RunSuite { suite, out_dir: Some(out) }) if suite == "one" && out == "out"
    ));
    assert!(matches!(
        select_task(false, None, some("one"), None),
        Some(CliTask::RunSuite { suite, out_dir: None }) if suite == "one"
    ));
    assert!(select_task(false, None, None, some("out")).is_none());
}
