//! The vocabulary between the decision core and the program that acts for
//! it: what the core asks to have done, and what comes back.

use crate::text::{clone_texts, optional_text, texts};
use vstd::prelude::*;

verus! {

/// `which::Error`, the reason an executable could not be located.
#[verifier::external_type_specification]
#[verifier::external_body]
pub struct ExLocateError(which::Error);

/// `std::io::Error`, the reason a file system or process operation failed.
#[verifier::external_type_specification]
#[verifier::external_body]
pub struct ExIoError(std::io::Error);

/// `std::path::PathBuf`, a path as the system gave it. The library hands
/// such a path on and never looks into it.
#[verifier::external_type_specification]
#[verifier::external_body]
pub struct ExPathBuf(std::path::PathBuf);

/// `PathBuf::clone` gives a path equal to the one it was called on.
pub assume_specification[ <std::path::PathBuf as Clone>::clone ](
    path: &std::path::PathBuf,
) -> (copy: std::path::PathBuf)
    ensures
        copy == *path,
;

/// Whether an operation failed because what it was to work on is not
/// there: the error's kind is `std::io::ErrorKind::NotFound`.
pub uninterp spec fn is_not_found(error: std::io::Error) -> bool;

/// Calls `std::io::Error::kind` and tells whether the kind is `NotFound`.
#[verifier::external_body]
pub(crate) fn error_is_not_found(error: &std::io::Error) -> (not_found: bool)
    ensures
        not_found == is_not_found(*error),
{
    error.kind() == std::io::ErrorKind::NotFound
}

/// What a path turned out to be.
#[derive(Debug, Clone, Copy, PartialEq, Eq, Structural)]
pub enum PathKind {
    /// Nothing exists at the path.
    Missing,
    /// The path is a directory.
    Directory,
    /// Something exists at the path and it is not a directory.
    Other,
}

/// A file or directory named relative to a directory.
#[derive(Debug, Clone, PartialEq, Eq)]
pub struct FileRef {
    pub dir: String,
    pub name: String,
}

/// Mathematical model of a [`FileRef`].
pub struct FileRefView {
    pub dir: Seq<char>,
    pub name: Seq<char>,
}

impl View for FileRef {
    type V = FileRefView;

    open spec fn view(&self) -> FileRefView {
        FileRefView { dir: self.dir@, name: self.name@ }
    }
}

/// What a finished child process left behind.
#[derive(Debug, Clone, PartialEq, Eq)]
pub struct ProcessOutput {
    /// The exit code; `None` when the process was ended by a signal.
    pub status: Option<i32>,
    pub stdout: Vec<u8>,
    pub stderr: Vec<u8>,
}

/// Mathematical model of a [`ProcessOutput`].
pub struct ProcessOutputView {
    pub status: Option<i32>,
    pub stdout: Seq<u8>,
    pub stderr: Seq<u8>,
}

impl ProcessOutputView {
    /// A process succeeded when it exited with code zero.
    pub open spec fn success(self) -> bool {
        self.status == Some(0i32)
    }
}

impl View for ProcessOutput {
    type V = ProcessOutputView;

    open spec fn view(&self) -> ProcessOutputView {
        ProcessOutputView { status: self.status, stdout: self.stdout@, stderr: self.stderr@ }
    }
}

impl ProcessOutput {
    /// Whether the process exited with code zero.
    pub fn success(&self) -> (ok: bool)
        ensures
            ok == self@.success(),
    {
        match self.status {
            Some(code) => code == 0,
            None => false,
        }
    }
}

/// A child process to start. Its command line is `args` followed by the
/// location of `target`.
#[derive(Debug, Clone, PartialEq, Eq)]
pub struct Invocation {
    /// The executable, at the path it was located at.
    pub program: std::path::PathBuf,
    /// The working directory; `None` keeps the caller's.
    pub current_dir: Option<String>,
    pub args: Vec<String>,
    /// The file whose location ends the command line.
    pub target: FileRef,
    /// Environment variables passed on unchanged when they are set.
    pub forwarded_env: Vec<String>,
}

/// Mathematical model of an [`Invocation`].
pub struct InvocationView {
    pub program: std::path::PathBuf,
    pub current_dir: Option<Seq<char>>,
    pub args: Seq<Seq<char>>,
    pub target: FileRefView,
    pub forwarded_env: Seq<Seq<char>>,
}

impl View for Invocation {
    type V = InvocationView;

    open spec fn view(&self) -> InvocationView {
        InvocationView {
            program: self.program,
            current_dir: optional_text(self.current_dir),
            args: texts(self.args@),
            target: self.target@,
            forwarded_env: texts(self.forwarded_env@),
        }
    }
}

/// Copies a file reference.
pub fn clone_file_ref(file: &FileRef) -> (copy: FileRef)
    ensures
        copy@ == file@,
{
    FileRef { dir: file.dir.clone(), name: file.name.clone() }
}

/// Copies an invocation.
pub fn clone_invocation(command: &Invocation) -> (copy: Invocation)
    ensures
        copy@ == command@,
{
    let current_dir = match &command.current_dir {
        Some(dir) => Some(dir.clone()),
        None => None,
    };
    Invocation {
        program: command.program.clone(),
        current_dir,
        args: clone_texts(&command.args),
        target: clone_file_ref(&command.target),
        forwarded_env: clone_texts(&command.forwarded_env),
    }
}

/// One thing the core needs done before it can decide further.
#[derive(Debug, Clone, PartialEq, Eq)]
pub enum Request {
    /// Find out what is at `path`. Answered by [`Reply::Kind`].
    Stat { path: String },
    /// Create the directory `path`. Answered by [`Reply::Done`] or
    /// [`Reply::Failed`].
    CreateDir { path: String },
    /// Find out whether `file` exists. Answered by [`Reply::Exists`].
    Exists { file: FileRef },
    /// Read `file` as UTF-8 text. Answered by [`Reply::Text`], by
    /// [`Reply::Unopened`] where the file could not be opened and by
    /// [`Reply::Failed`] where it was opened and could not be read.
    ReadText { file: FileRef },
    /// Read `file` as bytes. Answered by [`Reply::Bytes`], by
    /// [`Reply::Unopened`] where the file could not be opened and by
    /// [`Reply::Failed`] where it was opened and could not be read.
    ReadBytes { file: FileRef },
    /// Write `contents` to `file`. Answered by [`Reply::Done`] or
    /// [`Reply::Failed`].
    WriteText { file: FileRef, contents: String },
    /// Locate the executable `program`. Answered by [`Reply::Located`] or
    /// [`Reply::NotLocated`]. The library can carry this out itself.
    Locate { program: String },
    /// Make `path` absolute. Answered by [`Reply::Path`] or
    /// [`Reply::Failed`].
    Canonicalize { path: String },
    /// Run `command` to completion. Answered by [`Reply::Exited`] or
    /// [`Reply::Failed`].
    Spawn { command: Invocation },
    /// Delete the directory `dir` and all below it. Answered by
    /// [`Reply::Done`] or [`Reply::Failed`].
    RemoveTree { dir: FileRef },
    /// Find out whether two paths name the same file. Answered by
    /// [`Reply::Same`] or [`Reply::Failed`]. The library can carry this out
    /// itself.
    SameFile { left: String, right: String },
    /// Create a fresh directory whose name starts with `prefix`. Answered by
    /// [`Reply::TempDir`] or [`Reply::Failed`]. The library can carry this
    /// out itself.
    CreateTempDir { prefix: String },
}

/// Mathematical model of a [`Request`].
pub enum RequestView {
    Stat { path: Seq<char> },
    CreateDir { path: Seq<char> },
    Exists { file: FileRefView },
    ReadText { file: FileRefView },
    ReadBytes { file: FileRefView },
    WriteText { file: FileRefView, contents: Seq<char> },
    Locate { program: Seq<char> },
    Canonicalize { path: Seq<char> },
    Spawn { command: InvocationView },
    RemoveTree { dir: FileRefView },
    SameFile { left: Seq<char>, right: Seq<char> },
    CreateTempDir { prefix: Seq<char> },
}

impl View for Request {
    type V = RequestView;

    open spec fn view(&self) -> RequestView {
        match self {
            Request::Stat { path } => RequestView::Stat { path: path@ },
            Request::CreateDir { path } => RequestView::CreateDir { path: path@ },
            Request::Exists { file } => RequestView::Exists { file: file@ },
            Request::ReadText { file } => RequestView::ReadText { file: file@ },
            Request::ReadBytes { file } => RequestView::ReadBytes { file: file@ },
            Request::WriteText { file, contents } => RequestView::WriteText {
                file: file@,
                contents: contents@,
            },
            Request::Locate { program } => RequestView::Locate { program: program@ },
            Request::Canonicalize { path } => RequestView::Canonicalize { path: path@ },
            Request::Spawn { command } => RequestView::Spawn { command: command@ },
            Request::RemoveTree { dir } => RequestView::RemoveTree { dir: dir@ },
            Request::SameFile { left, right } => RequestView::SameFile {
                left: left@,
                right: right@,
            },
            Request::CreateTempDir { prefix } => RequestView::CreateTempDir { prefix: prefix@ },
        }
    }
}

/// Whether a reply is one of those that a request is answered by.
pub open spec fn answers(request: RequestView, reply: ReplyView) -> bool {
    match request {
        RequestView::Stat { .. } => reply is Kind,
        RequestView::CreateDir { .. } => reply is Done || reply is Failed,
        RequestView::Exists { .. } => reply is Exists,
        RequestView::ReadText { .. } => reply is Text || reply is Unopened || reply is Failed,
        RequestView::ReadBytes { .. } => reply is Bytes || reply is Unopened || reply is Failed,
        RequestView::WriteText { .. } => reply is Done || reply is Failed,
        RequestView::Locate { .. } => reply is Located || reply is NotLocated,
        RequestView::Canonicalize { .. } => reply is Path || reply is Failed,
        RequestView::Spawn { .. } => reply is Exited || reply is Failed,
        RequestView::RemoveTree { .. } => reply is Done || reply is Failed,
        RequestView::SameFile { .. } => reply is Same || reply is Failed,
        RequestView::CreateTempDir { .. } => reply is TempDir || reply is Failed,
    }
}

/// What came back from carrying out a [`Request`].
#[derive(Debug)]
pub enum Reply {
    /// The action was carried out and has nothing to report.
    Done,
    Kind(PathKind),
    Exists(bool),
    Text(String),
    Bytes(Vec<u8>),
    /// The file could not be opened, for this reason. A file that is not
    /// there is one reason among others; [`is_not_found`] tells it apart.
    Unopened(std::io::Error),
    /// The executable was found at this path.
    Located(std::path::PathBuf),
    NotLocated(which::Error),
    Path(String),
    Exited(ProcessOutput),
    Same(bool),
    TempDir(tempfile::TempDir),
    /// The operation was attempted and failed.
    Failed(std::io::Error),
}

/// Mathematical model of a [`Reply`].
pub enum ReplyView {
    Done,
    Kind(PathKind),
    Exists(bool),
    Text(Seq<char>),
    Bytes(Seq<u8>),
    Unopened(std::io::Error),
    Located(std::path::PathBuf),
    NotLocated(which::Error),
    Path(Seq<char>),
    Exited(ProcessOutputView),
    Same(bool),
    TempDir(tempfile::TempDir),
    Failed(std::io::Error),
}

impl View for Reply {
    type V = ReplyView;

    open spec fn view(&self) -> ReplyView {
        match self {
            Reply::Done => ReplyView::Done,
            Reply::Kind(kind) => ReplyView::Kind(*kind),
            Reply::Exists(found) => ReplyView::Exists(*found),
            Reply::Text(text) => ReplyView::Text(text@),
            Reply::Bytes(bytes) => ReplyView::Bytes(bytes@),
            Reply::Unopened(error) => ReplyView::Unopened(*error),
            Reply::Located(path) => ReplyView::Located(*path),
            Reply::NotLocated(error) => ReplyView::NotLocated(*error),
            Reply::Path(path) => ReplyView::Path(path@),
            Reply::Exited(output) => ReplyView::Exited(output@),
            Reply::Same(same) => ReplyView::Same(*same),
            Reply::TempDir(dir) => ReplyView::TempDir(*dir),
            Reply::Failed(error) => ReplyView::Failed(*error),
        }
    }
}

} // verus!
