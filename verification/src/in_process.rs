//! The requests that the library carries out itself, because all they need
//! is a library it links: locating an executable, comparing two paths and
//! creating a temporary directory.
//!
//! What comes back depends on the machine the process runs on, so nothing
//! is promised of it beyond its shape. Every decision that rests on it is
//! made by a transition function that is verified for every reply.

use crate::world::{answers, Reply, Request, RequestView};
use vstd::prelude::*;

verus! {

/// Whether a request is one that the library carries out itself.
pub open spec fn is_in_process(request: RequestView) -> bool {
    request is Locate || request is SameFile || request is CreateTempDir
}

/// Calls `which::which`, which looks for an executable of that name on the
/// search path, or at that path.
#[verifier::external_body]
fn locate(program: &str) -> (found: Result<std::path::PathBuf, which::Error>) {
    which::which(program)
}

/// Calls `same_file::is_same_file`, which opens both paths and tells
/// whether they lead to one file.
#[verifier::external_body]
fn is_same_file(left: &str, right: &str) -> (same: Result<bool, std::io::Error>) {
    same_file::is_same_file(left, right)
}

/// Calls `tempfile::Builder::tempdir` on a builder with the given prefix,
/// which creates a fresh directory below the system's scratch location.
#[verifier::external_body]
fn create_temp_dir(prefix: &str) -> (created: Result<tempfile::TempDir, std::io::Error>) {
    tempfile::Builder::new().prefix(prefix).tempdir()
}

/// Carries out a request if it is one of those that the library carries
/// out itself, and hands back a reply that answers it; `None` for every
/// other request.
pub fn answer_in_process(request: &Request) -> (reply: Option<Reply>)
    ensures
        reply is Some <==> is_in_process(request@),
        reply matches Some(given) ==> answers(request@, given@),
{
    match request {
        Request::Locate { program } => Some(
            match locate(program.as_str()) {
                Ok(path) => Reply::Located(path),
                Err(e) => Reply::NotLocated(e),
            },
        ),
        Request::SameFile { left, right } => Some(
            match is_same_file(left.as_str(), right.as_str()) {
                Ok(same) => Reply::Same(same),
                Err(e) => Reply::Failed(e),
            },
        ),
        Request::CreateTempDir { prefix } => Some(
            match create_temp_dir(prefix.as_str()) {
                Ok(dir) => Reply::TempDir(dir),
                Err(e) => Reply::Failed(e),
            },
        ),
        _ => None,
    }
}

} // verus!
