//! Ownership of the directory that receives build artifacts.

use crate::text::optional_text;
use vstd::prelude::*;

verus! {

/// `tempfile::TempDir`, a directory that is deleted when the value is dropped.
/// Nothing inside it is visible to proofs.
#[verifier::external_type_specification]
#[verifier::external_body]
pub struct ExTempDir(tempfile::TempDir);

/// The location of a temporary directory as text; `None` where the
/// location is not text, that is, not valid UTF-8.
pub uninterp spec fn temp_dir_location(dir: tempfile::TempDir) -> Option<Seq<char>>;

/// Calls `tempfile::TempDir::path`: the location that the directory was
/// created at, as text where it is text. Nothing in it is changed.
#[verifier::external_body]
fn temp_dir_path(dir: &tempfile::TempDir) -> (path: Option<String>)
    ensures
        optional_text(path) == temp_dir_location(*dir),
{
    match dir.path().to_str() {
        Some(text) => Some(text.to_owned()),
        None => None,
    }
}

/// Calls `tempfile::TempDir::keep`: the directory is no longer deleted on
/// drop, and the location returned is the one `path` reported, as text
/// where it is text.
#[verifier::external_body]
fn keep_temp_dir(dir: tempfile::TempDir) -> (path: Option<String>)
    ensures
        optional_text(path) == temp_dir_location(dir),
{
    dir.keep().into_os_string().into_string().ok()
}

/// `replace_with::replace_with` moves the value out of `dest`, applies `f` to
/// it and stores the result back. `default` is only consulted when `f`
/// unwinds, which a verified `f` never does.
pub assume_specification<T, D: FnOnce() -> T, F: FnOnce(T) -> T>[
    replace_with::replace_with::<T, D, F>
](
    dest: &mut T,
    default: D,
    f: F,
)
    requires
        call_requires(default, ()),
        call_requires(f, (*old(dest),)),
    ensures
        call_ensures(f, (*old(dest),), *final(dest)),
;

/// A temporary directory whose location is text. The directory is deleted
/// when the value is dropped.
#[derive(Debug)]
pub struct ScratchDir {
    dir: tempfile::TempDir,
    path: String,
}

impl ScratchDir {
    /// The text held is the location of the directory held.
    #[verifier::type_invariant]
    spec fn holds_its_location(self) -> bool {
        temp_dir_location(self.dir) == Some(self.path@)
    }

    /// The directory's location.
    pub closed spec fn location(self) -> Seq<char> {
        self.path@
    }

    /// Takes a temporary directory in, if its location is text. A directory
    /// at a location that is not text is refused, and is deleted with the
    /// value that was handed in.
    pub fn new(dir: tempfile::TempDir) -> (made: Option<ScratchDir>)
        ensures
            match temp_dir_location(dir) {
                Some(path) => made matches Some(scratch) && scratch.location() == path,
                None => made is None,
            },
    {
        match temp_dir_path(&dir) {
            Some(path) => Some(ScratchDir { dir, path }),
            None => None,
        }
    }

    /// The directory's location.
    pub fn path(&self) -> (path: String)
        ensures
            path@ == self.location(),
    {
        self.path.clone()
    }

    /// Gives up the directory: it is no longer deleted, and stays at the
    /// location returned.
    pub fn keep(self) -> (path: String)
        ensures
            path@ == self.location(),
    {
        proof {
            use_type_invariant(&self);
        }
        let ScratchDir { dir, path } = self;
        match keep_temp_dir(dir) {
            Some(kept) => kept,
            None => path,
        }
    }
}

/// Where the build output of one suite goes, and who deletes it.
#[derive(Debug)]
pub enum OutDir {
    /// The caller supplied the directory and keeps ownership of it.
    Provided(String),
    /// A fresh directory owned by this value; dropping the value deletes it.
    Temporary(ScratchDir),
    /// A formerly temporary directory that now stays on disk.
    Persistent(String),
}

/// Mathematical model of an [`OutDir`]: the state and the location.
pub enum OutDirView {
    Provided(Seq<char>),
    Temporary(Seq<char>),
    Persistent(Seq<char>),
}

impl OutDirView {
    /// The location, whatever the state.
    pub open spec fn path(self) -> Seq<char> {
        match self {
            OutDirView::Provided(p) => p,
            OutDirView::Temporary(p) => p,
            OutDirView::Persistent(p) => p,
        }
    }

    /// The state after promotion: a temporary directory becomes persistent
    /// at the same location, every other state stays as it is.
    pub open spec fn promoted(self) -> OutDirView {
        match self {
            OutDirView::Temporary(p) => OutDirView::Persistent(p),
            other => other,
        }
    }
}

impl View for OutDir {
    type V = OutDirView;

    open spec fn view(&self) -> OutDirView {
        match self {
            OutDir::Provided(p) => OutDirView::Provided(p@),
            OutDir::Temporary(dir) => OutDirView::Temporary(dir.location()),
            OutDir::Persistent(p) => OutDirView::Persistent(p@),
        }
    }
}

impl OutDir {
    /// The directory's location, regardless of state.
    pub fn path(&self) -> (path: String)
        ensures
            path@ == self@.path(),
    {
        match self {
            OutDir::Provided(p) => p.clone(),
            OutDir::Temporary(dir) => dir.path(),
            OutDir::Persistent(p) => p.clone(),
        }
    }

    /// The value that stands in for a directory whose promotion unwound.
    fn vacant() -> (out: OutDir)
        ensures
            out@ == OutDirView::Persistent(Seq::<char>::empty()),
    {
        OutDir::Persistent(String::new())
    }

    /// Promotion by value.
    fn promoted(self) -> (out: OutDir)
        ensures
            out@ == self@.promoted(),
    {
        match self {
            OutDir::Temporary(dir) => OutDir::Persistent(dir.keep()),
            other => other,
        }
    }

    /// Promotes a temporary directory to a persistent one, so that it
    /// survives this value. Provided and persistent directories are left
    /// untouched.
    pub fn persist(&mut self)
        ensures
            final(self)@ == old(self)@.promoted(),
    {
        replace_with::replace_with(self, OutDir::vacant, OutDir::promoted);
    }
}

/// Promoting twice gives the same directory as promoting once, and a
/// provided directory is not changed by promotion.
pub proof fn promotion_is_idempotent(dir: OutDirView)
    ensures
        dir.promoted().promoted() == dir.promoted(),
        dir.promoted().path() == dir.path(),
        dir is Provided ==> dir.promoted() == dir,
        !(dir.promoted() is Temporary),
{
}

} // verus!
