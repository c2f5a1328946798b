//! The names that a suite and its build output are laid out with on disk.

use crate::world::{FileRef, FileRefView};
use vstd::prelude::*;
use vstd::string::StringExecFns;

verus! {

/// The project descriptor; its presence marks a directory as a suite.
pub const PROJECT_DESCRIPTOR: &'static str = "elm.json";

/// The optional list of entry points, one per line.
pub const TARGETS_MANIFEST: &'static str = "targets.txt";

/// The entry point of a suite that lists none.
pub const DEFAULT_TARGET: &'static str = "Main.elm";

/// The expected output of the suite's program, as JSON text.
pub const EXPECTED_OUTPUT: &'static str = "output.json";

/// The build cache that the compiler leaves in a suite.
pub const BUILD_CACHE: &'static str = "elm-stuff";

/// The compiled artifact, inside the output directory.
pub const ARTIFACT: &'static str = "elm.js";

/// The generated harness, inside the output directory.
pub const HARNESS: &'static str = "harness.js";

/// The variable naming the toolchain's home, passed on to the compiler.
pub const TOOLCHAIN_HOME: &'static str = "ELM_HOME";

/// Start of the name of every temporary output directory.
pub const TEMP_DIR_PREFIX: &'static str = "elm-torture";

/// The file `name` in the directory `dir`.
pub open spec fn file_in(dir: Seq<char>, name: Seq<char>) -> FileRefView {
    FileRefView { dir, name }
}

/// Names the file `name` in the directory `dir`.
pub fn file_ref(dir: &str, name: &str) -> (file: FileRef)
    ensures
        file@ == file_in(dir@, name@),
{
    FileRef { dir: String::from_str(dir), name: String::from_str(name) }
}

} // verus!
