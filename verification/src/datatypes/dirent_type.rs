//! Directory entry types, as `stat` and `dir` report them in `FileStatus::type_`.

use vstd::prelude::*;

verus! {

/// A regular file.
pub const FILE: &'static str = "FILE";

/// A directory.
pub const DIRECTORY: &'static str = "DIRECTORY";

/// A symbolic link.
pub const SYMLINK: &'static str = "SYMLINK";

} // verus!
