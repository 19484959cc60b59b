//! Handles of the file system.
use vstd::prelude::*;

verus! {

/// What a handle is of.
#[derive(Clone, Copy, PartialEq, Eq, Structural, Debug)]
pub enum FileSystemHandleKind {
    File,
    Directory,
}

/// A handle of a file or a directory.
#[derive(Debug)]
pub struct FileSystemHandle {
    pub kind: FileSystemHandleKind,
    pub path: String,
}

} // verus!
