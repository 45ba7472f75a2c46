//! The immutable per-frame view of directory state.

use vstd::prelude::*;

verus! {

/// A snapshot of the browsed directory: its path and the ordered file list.
/// Rebuilt (or reused) by the driver before each frame; within a frame the
/// same index always denotes the same entry.
#[derive(Clone, Debug)]
pub struct DirInfo {
    /// The directory's own path, for the frame's title.
    pub path: String,
    /// The ordered entries of the directory.
    pub files: Vec<String>,
}

} // verus!
