//! Verified core of a path-inspection utility: given a path string and a
//! snapshot of what the filesystem reported about it, produce a metadata
//! record (name, apparent size, directory flag, extension).

pub mod fs_tree;
pub mod metadata;
pub mod path_name;
