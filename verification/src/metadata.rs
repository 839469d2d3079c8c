//! The metadata record and its assembly from a path string and a filesystem
//! snapshot.
//!
//! Inspection is total: whatever the snapshot reports, a record comes back.
//! A missing or unreadable path, and a directory whose traversal failed,
//! degrade to size zero rather than to an error.

use vstd::prelude::*;
use crate::fs_tree::{clamp64, spec_entries_size, get_directory_size, FsNode, PathStat};
use crate::path_name::{spec_extension, spec_file_name, extension_of_name, file_name_of};

verus! {

/// An immutable snapshot describing one filesystem path at inspection time.
#[derive(Debug)]
pub struct FileMetadata {
    /// Final path component; empty if the path has none.
    pub name: String,
    /// Byte size: the file's length, or a directory's recursive total.
    pub size: u64,
    /// The input path, stored verbatim.
    pub path: String,
    /// Whether the path was a directory at inspection time.
    pub is_dir: bool,
    /// Suffix of the final component after its last `'.'`, without the dot.
    pub extension: String,
}

impl Default for FileMetadata {
    /// The record of nothing: empty texts, size zero, not a directory.
    fn default() -> (r: Self)
        ensures
            r.name@ == Seq::<char>::empty(),
            r.size == 0,
            r.path@ == Seq::<char>::empty(),
            !r.is_dir,
            r.extension@ == Seq::<char>::empty(),
    {
        FileMetadata {
            name: String::new(),
            size: 0,
            path: String::new(),
            is_dir: false,
            extension: String::new(),
        }
    }
}

/// The size a snapshot yields: a readable non-directory reports its length,
/// a traversed directory its recursive total, and every failure zero.
pub open spec fn stat_size(st: PathStat) -> u64 {
    match st {
        PathStat::NotDir { size: Some(n) } => n,
        PathStat::NotDir { size: None } => 0,
        PathStat::Dir { entries: Some(es) } => clamp64(spec_entries_size(es@)),
        PathStat::Dir { entries: None } => 0,
    }
}

/// Everything `get_file_metadata` promises about its result: each field is a
/// function of the path string and the snapshot alone.
pub open spec fn metadata_matches(path: Seq<char>, st: PathStat, m: FileMetadata) -> bool {
    &&& m.name@ == spec_file_name(path)
    &&& m.size == stat_size(st)
    &&& m.path@ == path
    &&& m.is_dir == (st is Dir)
    &&& m.extension@ == spec_extension(spec_file_name(path))
}

/// Resolve a path string and a filesystem snapshot into a metadata record.
/// Never fails: every field is defined for every input.
pub fn get_file_metadata(path: &str, stat: &PathStat) -> (m: FileMetadata)
    ensures
        metadata_matches(path@, *stat, m),
{
    let name = file_name_of(path);
    let extension = extension_of_name(name.as_str());
    let is_dir = match stat {
        PathStat::Dir { .. } => true,
        PathStat::NotDir { .. } => false,
    };
    let size = match stat {
        PathStat::NotDir { size: Some(n) } => *n,
        PathStat::NotDir { size: None } => 0u64,
        PathStat::Dir { entries: Some(es) } => get_directory_size(es),
        PathStat::Dir { entries: None } => 0u64,
    };
    FileMetadata { name, size, path: path.to_owned(), is_dir, extension }
}

/// Inspection is idempotent: two records drawn from the same path and the
/// same snapshot agree on every field.
pub proof fn lemma_inspect_idempotent(
    path: Seq<char>,
    st: PathStat,
    m1: FileMetadata,
    m2: FileMetadata,
)
    requires
        metadata_matches(path, st, m1),
        metadata_matches(path, st, m2),
    ensures
        m1.name@ == m2.name@,
        m1.size == m2.size,
        m1.path@ == m2.path@,
        m1.is_dir == m2.is_dir,
        m1.extension@ == m2.extension@,
{
}

/// An existing regular file is reported as a non-directory with its own
/// byte length.
pub proof fn lemma_regular_file(path: Seq<char>, len: u64, m: FileMetadata)
    requires
        metadata_matches(path, (PathStat::NotDir { size: Some(len) }), m),
    ensures
        !m.is_dir,
        m.size == len,
{
}

/// An empty directory is reported as a directory of size zero.
pub proof fn lemma_empty_directory(path: Seq<char>, entries: Vec<FsNode>, m: FileMetadata)
    requires
        entries@.len() == 0,
        metadata_matches(path, (PathStat::Dir { entries: Some(entries) }), m),
    ensures
        m.is_dir,
        m.size == 0,
{
}

/// A path that does not exist (or cannot be read) still yields a record:
/// not a directory, size zero, the path verbatim, and the name derived from
/// the path string.
pub proof fn lemma_missing_path(path: Seq<char>, m: FileMetadata)
    requires
        metadata_matches(path, (PathStat::NotDir { size: None }), m),
    ensures
        !m.is_dir,
        m.size == 0,
        m.path@ == path,
        m.name@ == spec_file_name(path),
{
}

} // verus!
