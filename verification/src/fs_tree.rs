//! Snapshot model of a directory tree and its recursive apparent size.
//!
//! A directory's apparent size is the sum of the byte lengths of all regular
//! files transitively contained in it. Entries that are neither regular files
//! nor directories (symbolic links, sockets, devices) are never followed and
//! contribute nothing.

use vstd::prelude::*;

verus! {

/// One entry of a directory snapshot, as the filesystem enumeration
/// reported it at inspection time.
#[derive(Debug)]
pub enum FsNode {
    /// A regular file, with its byte length.
    File { size: u64 },
    /// A subdirectory, with the snapshot of its direct entries.
    Dir { entries: Vec<FsNode> },
    /// Anything else (symbolic link, socket, device); never followed.
    Other,
}

/// What the filesystem reported about the inspected path itself.
#[derive(Debug)]
pub enum PathStat {
    /// The path is not a directory: `Some` byte length if its metadata could
    /// be read, `None` if the path is missing or unreadable.
    NotDir { size: Option<u64> },
    /// The path is a directory: `Some` snapshot of its direct entries if the
    /// traversal succeeded, `None` if any part of it failed.
    Dir { entries: Option<Vec<FsNode>> },
}

/// `n` clamped to the largest value a `u64` can hold.
pub open spec fn clamp64(n: nat) -> u64 {
    if n > u64::MAX { u64::MAX } else { n as u64 }
}

/// Apparent size of a single entry: a file counts its byte length, a
/// directory the recursive total of its entries, anything else zero.
pub open spec fn spec_node_size(n: FsNode) -> nat
    decreases n,
{
    match n {
        FsNode::File { size } => size as nat,
        FsNode::Dir { entries } => spec_entries_size(entries@),
        FsNode::Other => 0,
    }
}

/// Apparent size of a directory listing: the sum of the apparent sizes of
/// its entries.
pub open spec fn spec_entries_size(es: Seq<FsNode>) -> nat
    decreases es,
{
    if es.len() == 0 {
        0
    } else {
        spec_node_size(es[0]) + spec_entries_size(es.subrange(1, es.len() as int))
    }
}

/// Addition on `u64` that sticks at `u64::MAX` instead of overflowing.
fn sat_add(a: u64, b: u64) -> (r: u64)
    ensures
        r == clamp64(a as nat + b as nat),
{
    if a > u64::MAX - b {
        u64::MAX
    } else {
        a + b
    }
}

/// Apparent size of a single snapshot entry, clamped to `u64::MAX`.
pub fn node_size(n: &FsNode) -> (r: u64)
    ensures
        r == clamp64(spec_node_size(*n)),
    decreases *n, 0int,
{
    match n {
        FsNode::File { size } => *size,
        FsNode::Dir { entries } => {
            let r = sum_from(entries, 0);
            proof {
                assert(entries@.subrange(0, entries@.len() as int) =~= entries@);
            }
            r
        },
        FsNode::Other => 0u64,
    }
}

/// Sum of the apparent sizes of `entries[i..]`, clamped to `u64::MAX`.
fn sum_from(entries: &Vec<FsNode>, i: usize) -> (r: u64)
    requires
        i <= entries.len(),
    ensures
        r == clamp64(spec_entries_size(entries@.subrange(i as int, entries@.len() as int))),
    decreases entries@, entries@.len() - i,
{
    if i == entries.len() {
        proof {
            assert(entries@.subrange(i as int, entries@.len() as int) =~= Seq::<FsNode>::empty());
        }
        0u64
    } else {
        let first = node_size(&entries[i]);
        let rest = sum_from(entries, i + 1);
        proof {
            let tail = entries@.subrange(i as int, entries@.len() as int);
            assert(tail[0] == entries@[i as int]);
            assert(tail.subrange(1, tail.len() as int)
                =~= entries@.subrange(i as int + 1, entries@.len() as int));
        }
        sat_add(first, rest)
    }
}

/// Apparent size of a directory from the snapshot of its direct entries:
/// the recursive sum of all descendant file lengths, clamped to `u64::MAX`.
pub fn get_directory_size(entries: &Vec<FsNode>) -> (r: u64)
    ensures
        r == clamp64(spec_entries_size(entries@)),
{
    let r = sum_from(entries, 0);
    proof {
        assert(entries@.subrange(0, entries@.len() as int) =~= entries@);
    }
    r
}

/// Sum of a sequence of byte lengths.
pub open spec fn sum_of(sizes: Seq<u64>) -> nat
    decreases sizes.len(),
{
    if sizes.len() == 0 {
        0
    } else {
        sizes[0] as nat + sum_of(sizes.subrange(1, sizes.len() as int))
    }
}

/// A directory whose entries are all regular files of byte lengths
/// `sizes[0], ..., sizes[n-1]` has apparent size `sizes[0] + ... + sizes[n-1]`.
pub proof fn lemma_flat_directory_size(es: Seq<FsNode>, sizes: Seq<u64>)
    requires
        es.len() == sizes.len(),
        forall|i: int| 0 <= i < es.len() ==> es[i] == (FsNode::File { size: sizes[i] }),
    ensures
        spec_entries_size(es) == sum_of(sizes),
    decreases es.len(),
{
    if es.len() > 0 {
        lemma_flat_directory_size(
            es.subrange(1, es.len() as int),
            sizes.subrange(1, sizes.len() as int),
        );
        assert(spec_node_size(es[0]) == sizes[0] as nat);
        assert(spec_entries_size(es) == spec_node_size(es[0]) + spec_entries_size(
            es.subrange(1, es.len() as int),
        ));
    }
}

/// A single file nested two directory levels down is still counted in the
/// outermost directory's apparent size.
pub proof fn lemma_nested_directory_size(outer: Seq<FsNode>, inner: Vec<FsNode>, s: u64)
    requires
        outer.len() == 1,
        outer[0] == (FsNode::Dir { entries: inner }),
        inner@.len() == 1,
        inner@[0] == (FsNode::File { size: s }),
    ensures
        spec_entries_size(outer) == s,
{
    assert(outer.subrange(1, 1) =~= Seq::<FsNode>::empty());
    assert(inner@.subrange(1, 1) =~= Seq::<FsNode>::empty());
    assert(spec_node_size(inner@[0]) == s as nat);
    assert(spec_entries_size(inner@) == spec_node_size(inner@[0]) + spec_entries_size(
        inner@.subrange(1, inner@.len() as int),
    ));
    assert(spec_node_size(outer[0]) == spec_entries_size(inner@));
    assert(spec_entries_size(outer) == spec_node_size(outer[0]) + spec_entries_size(
        outer.subrange(1, outer.len() as int),
    ));
}

/// An entry that is neither a regular file nor a directory (for instance a
/// symbolic link) adds nothing to a directory's apparent size.
pub proof fn lemma_special_entry_adds_nothing(es: Seq<FsNode>)
    ensures
        spec_entries_size(es.push(FsNode::Other)) == spec_entries_size(es),
    decreases es.len(),
{
    let pushed = es.push(FsNode::Other);
    if es.len() == 0 {
        assert(pushed.subrange(1, 1) =~= Seq::<FsNode>::empty());
        assert(spec_entries_size(pushed) == spec_node_size(FsNode::Other) + spec_entries_size(
            pushed.subrange(1, 1),
        ));
    } else {
        assert(pushed.subrange(1, pushed.len() as int) =~= es.subrange(
            1,
            es.len() as int,
        ).push(FsNode::Other));
        lemma_special_entry_adds_nothing(es.subrange(1, es.len() as int));
    }
}

} // verus!
