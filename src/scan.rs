use vstd::prelude::*;

use crate::errors::SizeTreeError;
use crate::file_tree::{FileTree, FileTreeNode, NodeModel};

verus! {

/// What the filesystem reported for one path, as read before the tree is built.
pub enum FsEntry {
    /// Nothing exists at the path.
    Missing,
    /// A regular file, with the outcome of reading its length.
    File { name: Option<String>, size: Result<u64, SizeTreeError> },
    /// A directory, with the outcome of listing its entries in enumeration order.
    Dir { name: Option<String>, entries: Result<Vec<FsEntry>, SizeTreeError> },
    /// Anything that is neither a regular file nor a directory.
    Other,
}

pub open spec fn name_view(name: Option<String>) -> Option<Seq<char>> {
    match name {
        Some(n) => Some(n@),
        None => None,
    }
}

/// A natural number held in 64 bits, saturating at the largest value.
pub open spec fn saturate(x: nat) -> u64 {
    if x <= u64::MAX {
        x as u64
    } else {
        u64::MAX
    }
}

/// Whether an entry inside a directory becomes a child node.
pub open spec fn is_kept(e: FsEntry) -> bool {
    e is File || e is Dir
}

pub open spec fn leaf(name: Option<String>, size: Option<u64>) -> NodeModel {
    NodeModel { name: name_view(name), size, children: Seq::empty(), expanded: false }
}

/// The node that an entry found inside a directory becomes.
pub open spec fn scan_child(e: FsEntry) -> NodeModel
    decreases e, 0nat,
{
    match e {
        FsEntry::File { name, size: Ok(n) } => leaf(name, Some(n)),
        FsEntry::File { name, size: Err(_) } => leaf(name, None),
        FsEntry::Dir { name, entries: Ok(v) } => scan_dir(name, v@),
        FsEntry::Dir { name, entries: Err(_) } => leaf(name, None),
        _ => leaf(None, None),
    }
}

/// The node of a directory whose listing gave the entries `es`.
pub open spec fn scan_dir(name: Option<String>, es: Seq<FsEntry>) -> NodeModel
    decreases es, 1nat,
{
    NodeModel {
        name: name_view(name),
        size: Some(saturate(dir_total(es))),
        children: scan_children(es),
        expanded: false,
    }
}

/// The child nodes of a directory: one per kept entry, in order.
pub open spec fn scan_children(es: Seq<FsEntry>) -> Seq<NodeModel>
    decreases es, 0nat,
{
    if es.len() == 0 {
        Seq::empty()
    } else if is_kept(es.last()) {
        scan_children(es.drop_last()).push(scan_child(es.last()))
    } else {
        scan_children(es.drop_last())
    }
}

/// What an entry adds to its directory's total: its size where it is kept and measured, else zero.
pub open spec fn contribution(e: FsEntry) -> nat
    decreases e, 1nat,
{
    if is_kept(e) {
        match scan_child(e).size {
            Some(n) => n as nat,
            None => 0nat,
        }
    } else {
        0nat
    }
}

/// The sum of the sizes of a directory's kept entries, an absent size counting as zero.
pub open spec fn dir_total(es: Seq<FsEntry>) -> nat
    decreases es, 0nat,
{
    if es.len() == 0 {
        0
    } else {
        dir_total(es.drop_last()) + contribution(es.last())
    }
}

/// The outcome of scanning a root path.
pub open spec fn scan_root(e: FsEntry) -> Result<NodeModel, SizeTreeError> {
    match e {
        FsEntry::Missing => Err(SizeTreeError::PathDoesNotExist),
        FsEntry::Other => Err(SizeTreeError::UnsuportedFileType),
        FsEntry::File { name, size: Ok(n) } => Ok(NodeModel { expanded: true, ..leaf(name, Some(n)) }),
        FsEntry::File { name, size: Err(x) } => Err(x),
        FsEntry::Dir { name, entries: Ok(v) } => Ok(NodeModel { expanded: true, ..scan_dir(name, v@) }),
        FsEntry::Dir { name, entries: Err(x) } => Err(x),
    }
}

/// Whether every file under an entry was measured and every directory under it was listed.
pub open spec fn error_free(e: FsEntry) -> bool
    decreases e, 0nat,
{
    match e {
        FsEntry::File { size: Err(_), .. } => false,
        FsEntry::Dir { entries: Err(_), .. } => false,
        FsEntry::Dir { entries: Ok(v), .. } => all_error_free(v@),
        _ => true,
    }
}

pub open spec fn all_error_free(es: Seq<FsEntry>) -> bool
    decreases es, 1nat,
{
    if es.len() == 0 {
        true
    } else {
        all_error_free(es.drop_last()) && error_free(es.last())
    }
}

/// The byte lengths of all regular files under an entry, transitively, summed.
pub open spec fn file_bytes(e: FsEntry) -> nat
    decreases e, 0nat,
{
    match e {
        FsEntry::File { size: Ok(n), .. } => n as nat,
        FsEntry::Dir { entries: Ok(v), .. } => all_file_bytes(v@),
        _ => 0,
    }
}

pub open spec fn all_file_bytes(es: Seq<FsEntry>) -> nat
    decreases es, 1nat,
{
    if es.len() == 0 {
        0
    } else {
        all_file_bytes(es.drop_last()) + file_bytes(es.last())
    }
}

proof fn lemma_all_file_bytes_bound(es: Seq<FsEntry>)
    ensures
        es.len() > 0 ==> all_file_bytes(es.drop_last()) <= all_file_bytes(es) && file_bytes(es.last())
            <= all_file_bytes(es),
{
}

proof fn lemma_error_free_child(e: FsEntry)
    requires
        is_kept(e),
        error_free(e),
        file_bytes(e) <= u64::MAX,
    ensures
        scan_child(e).size == Some(file_bytes(e) as u64),
    decreases e, 0nat,
{
    if let FsEntry::Dir { entries: Ok(v), .. } = e {
        assert(decreases_to!(e => e->Dir_entries));
        assert(decreases_to!(e->Dir_entries => v));
        lemma_error_free_total(v@);
    }
}

proof fn lemma_error_free_total(es: Seq<FsEntry>)
    requires
        all_error_free(es),
        all_file_bytes(es) <= u64::MAX,
    ensures
        dir_total(es) == all_file_bytes(es),
    decreases es, 1nat,
{
    if es.len() > 0 {
        lemma_all_file_bytes_bound(es);
        lemma_error_free_total(es.drop_last());
        if is_kept(es.last()) {
            lemma_error_free_child(es.last());
        }
        assert(contribution(es.last()) == file_bytes(es.last()));
    }
}

/// A directory whose whole subtree was measured and listed without failure reports as its size
/// the exact sum of the lengths of all regular files beneath it.
pub proof fn lemma_dir_size_is_file_bytes(e: FsEntry)
    requires
        e is Dir,
        error_free(e),
        file_bytes(e) <= u64::MAX,
    ensures
        scan_child(e).size == Some(file_bytes(e) as u64),
        scan_root(e) is Ok && scan_root(e)->Ok_0.size == Some(file_bytes(e) as u64),
{
    lemma_error_free_child(e);
}

proof fn lemma_total_remove(es: Seq<FsEntry>, i: int)
    requires
        0 <= i < es.len(),
    ensures
        dir_total(es) == dir_total(es.remove(i)) + contribution(es[i]),
    decreases es.len(),
{
    if i == es.len() - 1 {
        assert(es.remove(i) =~= es.drop_last());
    } else {
        lemma_total_remove(es.drop_last(), i);
        assert(es.remove(i).drop_last() =~= es.drop_last().remove(i));
        assert(es.remove(i).last() == es.last());
    }
}

proof fn lemma_total_permutation(es: Seq<FsEntry>, other: Seq<FsEntry>)
    requires
        es.to_multiset() == other.to_multiset(),
    ensures
        dir_total(es) == dir_total(other),
    decreases es.len(),
{
    vstd::seq_lib::to_multiset_len(es);
    vstd::seq_lib::to_multiset_len(other);
    if es.len() > 0 {
        let last = es.last();
        let init = es.drop_last();
        vstd::seq_lib::to_multiset_contains(es, last);
        assert(es.contains(last)) by {
            assert(es[es.len() - 1] == last);
        }
        vstd::seq_lib::to_multiset_contains(other, last);
        let k = choose|k: int| 0 <= k < other.len() && other[k] == last;
        assert(es.remove(es.len() - 1) =~= init);
        vstd::seq_lib::to_multiset_remove(es, es.len() - 1);
        vstd::seq_lib::to_multiset_remove(other, k);
        lemma_total_permutation(init, other.remove(k));
        lemma_total_remove(other, k);
    }
}

/// A directory's size does not depend on the order in which its entries were enumerated.
pub proof fn lemma_dir_size_order_independent(name: Option<String>, es: Seq<FsEntry>, other: Seq<FsEntry>)
    requires
        es.to_multiset() == other.to_multiset(),
    ensures
        scan_dir(name, es).size == scan_dir(name, other).size,
{
    lemma_total_permutation(es, other);
}

/// Whether an entry is a file that could not be measured or a directory that could not be listed.
pub open spec fn is_failed(e: FsEntry) -> bool {
    match e {
        FsEntry::File { size: Err(_), .. } => true,
        FsEntry::Dir { entries: Err(_), .. } => true,
        _ => false,
    }
}

pub open spec fn entry_name(e: FsEntry) -> Option<Seq<char>> {
    match e {
        FsEntry::File { name, .. } => name_view(name),
        FsEntry::Dir { name, .. } => name_view(name),
        _ => None,
    }
}

proof fn lemma_children_prefix(es: Seq<FsEntry>)
    ensures
        es.len() > 0 ==> scan_children(es.drop_last()) == scan_children(es).take(
            scan_children(es.drop_last()).len() as int,
        ),
{
    if es.len() > 0 {
        let init = scan_children(es.drop_last());
        assert(init =~= scan_children(es).take(init.len() as int));
    }
}

/// A directory holding an entry that failed still has a measured size, to which that entry
/// adds nothing, and the entry stands among its children with an absent size.
pub proof fn lemma_failed_entry_absorbed(name: Option<String>, es: Seq<FsEntry>, i: int)
    requires
        0 <= i < es.len(),
        is_failed(es[i]),
    ensures
        scan_dir(name, es).size is Some,
        dir_total(es) == dir_total(es.remove(i)),
        exists|j: int|
            0 <= j < scan_children(es).len() && #[trigger] scan_children(es)[j] == (NodeModel {
                name: entry_name(es[i]),
                size: None,
                children: Seq::empty(),
                expanded: false,
            }),
    decreases es.len(),
{
    let init = es.drop_last();
    let failed = NodeModel { name: entry_name(es[i]), size: None, children: Seq::empty(), expanded: false };
    assert(scan_child(es[i]) == failed);
    lemma_total_remove(es, i);
    if i == es.len() - 1 {
        assert(scan_children(es)[scan_children(init).len() as int] == failed);
    } else {
        lemma_failed_entry_absorbed(name, init, i);
        lemma_children_prefix(es);
        let j = choose|j: int|
            0 <= j < scan_children(init).len() && #[trigger] scan_children(init)[j] == failed;
        assert(scan_children(es)[j] == failed);
    }
}

fn copy_name(name: &Option<String>) -> (r: Option<String>)
    ensures
        name_view(r) == name_view(*name),
{
    match name {
        Some(n) => Some(n.clone()),
        None => None,
    }
}

/// Builds the node of a directory from the outcome of listing it.
pub fn collect_dir(name: &Option<String>, entries: &Result<Vec<FsEntry>, SizeTreeError>) -> (r:
    Result<FileTreeNode, SizeTreeError>)
    ensures
        match (*entries, r) {
            (Ok(v), Ok(n)) => n@ == scan_dir(*name, v@),
            (Err(x), Err(y)) => x == y,
            _ => false,
        },
    decreases *entries,
{
    let v = match entries {
        Ok(v) => v,
        Err(x) => return Err(*x),
    };
    let mut node = FileTreeNode::new(copy_name(name), None);
    let mut size: u64 = 0;
    let mut i: usize = 0;
    while i < v.len()
        invariant
            0 <= i <= v@.len(),
            *entries == Ok::<Vec<FsEntry>, SizeTreeError>(*v),
            node@ == (NodeModel { size: None, ..scan_dir(*name, v@.take(i as int)) }),
            size == saturate(dir_total(v@.take(i as int))),
        decreases v@.len() - i,
    {
        let ghost before = v@.take(i as int);
        assert(v@.take(i as int + 1).drop_last() == before);
        match &v[i] {
            FsEntry::File { name: child_name, size: Ok(n) } => {
                size = size.saturating_add(*n);
                node.add_child(FileTreeNode::new(copy_name(child_name), Some(*n)));
            },
            FsEntry::File { name: child_name, size: Err(_) } => {
                node.add_child(FileTreeNode::new(copy_name(child_name), None));
            },
            FsEntry::Dir { name: child_name, entries: child_entries } => {
                proof {
                    let e = *entries;
                    assert(decreases_to!(e => e->Ok_0));
                    assert(decreases_to!(e->Ok_0 => e->Ok_0[i as int]));
                    assert(decreases_to!(v[i as int] => v[i as int]->Dir_entries));
                }
                match collect_dir(child_name, child_entries) {
                    Ok(child) => {
                        size = size.saturating_add(
                            match child.size() {
                                Some(s) => s,
                                None => 0,
                            },
                        );
                        node.add_child(child);
                    },
                    Err(_) => {
                        node.add_child(FileTreeNode::new(copy_name(child_name), None));
                    },
                }
            },
            _ => {},
        }
        i = i + 1;
    }
    assert(v@.take(v@.len() as int) == v@);
    node.update_size(size);
    Ok(node)
}

/// Scans a root path: fails on what is fatal at the root, degrades below it.
pub fn collect_paths(base: &FsEntry) -> (r: Result<FileTree, SizeTreeError>)
    ensures
        match r {
            Ok(t) => scan_root(*base) == Ok::<NodeModel, SizeTreeError>(t.root@),
            Err(x) => scan_root(*base) == Err::<NodeModel, SizeTreeError>(x),
        },
        *base is Missing ==> r == Err::<FileTree, SizeTreeError>(SizeTreeError::PathDoesNotExist),
        match *base {
            FsEntry::File { size: Ok(n), .. } => r is Ok && r->Ok_0.root@.children.len() == 0
                && r->Ok_0.root@.size == Some(n),
            _ => true,
        },
{
    let mut root = match base {
        FsEntry::Missing => return Err(SizeTreeError::PathDoesNotExist),
        FsEntry::Other => return Err(SizeTreeError::UnsuportedFileType),
        FsEntry::File { name, size: Ok(n) } => FileTreeNode::new(copy_name(name), Some(*n)),
        FsEntry::File { size: Err(x), .. } => return Err(*x),
        FsEntry::Dir { name, entries } => collect_dir(name, entries)?,
    };
    root.expand();
    Ok(FileTree::new(root))
}

} // verus!
