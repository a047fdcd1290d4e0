use sizetree::errors::SizeTreeError;
use sizetree::file_tree::FileTreeNode;
use sizetree::scan::{collect_dir, collect_paths, FsEntry};

fn file(name: &str, size: u64) -> FsEntry {
    FsEntry::File { name: Some(name.to_string()), size: Ok(size) }
}

fn dir(name: &str, entries: Vec<FsEntry>) -> FsEntry {
    FsEntry::Dir { name: Some(name.to_string()), entries: Ok(entries) }
}

fn child_summary(node: &FileTreeNode) -> Vec<(String, Option<u64>)> {
    node.get_children().iter().map(|c| (c.name().to_string(), c.size())).collect()
}

#[test]
fn end_to_end_directory_scan() {
    let root = dir("tmp", vec![file("a.txt", 500), dir("sub", vec![file("b.txt", 1500)])]);
    let tree = collect_paths(&root).unwrap();
    assert_eq!(tree.root.size(), Some(2000));
    assert_eq!(
        child_summary(&tree.root),
        vec![("a.txt".to_string(), Some(500)), ("sub".to_string(), Some(1500))]
    );
    let sub = &tree.root.get_children()[1];
    assert_eq!(child_summary(sub), vec![("b.txt".to_string(), Some(1500))]);
    assert!(tree.root.is_expanded());
    assert!(!sub.is_expanded());
}

#[test]
fn missing_path_fails_with_path_does_not_exist() {
    assert!(matches!(collect_paths(&FsEntry::Missing), Err(SizeTreeError::PathDoesNotExist)));
}

#[test]
fn special_root_is_unsupported() {
    assert!(matches!(collect_paths(&FsEntry::Other), Err(SizeTreeError::UnsuportedFileType)));
}

#[test]
fn single_file_root() {
    let tree = collect_paths(&file("notes.txt", 1234)).unwrap();
    assert_eq!(tree.root.size(), Some(1234));
    assert!(tree.root.get_children().is_empty());
    assert_eq!(tree.root.name(), "notes.txt");
}

#[test]
fn unreadable_root_file_is_fatal() {
    let root = FsEntry::File { name: Some("x".to_string()), size: Err(SizeTreeError::PermissionDenied) };
    assert!(matches!(collect_paths(&root), Err(SizeTreeError::PermissionDenied)));
}

#[test]
fn unlistable_root_dir_is_fatal() {
    let root = FsEntry::Dir { name: Some("d".to_string()), entries: Err(SizeTreeError::OtherIoError) };
    assert!(matches!(collect_paths(&root), Err(SizeTreeError::OtherIoError)));
}

#[test]
fn denied_entries_degrade_to_absent_sizes() {
    let root = dir(
        "top",
        vec![
            file("ok.bin", 300),
            FsEntry::File { name: Some("secret".to_string()), size: Err(SizeTreeError::PermissionDenied) },
            FsEntry::Dir { name: Some("locked".to_string()), entries: Err(SizeTreeError::PermissionDenied) },
            dir("inner", vec![file("c", 7)]),
        ],
    );
    let tree = collect_paths(&root).unwrap();
    assert_eq!(tree.root.size(), Some(307));
    assert_eq!(
        child_summary(&tree.root),
        vec![
            ("ok.bin".to_string(), Some(300)),
            ("secret".to_string(), None),
            ("locked".to_string(), None),
            ("inner".to_string(), Some(7)),
        ]
    );
    assert!(tree.root.get_children()[2].get_children().is_empty());
}

#[test]
fn special_and_vanished_entries_are_skipped() {
    let root = dir("top", vec![FsEntry::Other, file("f", 10), FsEntry::Missing]);
    let tree = collect_paths(&root).unwrap();
    assert_eq!(tree.root.size(), Some(10));
    assert_eq!(child_summary(&tree.root), vec![("f".to_string(), Some(10))]);
}

#[test]
fn empty_directory_has_size_zero() {
    let tree = collect_paths(&dir("empty", vec![])).unwrap();
    assert_eq!(tree.root.size(), Some(0));
    assert!(tree.root.get_children().is_empty());
}

#[test]
fn directory_size_is_order_independent() {
    let a = collect_paths(&dir("d", vec![file("x", 1), dir("s", vec![file("y", 20)]), file("z", 300)])).unwrap();
    let b = collect_paths(&dir("d", vec![file("z", 300), file("x", 1), dir("s", vec![file("y", 20)])])).unwrap();
    assert_eq!(a.root.size(), Some(321));
    assert_eq!(b.root.size(), Some(321));
}

#[test]
fn totals_saturate_at_the_largest_size() {
    let tree = collect_paths(&dir("big", vec![file("a", u64::MAX), file("b", 5)])).unwrap();
    assert_eq!(tree.root.size(), Some(u64::MAX));
}

#[test]
fn collect_dir_builds_collapsed_node() {
    let name = Some("d".to_string());
    let node = collect_dir(&name, &Ok(vec![file("a", 1), file("b", 2)])).unwrap();
    assert_eq!(node.size(), Some(3));
    assert!(!node.is_expanded());
    assert_eq!(node.name(), "d");
    assert!(matches!(collect_dir(&name, &Err(SizeTreeError::PermissionDenied)), Err(SizeTreeError::PermissionDenied)));
}
