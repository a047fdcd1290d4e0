use sizetree::errors::{IoErrorKind, SizeTreeError};
use sizetree::file_tree::{FileTree, FileTreeNode, PathTail};

#[test]
fn error_kinds_map_to_scan_errors() {
    assert_eq!(SizeTreeError::from(IoErrorKind::NotFound), SizeTreeError::PathDoesNotExist);
    assert_eq!(SizeTreeError::from(IoErrorKind::PermissionDenied), SizeTreeError::PermissionDenied);
    assert_eq!(SizeTreeError::from(IoErrorKind::Other), SizeTreeError::OtherIoError);
}

#[test]
fn node_starts_collapsed_and_toggles() {
    let mut node = FileTreeNode::new(Some("n".to_string()), None);
    assert!(!node.is_expanded());
    node.expand();
    assert!(node.is_expanded());
    node.collapse();
    assert!(!node.is_expanded());
}

#[test]
fn node_children_keep_insertion_order() {
    let mut node = FileTreeNode::new(Some("p".to_string()), None);
    node.add_child(FileTreeNode::new(Some("z".to_string()), Some(1)));
    node.add_child(FileTreeNode::new(Some("a".to_string()), Some(2)));
    let names: Vec<&str> = node.get_children().iter().map(|c| c.name()).collect();
    assert_eq!(names, vec!["z", "a"]);
    assert_eq!(node.size(), None);
    node.update_size(0);
    assert_eq!(node.size(), Some(0));
}

#[test]
fn unnamed_node_shows_placeholder() {
    let node = FileTreeNode::new(None, Some(3));
    assert_eq!(node.name(), "Could not find file name");
    let tree = FileTree::new(node);
    assert_eq!(tree.root.size(), Some(3));
}

#[test]
fn file_name_from_path_tail() {
    assert_eq!(FileTreeNode::file_name(PathTail::Name("a.txt".to_string())), Some("a.txt".to_string()));
    assert_eq!(FileTreeNode::file_name(PathTail::NotUtf8), None);
    assert_eq!(FileTreeNode::file_name(PathTail::NoName(Some("/home".to_string()))), Some("/home".to_string()));
    assert_eq!(
        FileTreeNode::file_name(PathTail::NoName(None)),
        Some("Could not get file name or path.".to_string())
    );
}
