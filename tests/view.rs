use sizetree::file_tree::{FileTree, FileTreeNode};
use sizetree::session::{handle_input, Input};
use sizetree::tree_view::{draw_frame, get_tree_node_lines, get_tree_node_main_line, print_tree};
use sizetree::tui::Tui;

fn node(name: &str, size: Option<u64>) -> FileTreeNode {
    FileTreeNode::new(Some(name.to_string()), size)
}

fn sample() -> FileTreeNode {
    let mut sub = node("sub", Some(1500));
    sub.add_child(node("b.txt", Some(1500)));
    let mut root = node("tmp", Some(2000));
    root.add_child(node("a.txt", Some(500)));
    root.add_child(sub);
    root
}

#[test]
fn main_line_right_aligns_size() {
    let line = get_tree_node_main_line(&node("a.txt", Some(500)), 20, 0);
    assert_eq!(line, "a.txt      500 B");
    assert_eq!(line.chars().count(), 16);
    let indented = get_tree_node_main_line(&node("a.txt", Some(500)), 20, 2);
    assert_eq!(indented, "  a.txt    500 B");
}

#[test]
fn absent_size_shows_question_mark() {
    assert_eq!(get_tree_node_main_line(&node("x", None), 10, 0), "x    ?");
}

#[test]
fn narrow_width_clamps_fill() {
    assert_eq!(get_tree_node_main_line(&node("long_name", Some(5)), 8, 2), "  long_name5 B");
}

#[test]
fn collapsed_node_gives_one_line() {
    let lines = get_tree_node_lines(&sample(), 30, 0);
    assert_eq!(lines.len(), 1);
}

#[test]
fn expanded_node_lists_children_in_order() {
    let mut root = sample();
    root.expand();
    let lines = get_tree_node_lines(&root, 24, 0);
    assert_eq!(
        lines,
        vec![
            format!("tmp{}2.00 KB", " ".repeat(10)),
            format!("  a.txt{}500 B", " ".repeat(8)),
            format!("  sub{}1.50 KB", " ".repeat(8)),
        ]
    );
    assert!(lines.iter().all(|l| l.chars().count() == 20));
}

#[test]
fn nested_expansion_indents_deeper() {
    let mut root = node("r", Some(1));
    let mut sub = node("s", Some(1));
    sub.add_child(node("f", Some(1)));
    sub.expand();
    root.add_child(sub);
    root.expand();
    let lines = get_tree_node_lines(&root, 14, 0);
    assert_eq!(
        lines,
        vec![
            format!("r{}1 B", " ".repeat(6)),
            format!("  s{}1 B", " ".repeat(4)),
            format!("    f{}1 B", " ".repeat(2)),
        ]
    );
}

#[test]
fn print_writes_glyphs_at_position() {
    let mut tui = Tui::new(6, 2);
    tui.print("ab", 1, 1);
    assert_eq!(tui.flush(), vec!["      ".to_string(), " ab   ".to_string()]);
}

#[test]
fn print_may_fill_a_row_exactly() {
    let mut tui = Tui::new(3, 1);
    tui.print("xyz", 0, 0);
    assert_eq!(tui.flush(), vec!["xyz".to_string()]);
}

#[test]
fn resize_then_flush_is_blank() {
    let mut tui = Tui::new(4, 2);
    tui.print("abcd", 0, 0);
    tui.resize(3, 5);
    assert_eq!(tui.width(), 3);
    assert_eq!(tui.height(), 5);
    let rows = tui.flush();
    assert_eq!(rows.len(), 5);
    assert!(rows.iter().all(|r| r == "   "));
}

#[test]
fn clear_keeps_dimensions() {
    let mut tui = Tui::new(4, 2);
    tui.print("ab", 2, 1);
    tui.clear();
    assert_eq!(tui.flush(), vec!["    ".to_string(), "    ".to_string()]);
}

#[test]
fn print_clipped_cuts_at_row_end() {
    let mut tui = Tui::new(5, 1);
    tui.print_clipped("abcdef", 2, 0);
    tui.print_clipped("zz", 0, 3);
    assert_eq!(tui.flush(), vec!["  abc".to_string()]);
}

#[test]
fn frame_shows_title_and_tree() {
    let mut root = node("tmp", Some(2000));
    root.add_child(node("a.txt", Some(500)));
    root.expand();
    let tree = FileTree::new(root);
    let mut tui = Tui::new(24, 5);
    tui.print("junk", 0, 4);
    draw_frame(&mut tui, &tree);
    assert_eq!(
        tui.flush(),
        vec![
            format!("  sizetree{}", " ".repeat(14)),
            " ".repeat(24),
            format!("  tmp{}2.00 KB  ", " ".repeat(10)),
            format!("    a.txt{}500 B  ", " ".repeat(8)),
            " ".repeat(24),
        ]
    );
}

#[test]
fn print_tree_stops_at_the_last_row() {
    let mut root = node("r", Some(1));
    root.add_child(node("a", Some(1)));
    root.add_child(node("b", Some(1)));
    root.expand();
    let tree = FileTree::new(root);
    let mut tui = Tui::new(12, 3);
    print_tree(&mut tui, &tree);
    assert_eq!(tui.flush(), vec![" ".repeat(12), " ".repeat(12), format!("  r{}1 B  ", " ".repeat(4))]);
}

#[test]
fn input_quits_or_resizes() {
    let mut tui = Tui::new(2, 2);
    assert!(handle_input(&mut tui, Input::Char('q')));
    assert!(handle_input(&mut tui, Input::Esc));
    assert!(!handle_input(&mut tui, Input::Char('x')));
    assert!(!handle_input(&mut tui, Input::Other));
    assert!(!handle_input(&mut tui, Input::Resize(7, 3)));
    assert_eq!(tui.width(), 7);
    assert_eq!(tui.flush(), vec!["       ".to_string(); 3]);
}
