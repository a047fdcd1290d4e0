//! Disk-usage exploration: a scan of a directory tree into a tree of measured nodes, the
//! layout of its expanded part as display lines, and a grid of terminal cells to draw them in.

pub mod errors;
pub mod file_tree;
pub mod scan;
pub mod session;
pub mod size_utils;
pub mod tree_view;
pub mod tui;
