use vstd::prelude::*;

use crate::file_tree::{lemma_models_index, name_text, FileTree, FileTreeNode, NodeModel};
use crate::tui::{blank_row, put_clipped, Cell, Tui};
use crate::size_utils::{human_readable, human_size};

verus! {

/// Spaces added to the indentation at each level, and the margin kept on each side.
pub const PADDING: usize = 2;

pub open spec fn spaces(n: nat) -> Seq<char> {
    Seq::new(n, |_i: int| ' ')
}

/// The text of the size column: the formatted size, or `?` where it is absent.
pub open spec fn size_text(size: Option<u64>) -> Seq<char> {
    match size {
        Some(s) => human_size(s as nat),
        None => seq!['?'],
    }
}

/// The indentation of the children of a node indented by `padding`.
pub open spec fn child_indent(padding: usize) -> usize {
    if padding <= usize::MAX - PADDING {
        (padding + PADDING) as usize
    } else {
        usize::MAX
    }
}

/// The spaces between name and size, so that the line spans the width less both margins;
/// none where name and size do not fit.
pub open spec fn fill_width(width: nat, padding: nat, name_len: nat, size_len: nat) -> nat {
    let used = padding + 2 * PADDING + name_len + size_len;
    if width >= used {
        (width - used) as nat
    } else {
        0
    }
}

/// The display line of one node.
pub open spec fn main_line(m: NodeModel, width: usize, padding: usize) -> Seq<char> {
    let name = name_text(m.name);
    let size = size_text(m.size);
    spaces(padding as nat) + name + spaces(fill_width(width as nat, padding as nat, name.len(), size.len()))
        + size
}

/// The lines of a node: its own, then, where it is expanded, those of each child in order.
pub open spec fn flatten(m: NodeModel, width: usize, padding: usize) -> Seq<Seq<char>>
    decreases m, 1nat,
{
    seq![main_line(m, width, padding)] + if m.expanded {
        flatten_all(m.children, width, child_indent(padding))
    } else {
        Seq::empty()
    }
}

/// The lines of a sequence of sibling nodes, concatenated in order.
pub open spec fn flatten_all(ms: Seq<NodeModel>, width: usize, padding: usize) -> Seq<Seq<char>>
    decreases ms, 0nat,
{
    if ms.len() == 0 {
        Seq::empty()
    } else {
        flatten(ms[0], width, padding) + flatten_all(ms.drop_first(), width, padding)
    }
}

proof fn lemma_flatten_all_concat(ms: Seq<NodeModel>, width: usize, padding: usize)
    ensures
        flatten_all(ms, width, padding) == Seq::new(ms.len(), |i: int| flatten(ms[i], width, padding)).flatten(),
    decreases ms.len(),
{
    let parts = Seq::new(ms.len(), |i: int| flatten(ms[i], width, padding));
    if ms.len() > 0 {
        let rest = ms.drop_first();
        lemma_flatten_all_concat(rest, width, padding);
        assert(parts.drop_first() =~= Seq::new(rest.len(), |i: int| flatten(rest[i], width, padding)));
    }
}

/// A collapsed node gives exactly its own line; an expanded one gives its own line followed by
/// the lines of each child, in order, one level deeper.
pub proof fn lemma_flatten_shape(m: NodeModel, width: usize, padding: usize)
    ensures
        !m.expanded ==> flatten(m, width, padding) == seq![main_line(m, width, padding)],
        m.expanded ==> flatten(m, width, padding) == seq![main_line(m, width, padding)] + Seq::new(
            m.children.len(),
            |i: int| flatten(m.children[i], width, child_indent(padding)),
        ).flatten(),
{
    if m.expanded {
        lemma_flatten_all_concat(m.children, width, child_indent(padding));
    } else {
        assert(flatten(m, width, padding) =~= seq![main_line(m, width, padding)]);
    }
}

pub open spec fn texts(v: Seq<String>) -> Seq<Seq<char>> {
    v.map_values(|s: String| s@)
}

fn push_spaces(s: &mut String, n: usize)
    ensures
        final(s)@ == old(s)@ + spaces(n as nat),
{
    let mut i: usize = 0;
    while i < n
        invariant
            i <= n,
            s@ == old(s)@ + spaces(i as nat),
        decreases n - i,
    {
        proof {
            reveal_strlit(" ");
        }
        s.append(" ");
        i = i + 1;
        assert(s@ =~= old(s)@ + spaces(i as nat));
    }
}

/// The display line of `node`: indentation, name, fill and size, spanning `width` less the margins
/// where they fit.
pub fn get_tree_node_main_line(node: &FileTreeNode, width: usize, padding: usize) -> (r: String)
    ensures
        r@ == main_line(node@, width, padding),
{
    let name = node.name();
    let size = match node.size() {
        Some(s) => human_readable(s),
        None => {
            let mut q = String::new();
            q.append("?");
            proof {
                reveal_strlit("?");
            }
            q
        },
    };
    let name_len = name.unicode_len();
    let size_len = size.as_str().unicode_len();
    let mut fill: usize = 0;
    if width >= padding && width - padding >= 2 * PADDING {
        let rest = width - padding - 2 * PADDING;
        if rest >= name_len && rest - name_len >= size_len {
            fill = rest - name_len - size_len;
        }
    }
    assert(fill == fill_width(width as nat, padding as nat, name@.len(), size@.len()));
    let mut line = String::new();
    push_spaces(&mut line, padding);
    line.append(name);
    push_spaces(&mut line, fill);
    line.append(size.as_str());
    line
}

/// All display lines of the expanded part of the tree under `node`, in order.
pub fn get_tree_node_lines(node: &FileTreeNode, width: usize, padding: usize) -> (r: Vec<String>)
    ensures
        texts(r@) == flatten(node@, width, padding),
    decreases node@,
{
    let mut lines: Vec<String> = Vec::new();
    lines.push(get_tree_node_main_line(node, width, padding));
    if node.is_expanded() {
        let children = node.get_children();
        let indent = padding.saturating_add(PADDING);
        let ghost ms = node@.children;
        proof {
            lemma_models_index(children@);
            assert(ms.skip(0) =~= ms);
            assert(texts(lines@) =~= seq![main_line(node@, width, padding)]);
        }
        let mut i: usize = 0;
        while i < children.len()
            invariant
                i <= children@.len(),
                ms.len() == children@.len(),
                forall|j: int| 0 <= j < ms.len() ==> #[trigger] ms[j] == children@[j]@,
                ms == node@.children,
                node@.expanded,
                indent == child_indent(padding),
                flatten(node@, width, padding) == texts(lines@) + flatten_all(ms.skip(i as int), width, indent),
            decreases children@.len() - i,
        {
            let child = &children[i];
            proof {
                assert(decreases_to!(node@ => node@.children));
                assert(decreases_to!(node@.children => node@.children[i as int]));
            }
            let mut child_lines = get_tree_node_lines(child, width, indent);
            let ghost prev = lines@;
            lines.append(&mut child_lines);
            proof {
                let rest = ms.skip(i as int);
                assert(rest[0] == ms[i as int]);
                assert(rest.drop_first() =~= ms.skip(i as int + 1));
                assert(texts(lines@) =~= texts(prev) + flatten(ms[i as int], width, indent));
            }
            i = i + 1;
        }
        assert(ms.skip(ms.len() as int) =~= Seq::<NodeModel>::empty());
    } else {
        assert(texts(lines@) =~= flatten(node@, width, padding));
    }
    lines
}

/// The grid with the first `n` of `lines` written one per row, from row and column `PADDING`.
pub open spec fn put_lines(grid: Seq<Seq<Cell>>, lines: Seq<Seq<char>>, n: nat) -> Seq<Seq<Cell>>
    decreases n,
{
    if n == 0 {
        grid
    } else {
        put_clipped(put_lines(grid, lines, (n - 1) as nat), lines[n - 1], PADDING as int, n - 1 + PADDING)
    }
}

/// The grid showing the expanded part of a tree laid out for `width` columns.
pub open spec fn tree_drawn(grid: Seq<Seq<Cell>>, root: NodeModel, width: usize) -> Seq<Seq<Cell>> {
    let lines = flatten(root, width, 0);
    put_lines(grid, lines, lines.len())
}

/// What a frame shows: a cleared grid, the title, then the tree.
pub open spec fn frame(grid: Seq<Seq<Cell>>, root: NodeModel, width: usize) -> Seq<Seq<Cell>> {
    let cleared = grid.map_values(|r: Seq<Cell>| blank_row(r.len()));
    tree_drawn(put_clipped(cleared, TITLE@, PADDING as int, 0), root, width)
}

/// The title shown on the top row.
pub const TITLE: &'static str = "sizetree";

/// Writes the lines of the tree into the grid, below the title row.
pub fn print_tree(tui: &mut Tui, tree: &FileTree)
    ensures
        final(tui)@ == tree_drawn(old(tui)@, tree.root@, old(tui).spec_width()),
        final(tui).spec_width() == old(tui).spec_width(),
{
    let lines = get_tree_node_lines(&tree.root, tui.width(), 0);
    let ghost texts_all = texts(lines@);
    let mut i: usize = 0;
    while i < lines.len()
        invariant
            i <= lines@.len(),
            texts_all == texts(lines@),
            texts_all == flatten(tree.root@, old(tui).spec_width(), 0),
            tui@ == put_lines(old(tui)@, texts_all, i as nat),
            tui.spec_width() == old(tui).spec_width(),
        decreases lines@.len() - i,
    {
        let h = tui.height();
        if i < h && h - i > PADDING {
            tui.print_clipped(lines[i].as_str(), PADDING, i + PADDING);
        }
        i = i + 1;
    }
}

/// Composes a whole frame: clears the grid, writes the title, then the tree.
pub fn draw_frame(tui: &mut Tui, tree: &FileTree)
    ensures
        final(tui)@ == frame(old(tui)@, tree.root@, old(tui).spec_width()),
        final(tui).spec_width() == old(tui).spec_width(),
{
    tui.clear();
    tui.print_clipped(TITLE, PADDING, 0);
    print_tree(tui, tree);
}

} // verus!
