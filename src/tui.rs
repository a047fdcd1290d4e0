use vstd::prelude::*;

verus! {

/// The colour of a cell's glyph or background; only the terminal's default is used so far.
#[derive(Debug, Clone, Copy, PartialEq, Eq, Structural)]
pub enum CellColor {
    Reset,
}

/// One character position of the terminal.
#[derive(Debug, Clone, Copy, PartialEq, Eq, Structural)]
pub struct Cell {
    pub ch: char,
    pub fg: CellColor,
    pub bg: CellColor,
}

pub open spec fn blank() -> Cell {
    Cell { ch: ' ', fg: CellColor::Reset, bg: CellColor::Reset }
}

pub open spec fn blank_row(width: nat) -> Seq<Cell> {
    Seq::new(width, |_j: int| blank())
}

/// A grid of `height` rows of `width` blank cells.
pub open spec fn blank_grid(width: nat, height: nat) -> Seq<Seq<Cell>> {
    Seq::new(height, |_i: int| blank_row(width))
}

/// A row with the glyphs of `text` written from column `x`, colours kept.
pub open spec fn written(row: Seq<Cell>, text: Seq<char>, x: int) -> Seq<Cell> {
    Seq::new(
        row.len(),
        |j: int|
            if x <= j < x + text.len() {
                with_glyph(row[j], text[j - x])
            } else {
                row[j]
            },
    )
}

/// A cell with its glyph replaced.
pub open spec fn with_glyph(c: Cell, ch: char) -> Cell {
    Cell { ch, ..c }
}

/// The glyphs of a row, left to right.
pub open spec fn glyphs(row: Seq<Cell>) -> Seq<char> {
    row.map_values(|c: Cell| c.ch)
}

/// The part of `text` that fits in a row of `row_len` cells from column `x`.
pub open spec fn clipped(text: Seq<char>, x: int, row_len: int) -> Seq<char> {
    if text.len() <= row_len - x {
        text
    } else {
        text.take(row_len - x)
    }
}

/// The grid with `text` written into row `y` from column `x`, cut at the row's end;
/// unchanged where the row does not exist or starts after its end.
pub open spec fn put_clipped(grid: Seq<Seq<Cell>>, text: Seq<char>, x: int, y: int) -> Seq<Seq<Cell>> {
    if 0 <= y < grid.len() && 0 <= x <= grid[y].len() {
        grid.update(y, written(grid[y], clipped(text, x, grid[y].len() as int), x))
    } else {
        grid
    }
}

/// A grid just resized to `width` by `height` has exactly `height` rows, and a full redraw of
/// it shows in each exactly `width` blank glyphs: nothing outside the new grid, nothing from
/// before.
pub proof fn lemma_resized_grid_is_blank(width: nat, height: nat)
    ensures
        blank_grid(width, height).len() == height,
        forall|i: int|
            0 <= i < height ==> #[trigger] glyphs(blank_grid(width, height)[i]) == Seq::new(
                width,
                |_j: int| ' ',
            ),
{
    assert forall|i: int| 0 <= i < height implies #[trigger] glyphs(blank_grid(width, height)[i])
        == Seq::new(width, |_j: int| ' ') by {
        assert(glyphs(blank_grid(width, height)[i]) =~= Seq::new(width, |_j: int| ' '));
    }
}

impl Cell {
    pub fn new() -> (r: Self)
        ensures
            r == blank(),
    {
        Self { ch: ' ', fg: CellColor::Reset, bg: CellColor::Reset }
    }
}

/// Relies on `String::push`: appends one character.
#[verifier::external_body]
fn push_char(s: &mut String, c: char)
    ensures
        final(s)@ == old(s)@.push(c),
{
    s.push(c)
}

/// The terminal's contents as a grid of cells, redrawn whole on each flush.
pub struct Tui {
    width: usize,
    buffer: Vec<Vec<Cell>>,
}

impl View for Tui {
    type V = Seq<Seq<Cell>>;

    closed spec fn view(&self) -> Seq<Seq<Cell>> {
        self.buffer@.map_values(|r: Vec<Cell>| r@)
    }
}

fn blank_rows(width: usize, height: usize) -> (r: Vec<Vec<Cell>>)
    ensures
        r@.map_values(|row: Vec<Cell>| row@) == blank_grid(width as nat, height as nat),
{
    let mut rows: Vec<Vec<Cell>> = Vec::new();
    let mut i: usize = 0;
    while i < height
        invariant
            i <= height,
            rows@.len() == i,
            forall|k: int| 0 <= k < i ==> #[trigger] rows@[k]@ == blank_row(width as nat),
        decreases height - i,
    {
        let mut row: Vec<Cell> = Vec::new();
        let mut j: usize = 0;
        while j < width
            invariant
                j <= width,
                row@ == blank_row(j as nat),
            decreases width - j,
        {
            row.push(Cell::new());
            j = j + 1;
            assert(row@ =~= blank_row(j as nat));
        }
        rows.push(row);
        i = i + 1;
    }
    assert(rows@.map_values(|row: Vec<Cell>| row@) =~= blank_grid(width as nat, height as nat));
    rows
}

impl Tui {
    /// The width the grid was last given.
    pub closed spec fn spec_width(&self) -> usize {
        self.width
    }

    pub fn width(&self) -> (r: usize)
        ensures
            r == self.spec_width(),
    {
        self.width
    }

    /// A blank grid of the given dimensions.
    pub fn new(width: usize, height: usize) -> (r: Self)
        ensures
            r@ == blank_grid(width as nat, height as nat),
            r.spec_width() == width,
    {
        Self { width, buffer: blank_rows(width, height) }
    }

    /// Replaces the grid by a blank one of the new dimensions.
    pub fn resize(&mut self, width: usize, height: usize)
        ensures
            final(self)@ == blank_grid(width as nat, height as nat),
            final(self).spec_width() == width,
    {
        self.buffer = blank_rows(width, height);
        self.width = width;
    }

    pub fn height(&self) -> (r: usize)
        ensures
            r == self@.len(),
    {
        self.buffer.len()
    }

    /// Writes what fits of `line` into row `y` from column `x`; nothing where the row is missing.
    pub fn print_clipped(&mut self, line: &str, x: usize, y: usize)
        ensures
            final(self)@ == put_clipped(old(self)@, line@, x as int, y as int),
            final(self).spec_width() == old(self).spec_width(),
    {
        if y < self.buffer.len() && x <= self.buffer[y].len() {
            let room = self.buffer[y].len() - x;
            let n = line.unicode_len();
            if n <= room {
                self.print(line, x, y);
            } else {
                let part = line.substring_char(0, room);
                self.print(part, x, y);
            }
        }
    }

    /// Writes the glyphs of `line` into row `y` from column `x`.
    #[verifier::loop_isolation(false)]
    pub fn print(&mut self, line: &str, x: usize, y: usize)
        requires
            y < old(self)@.len(),
            x + line@.len() <= old(self)@[y as int].len(),
        ensures
            final(self)@ == old(self)@.update(y as int, written(old(self)@[y as int], line@, x as int)),
            final(self).spec_width() == old(self).spec_width(),
    {
        let n = line.unicode_len();
        let mut row: Vec<Cell> = Vec::new();
        self.buffer.set_and_swap(y, &mut row);
        let ghost orig = row@;
        let rl = row.len();
        let mut i: usize = 0;
        while i < n
            invariant
                n == line@.len(),
                rl == row@.len(),
                i <= n,
                orig == old(self)@[y as int],
                x + n <= orig.len(),
                row@.len() == orig.len(),
                forall|j: int|
                    0 <= j < orig.len() ==> #[trigger] row@[j] == if x <= j < x + i {
                        with_glyph(orig[j], line@[j - x])
                    } else {
                        orig[j]
                    },
            decreases n - i,
        {
            let mut cell = row[x + i];
            cell.ch = line.get_char(i);
            row.set(x + i, cell);
            i = i + 1;
        }
        let ghost before = self.buffer@;
        self.buffer.set(y, row);
        assert forall|j: int| 0 <= j < orig.len() implies #[trigger] row@[j] == written(orig, line@, x as int)[j] by {
            assert(row@[j] == if x <= j < x + n {
                with_glyph(orig[j], line@[j - x])
            } else {
                orig[j]
            });
        }
        assert(row@ =~= written(orig, line@, x as int));
        assert(self@ =~= old(self)@.update(y as int, written(old(self)@[y as int], line@, x as int)))
            by {
            assert(self.buffer@ == before.update(y as int, row));
        }
    }

    /// The glyphs of every row as one string each, top to bottom: what a full redraw shows.
    pub fn flush(&self) -> (r: Vec<String>)
        ensures
            r@.len() == self@.len(),
            forall|i: int| 0 <= i < r@.len() ==> #[trigger] r@[i]@ == glyphs(self@[i]),
    {
        let mut out: Vec<String> = Vec::new();
        let mut y: usize = 0;
        while y < self.buffer.len()
            invariant
                y <= self@.len(),
                self@.len() == self.buffer@.len(),
                out@.len() == y,
                forall|i: int| 0 <= i < y ==> #[trigger] out@[i]@ == glyphs(self@[i]),
            decreases self.buffer@.len() - y,
        {
            let row = &self.buffer[y];
            let mut display_line = String::new();
            let mut x: usize = 0;
            while x < row.len()
                invariant
                    x <= row@.len(),
                    row@ == self@[y as int],
                    display_line@ == glyphs(row@.take(x as int)),
                decreases row@.len() - x,
            {
                push_char(&mut display_line, row[x].ch);
                x = x + 1;
                assert(row@.take(x as int) =~= row@.take(x as int - 1).push(row@[x as int - 1]));
            }
            assert(row@.take(row@.len() as int) =~= row@);
            out.push(display_line);
            y = y + 1;
        }
        out
    }

    /// Resets every cell to blank in place, keeping the dimensions.
    #[verifier::loop_isolation(false)]
    pub fn clear(&mut self)
        ensures
            final(self)@ == old(self)@.map_values(|r: Seq<Cell>| blank_row(r.len())),
            final(self).spec_width() == old(self).spec_width(),
    {
        let mut y: usize = 0;
        while y < self.buffer.len()
            invariant
                y <= self@.len(),
                self@.len() == old(self)@.len(),
                self.spec_width() == old(self).spec_width(),
                forall|i: int|
                    0 <= i < self@.len() ==> #[trigger] self@[i] == if i < y {
                        blank_row(old(self)@[i].len())
                    } else {
                        old(self)@[i]
                    },
            decreases self@.len() - y,
        {
            let ghost pre = self@;
            let mut row: Vec<Cell> = Vec::new();
            self.buffer.set_and_swap(y, &mut row);
            let ghost orig = row@;
            assert(orig == pre[y as int]);
            let mut x: usize = 0;
            while x < row.len()
                invariant
                    x <= row@.len(),
                    row@.len() == orig.len(),
                    forall|j: int| 0 <= j < orig.len() ==> #[trigger] row@[j] == if j < x {
                        blank()
                    } else {
                        orig[j]
                    },
                decreases row@.len() - x,
            {
                let mut cell = row[x];
                cell.ch = ' ';
                cell.fg = CellColor::Reset;
                cell.bg = CellColor::Reset;
                row.set(x, cell);
                x = x + 1;
            }
            assert(row@ =~= blank_row(orig.len()));
            let ghost before = self.buffer@;
            self.buffer.set(y, row);
            assert(self.buffer@ == before.update(y as int, row));
            assert forall|i: int| 0 <= i < self@.len() implies #[trigger] self@[i] == if i == y {
                row@
            } else {
                pre[i]
            } by {
                assert(self@[i] == self.buffer@[i]@);
            }
            y = y + 1;
        }
        assert(self@ =~= old(self)@.map_values(|r: Seq<Cell>| blank_row(r.len())));
    }
}

} // verus!
