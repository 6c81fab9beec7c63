//! Double-buffered grid of terminal cells: the consumer draws into the
//! `next` grid, then swaps and collects exactly the cells that differ from
//! what is already on screen.

use vstd::prelude::*;

verus! {

/// Mathematical image of one cell: its content and the empty marker.
pub struct CellView {
    pub content: Seq<char>,
    pub is_empty: bool,
}

/// One terminal cell: the escape-coded text to print there, and whether it
/// is the blank cell.
#[derive(Clone, PartialEq)]
pub struct Cell {
    pub content: String,
    pub is_empty: bool,
}

impl View for Cell {
    type V = CellView;

    open spec fn view(&self) -> CellView {
        CellView { content: self.content@, is_empty: self.is_empty }
    }
}

impl DeepView for Cell {
    type V = CellView;

    open spec fn deep_view(&self) -> CellView {
        self.view()
    }
}

/// The view a cell has after its content is set: empty exactly when the
/// content is a single space.
pub open spec fn spec_cell_with(content: Seq<char>) -> CellView {
    CellView { content, is_empty: content == seq![' '] }
}

/// The view of the blank cell.
pub open spec fn spec_blank_cell() -> CellView {
    spec_cell_with(seq![' '])
}

impl Cell {
    /// The blank cell: a single space, marked empty.
    pub fn new() -> (r: Self)
        ensures
            r@ == spec_blank_cell(),
    {
        let content = space_string();
        Cell { content, is_empty: true }
    }

    /// Replace the cell's content; the empty marker tracks whether the new
    /// content is a single space.
    pub fn set_content(&mut self, content: String)
        ensures
            final(self)@ == spec_cell_with(content@),
    {
        self.is_empty = is_space(content.as_str());
        self.content = content;
    }
}

/// A `String` holding one space.
fn space_string() -> (r: String)
    ensures
        r@ == seq![' '],
{
    let s = " ";
    proof {
        reveal_strlit(" ");
        assert(s@ =~= seq![' ']);
    }
    s.to_owned()
}

/// Whether the text is exactly one space character.
fn is_space(s: &str) -> (r: bool)
    ensures
        r == (s@ == seq![' ']),
{
    let n = s.unicode_len();
    if n != 1 {
        proof {
            assert(s@ != seq![' ']) by {
                assert(seq![' '].len() == 1);
            }
        }
        return false;
    }
    let c = s.get_char(0);
    proof {
        if c == ' ' {
            assert(s@ =~= seq![' ']);
        } else {
            assert(s@ != seq![' ']) by {
                assert(seq![' '][0] == ' ');
            }
        }
    }
    c == ' '
}

/// A well-formed grid: `height` rows of `width` cells each.
pub open spec fn grid_wf(rows: Seq<Seq<CellView>>, width: nat, height: nat) -> bool {
    &&& rows.len() == height
    &&& forall|y: int| 0 <= y < rows.len() ==> (#[trigger] rows[y]).len() == width
}

/// The double buffer: the grid currently on screen and the grid being
/// prepared, with their shared dimensions.
pub struct DoubleBuffer {
    pub current: Vec<Vec<Cell>>,
    pub next: Vec<Vec<Cell>>,
    pub width: usize,
    pub height: usize,
}

/// Both grids of a double buffer are well formed.
pub open spec fn buffer_wf(b: DoubleBuffer) -> bool {
    &&& grid_wf(b.current.deep_view(), b.width as nat, b.height as nat)
    &&& grid_wf(b.next.deep_view(), b.width as nat, b.height as nat)
}

/// A grid whose every cell is blank.
pub open spec fn spec_blank_grid(width: nat, height: nat) -> Seq<Seq<CellView>> {
    Seq::new(height, |y: int| Seq::new(width, |x: int| spec_blank_cell()))
}

/// The changes collected from one row prefix: the differing cells among
/// the first `x` columns of row `y`, in column order.
pub open spec fn spec_row_changes(
    cur: Seq<CellView>,
    nxt: Seq<CellView>,
    y: usize,
    x: int,
) -> Seq<(usize, usize, Seq<char>)>
    decreases x,
{
    if x <= 0 {
        Seq::empty()
    } else {
        let rest = spec_row_changes(cur, nxt, y, x - 1);
        if cur[x - 1] != nxt[x - 1] {
            rest.push((((x - 1) as usize), y, nxt[x - 1].content))
        } else {
            rest
        }
    }
}

/// The changes collected from the first `y` whole rows, row-major.
pub open spec fn spec_grid_changes(
    cur: Seq<Seq<CellView>>,
    nxt: Seq<Seq<CellView>>,
    width: nat,
    y: int,
) -> Seq<(usize, usize, Seq<char>)>
    decreases y,
{
    if y <= 0 {
        Seq::empty()
    } else {
        spec_grid_changes(cur, nxt, width, y - 1) + spec_row_changes(
            cur[y - 1],
            nxt[y - 1],
            ((y - 1) as usize),
            width as int,
        )
    }
}

impl DoubleBuffer {
    /// A buffer of the given dimensions with both grids blank.
    pub fn new(width: usize, height: usize) -> (r: Self)
        ensures
            r.width == width,
            r.height == height,
            buffer_wf(r),
            r.current.deep_view() == spec_blank_grid(width as nat, height as nat),
            r.next.deep_view() == spec_blank_grid(width as nat, height as nat),
    {
        let current = blank_grid(width, height);
        let next = blank_grid(width, height);
        DoubleBuffer { current, next, width, height }
    }

    /// Put content into a cell of the grid being prepared; coordinates
    /// outside the grid are ignored.
    pub fn set_cell(&mut self, x: usize, y: usize, content: String)
        requires
            buffer_wf(*old(self)),
        ensures
            buffer_wf(*final(self)),
            final(self).width == old(self).width,
            final(self).height == old(self).height,
            final(self).current == old(self).current,
            final(self).next.deep_view() == if x < old(self).width && y < old(self).height {
                old(self).next.deep_view().update(
                    y as int,
                    old(self).next.deep_view()[y as int].update(x as int, spec_cell_with(content@)),
                )
            } else {
                old(self).next.deep_view()
            },
    {
        if x < self.width && y < self.height {
            let mut cell = Cell::new();
            cell.set_content(content);
            proof {
                assert(self.next.deep_view()[y as int].len() == self.width as nat);
                assert(self.next.deep_view()[y as int] == self.next@[y as int].deep_view());
            }
            set_grid_cell(&mut self.next, x, y, cell);
            proof {
                lemma_grid_update_wf(
                    old(self).next.deep_view(),
                    x as int,
                    y as int,
                    spec_cell_with(content@),
                    self.width as nat,
                    self.height as nat,
                );
            }
        }
    }

    /// Blank every cell of the grid being prepared.
    pub fn clear_next(&mut self)
        requires
            buffer_wf(*old(self)),
        ensures
            buffer_wf(*final(self)),
            final(self).width == old(self).width,
            final(self).height == old(self).height,
            final(self).current == old(self).current,
            final(self).next.deep_view() == spec_blank_grid(
                old(self).width as nat,
                old(self).height as nat,
            ),
    {
        let fresh = blank_grid(self.width, self.height);
        self.next = fresh;
    }

    /// Swap the prepared grid onto the screen and hand back, row-major,
    /// every cell whose content differs from what was shown before.
    pub fn swap_and_get_changes(&mut self) -> (changes: Vec<(usize, usize, String)>)
        requires
            buffer_wf(*old(self)),
        ensures
            buffer_wf(*final(self)),
            final(self).width == old(self).width,
            final(self).height == old(self).height,
            final(self).current == old(self).next,
            final(self).next == old(self).current,
            changes.deep_view() == spec_grid_changes(
                old(self).current.deep_view(),
                old(self).next.deep_view(),
                old(self).width as nat,
                old(self).height as int,
            ),
    {
        let ghost cur = self.current.deep_view();
        let ghost nxt = self.next.deep_view();
        let mut changes: Vec<(usize, usize, String)> = Vec::new();
        let mut y: usize = 0;
        while y < self.height
            invariant
                buffer_wf(*self),
                *self == *old(self),
                y <= self.height,
                cur == self.current.deep_view(),
                nxt == self.next.deep_view(),
                changes.deep_view() == spec_grid_changes(cur, nxt, self.width as nat, y as int),
            decreases self.height - y,
        {
            let mut x: usize = 0;
            while x < self.width
                invariant
                    buffer_wf(*self),
                    *self == *old(self),
                    y < self.height,
                    x <= self.width,
                    cur == self.current.deep_view(),
                    nxt == self.next.deep_view(),
                    changes.deep_view() == spec_grid_changes(cur, nxt, self.width as nat, y as int)
                        + spec_row_changes(cur[y as int], nxt[y as int], y, x as int),
                decreases self.width - x,
            {
                proof {
                    assert(cur[y as int] == self.current@[y as int].deep_view());
                    assert(nxt[y as int] == self.next@[y as int].deep_view());
                    assert(cur[y as int].len() == self.width as nat);
                    assert(nxt[y as int].len() == self.width as nat);
                    assert(cur[y as int][x as int] == self.current@[y as int]@[x as int]@);
                    assert(nxt[y as int][x as int] == self.next@[y as int]@[x as int]@);
                }
                let differs = !cell_eq(&self.current[y][x], &self.next[y][x]);
                let ghost pre = changes.deep_view();
                if differs {
                    let content = self.next[y][x].content.clone();
                    let ghost cv = content@;
                    changes.push((x, y, content));
                    proof {
                        assert(changes.deep_view() =~= pre.push((x, y, cv)));
                    }
                }
                proof {
                    assert(changes.deep_view() =~= spec_grid_changes(
                        cur,
                        nxt,
                        self.width as nat,
                        y as int,
                    ) + spec_row_changes(cur[y as int], nxt[y as int], y, x as int + 1));
                }
                x = x + 1;
            }
            y = y + 1;
        }
        core::mem::swap(&mut self.current, &mut self.next);
        changes
    }
}

/// Whether two cells hold the same content and marker.
fn cell_eq(a: &Cell, b: &Cell) -> (r: bool)
    ensures
        r == (a@ == b@),
{
    let same = a.content.eq(&b.content) && a.is_empty == b.is_empty;
    proof {
        if same {
            assert(a@ =~= b@);
        }
    }
    same
}

/// A freshly blanked grid of the given dimensions.
fn blank_grid(width: usize, height: usize) -> (r: Vec<Vec<Cell>>)
    ensures
        r.deep_view() == spec_blank_grid(width as nat, height as nat),
        grid_wf(r.deep_view(), width as nat, height as nat),
{
    let mut rows: Vec<Vec<Cell>> = Vec::new();
    let mut y: usize = 0;
    while y < height
        invariant
            y <= height,
            rows@.len() == y,
            forall|j: int|
                0 <= j < y ==> (#[trigger] rows@[j]).deep_view() == Seq::new(
                    width as nat,
                    |x: int| spec_blank_cell(),
                ),
        decreases height - y,
    {
        let row = blank_row(width);
        rows.push(row);
        y = y + 1;
    }
    assert(rows.deep_view() =~~= spec_blank_grid(width as nat, height as nat));
    rows
}

/// A freshly blanked row of the given width.
fn blank_row(width: usize) -> (r: Vec<Cell>)
    ensures
        r.deep_view() == Seq::new(width as nat, |x: int| spec_blank_cell()),
{
    let mut row: Vec<Cell> = Vec::new();
    let mut x: usize = 0;
    while x < width
        invariant
            x <= width,
            row@.len() == x,
            forall|j: int| 0 <= j < x ==> (#[trigger] row@[j])@ == spec_blank_cell(),
        decreases width - x,
    {
        row.push(Cell::new());
        x = x + 1;
    }
    assert(row.deep_view() =~= Seq::new(width as nat, |x: int| spec_blank_cell()));
    row
}

/// Replace one cell of a grid, leaving everything else alone.
fn set_grid_cell(grid: &mut Vec<Vec<Cell>>, x: usize, y: usize, cell: Cell)
    requires
        y < old(grid)@.len(),
        x < old(grid)@[y as int]@.len(),
    ensures
        final(grid).deep_view() == old(grid).deep_view().update(
            y as int,
            old(grid).deep_view()[y as int].update(x as int, cell@),
        ),
{
    let ghost old_grid = grid.deep_view();
    let ghost cv = cell@;
    let mut row: Vec<Cell> = Vec::new();
    core::mem::swap(&mut row, &mut grid[y]);
    row[x] = cell;
    core::mem::swap(&mut row, &mut grid[y]);
    assert(grid.deep_view() =~~= old_grid.update(
        y as int,
        old_grid[y as int].update(x as int, cv),
    ));
}

/// Updating one cell keeps a grid well formed.
proof fn lemma_grid_update_wf(rows: Seq<Seq<CellView>>, x: int, y: int, c: CellView, w: nat, h: nat)
    requires
        grid_wf(rows, w, h),
        0 <= y < h,
        0 <= x < w,
    ensures
        grid_wf(rows.update(y, rows[y].update(x, c)), w, h),
{
}

} // verus!
