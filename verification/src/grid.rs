use vstd::prelude::*;
use crate::rng::pick_in_range;

verus! {

/// One grid position: the current life state and the frame index at
/// which the cell last transitioned from alive to dead. A `die_time`
/// of `-1` means the cell has never died.
#[derive(Clone, Copy, PartialEq, Eq, Structural, Debug)]
pub struct Cell {
    pub alive: bool,
    pub die_time: isize,
}

impl Cell {
    /// `die_time` is `-1` or a frame number.
    pub open spec fn valid(self) -> bool {
        self.die_time >= -1
    }

    /// The default state: dead and never died.
    pub open spec fn dead() -> Cell {
        Cell { alive: false, die_time: -1isize }
    }

    /// The state a randomly seeded cell is given: alive at frame 0.
    pub open spec fn seeded() -> Cell {
        Cell { alive: true, die_time: 0isize }
    }
}

/// The error kinds the library reports.
#[derive(Clone, Copy, PartialEq, Eq, Structural, Debug)]
pub enum GridError {
    /// Zero width or height was supplied to `Grid::new`.
    InvalidDimension,
    /// An out-of-range cell access.
    IndexOutOfBounds,
    /// A generation step was asked of a grid with a zero dimension.
    DimensionMismatch,
}

/// A `height` by `width` board of cells, addressed by (row, column)
/// with row in `[0, height)` and column in `[0, width)`.
pub struct Grid {
    cells: Vec<Vec<Cell>>,
    width: usize,
    height: usize,
}

impl Grid {
    /// Column count.
    pub closed spec fn spec_width(self) -> int {
        self.width as int
    }

    /// Row count.
    pub closed spec fn spec_height(self) -> int {
        self.height as int
    }

    /// The cell at (row, col).
    pub closed spec fn cell(self, row: int, col: int) -> Cell {
        self.cells@[row]@[col]
    }

    /// Well-formed: the cell array matches the dimensions and every
    /// cell's `die_time` is `-1` or a frame number.
    pub closed spec fn wf(self) -> bool {
        &&& self.cells@.len() == self.height
        &&& forall|r: int|
            0 <= r < self.height ==> (#[trigger] self.cells@[r])@.len() == self.width
        &&& forall|r: int, c: int|
            0 <= r < self.height && 0 <= c < self.width ==> (#[trigger] self.cells@[r]@[c]).valid()
    }

    /// In a well-formed grid every in-range cell satisfies `Cell::valid`.
    pub proof fn lemma_wf_cell_valid(self, row: int, col: int)
        requires
            self.wf(),
            0 <= row < self.spec_height(),
            0 <= col < self.spec_width(),
        ensures
            self.cell(row, col).valid(),
    {
    }

    /// A fresh grid in which every cell is dead and has never died.
    /// Zero width or height is rejected with `InvalidDimension`.
    pub fn new(width: usize, height: usize) -> (r: Result<Grid, GridError>)
        ensures
            (width == 0 || height == 0) <==> r is Err,
            r matches Err(e) ==> e == GridError::InvalidDimension,
            r matches Ok(g) ==> ({
                &&& g.wf()
                &&& g.spec_width() == width
                &&& g.spec_height() == height
                &&& forall|row: int, col: int|
                    0 <= row < height && 0 <= col < width ==> #[trigger] g.cell(row, col)
                        == Cell::dead()
            }),
    {
        if width == 0 || height == 0 {
            return Err(GridError::InvalidDimension);
        }
        let mut cells: Vec<Vec<Cell>> = Vec::new();
        let mut r: usize = 0;
        while r < height
            invariant
                r <= height,
                cells@.len() == r,
                forall|i: int| 0 <= i < r ==> (#[trigger] cells@[i])@.len() == width,
                forall|i: int, j: int|
                    0 <= i < r && 0 <= j < width ==> #[trigger] cells@[i]@[j] == Cell::dead(),
            decreases height - r,
        {
            let mut row: Vec<Cell> = Vec::new();
            let mut c: usize = 0;
            while c < width
                invariant
                    c <= width,
                    row@.len() == c,
                    forall|j: int| 0 <= j < c ==> #[trigger] row@[j] == Cell::dead(),
                decreases width - c,
            {
                row.push(Cell { alive: false, die_time: -1 });
                c += 1;
            }
            cells.push(row);
            r += 1;
        }
        Ok(Grid { cells, width, height })
    }

    /// Column count.
    pub fn width(&self) -> (w: usize)
        ensures
            w == self.spec_width(),
    {
        self.width
    }

    /// Row count.
    pub fn height(&self) -> (h: usize)
        ensures
            h == self.spec_height(),
    {
        self.height
    }

    /// The cell at (row, col); an out-of-range address is rejected
    /// with `IndexOutOfBounds`.
    pub fn get(&self, row: usize, col: usize) -> (r: Result<Cell, GridError>)
        requires
            self.wf(),
        ensures
            (row < self.spec_height() && col < self.spec_width()) <==> r is Ok,
            r matches Ok(c) ==> c == self.cell(row as int, col as int),
            r matches Err(e) ==> e == GridError::IndexOutOfBounds,
    {
        if row < self.height && col < self.width {
            Ok(self.cells[row][col])
        } else {
            Err(GridError::IndexOutOfBounds)
        }
    }

    /// Overwrites the cell at (row, col); an out-of-range address is
    /// rejected with `IndexOutOfBounds` and leaves the grid unchanged.
    pub fn set_cell(&mut self, row: usize, col: usize, cell: Cell) -> (r: Result<(), GridError>)
        requires
            old(self).wf(),
            cell.valid(),
        ensures
            final(self).wf(),
            final(self).spec_width() == old(self).spec_width(),
            final(self).spec_height() == old(self).spec_height(),
            (row < old(self).spec_height() && col < old(self).spec_width()) <==> r is Ok,
            r matches Err(e) ==> e == GridError::IndexOutOfBounds,
            r is Ok ==> final(self).cell(row as int, col as int) == cell,
            forall|i: int, j: int|
                0 <= i < old(self).spec_height() && 0 <= j < old(self).spec_width() && !(i == row
                    && j == col) ==> #[trigger] final(self).cell(i, j) == old(self).cell(i, j),
    {
        if row < self.height && col < self.width {
            self.cells[row][col] = cell;
            Ok(())
        } else {
            Err(GridError::IndexOutOfBounds)
        }
    }

    /// Sets `count` interior cells, chosen independently and uniformly
    /// at random with replacement, to alive with `die_time = 0`;
    /// duplicate picks overwrite, so fewer than `count` distinct cells
    /// may end up live. Cells on the outer ring are never touched, and
    /// a grid too small to have interior cells (width or height below
    /// 3) is left unchanged, as is any grid when `count` is 0.
    pub fn seed_random(&mut self, count: usize, rng: &mut rand::rngs::ThreadRng)
        requires
            old(self).wf(),
        ensures
            final(self).wf(),
            final(self).spec_width() == old(self).spec_width(),
            final(self).spec_height() == old(self).spec_height(),
            forall|row: int, col: int|
                0 <= row < old(self).spec_height() && 0 <= col < old(self).spec_width()
                    ==> #[trigger] final(self).cell(row, col) == old(self).cell(row, col) || (1
                    <= row < old(self).spec_height() - 1 && 1 <= col < old(self).spec_width() - 1
                    && final(self).cell(row, col) == Cell::seeded()),
            (count == 0 || old(self).spec_width() < 3 || old(self).spec_height() < 3)
                ==> forall|row: int, col: int|
                0 <= row < old(self).spec_height() && 0 <= col < old(self).spec_width()
                    ==> #[trigger] final(self).cell(row, col) == old(self).cell(row, col),
            (count >= 1 && old(self).spec_width() >= 3 && old(self).spec_height() >= 3)
                ==> exists|row: int, col: int|
                1 <= row < old(self).spec_height() - 1 && 1 <= col < old(self).spec_width() - 1
                    && #[trigger] final(self).cell(row, col) == Cell::seeded(),
    {
        if count == 0 || self.width < 3 || self.height < 3 {
            return ;
        }
        let mut k: usize = 0;
        while k < count
            invariant
                k <= count,
                self.width == old(self).width,
                self.height == old(self).height,
                3 <= self.width,
                3 <= self.height,
                self.cells@.len() == self.height,
                forall|i: int|
                    0 <= i < self.height ==> (#[trigger] self.cells@[i])@.len() == self.width,
                forall|i: int, j: int|
                    0 <= i < self.height && 0 <= j < self.width ==> #[trigger] self.cells@[i]@[j]
                        == old(self).cells@[i]@[j] || (1 <= i < self.height - 1 && 1 <= j
                        < self.width - 1 && self.cells@[i]@[j] == Cell::seeded()),
                k >= 1 ==> exists|i: int, j: int|
                    1 <= i < self.height - 1 && 1 <= j < self.width - 1
                        && #[trigger] self.cells@[i]@[j] == Cell::seeded(),
            decreases count - k,
        {
            let row = pick_in_range(rng, 1, self.height - 1);
            let col = pick_in_range(rng, 1, self.width - 1);
            self.cells[row][col] = Cell { alive: true, die_time: 0 };
            k += 1;
            proof {
                assert(self.cells@[row as int]@[col as int] == Cell::seeded());
            }
        }
        proof {
            let (i, j) = choose|i: int, j: int|
                1 <= i < self.height - 1 && 1 <= j < self.width - 1
                    && #[trigger] self.cells@[i]@[j] == Cell::seeded();
            assert(self.cell(i, j) == Cell::seeded());
        }
    }

    /// Reads a cell that is known to be in range.
    pub(crate) fn at(&self, row: usize, col: usize) -> (c: Cell)
        requires
            self.wf(),
            row < self.spec_height(),
            col < self.spec_width(),
        ensures
            c == self.cell(row as int, col as int),
    {
        self.cells[row][col]
    }

    /// Assembles a grid from ready-made rows.
    pub(crate) fn from_rows(width: usize, height: usize, cells: Vec<Vec<Cell>>) -> (g: Grid)
        requires
            cells@.len() == height,
            forall|r: int| 0 <= r < height ==> (#[trigger] cells@[r])@.len() == width,
            forall|r: int, c: int|
                0 <= r < height && 0 <= c < width ==> (#[trigger] cells@[r]@[c]).valid(),
        ensures
            g.wf(),
            g.spec_width() == width,
            g.spec_height() == height,
            forall|r: int, c: int|
                0 <= r < height && 0 <= c < width ==> #[trigger] g.cell(r, c) == cells@[r]@[c],
    {
        Grid { cells, width, height }
    }
}

} // verus!
