use vstd::prelude::*;
use crate::grid::{Cell, Grid, GridError};

verus! {

/// Whether (row, col) lies on the outer ring of the grid.
pub open spec fn on_border(g: Grid, row: int, col: int) -> bool {
    row == 0 || col == 0 || row == g.spec_height() - 1 || col == g.spec_width() - 1
}

/// 1 when the cell at (row, col) is alive, else 0.
pub open spec fn live_at(g: Grid, row: int, col: int) -> nat {
    if g.cell(row, col).alive {
        1
    } else {
        0
    }
}

/// The number of live cells in the Moore neighbourhood of (row, col),
/// under the border policy: a cell on the outer ring is defined to
/// have zero neighbours, whatever actually stands next to it.
pub open spec fn neighbor_count(g: Grid, row: int, col: int) -> nat {
    if on_border(g, row, col) {
        0
    } else {
        live_at(g, row - 1, col - 1) + live_at(g, row - 1, col) + live_at(g, row - 1, col + 1)
            + live_at(g, row, col - 1) + live_at(g, row, col + 1) + live_at(g, row + 1, col - 1)
            + live_at(g, row + 1, col) + live_at(g, row + 1, col + 1)
    }
}

/// The transition rule for one cell. A live cell survives unchanged
/// with two or three live neighbours and otherwise dies at `frame`;
/// a dead cell comes alive with exactly three live neighbours and
/// otherwise stays dead with `die_time` reset to `-1`.
pub open spec fn next_cell(cur: Cell, n: nat, frame: isize) -> Cell {
    if cur.alive {
        if n == 2 || n == 3 {
            cur
        } else {
            Cell { alive: false, die_time: frame }
        }
    } else {
        if n == 3 {
            Cell { alive: true, die_time: -1isize }
        } else {
            Cell { alive: false, die_time: -1isize }
        }
    }
}

/// The cell the next generation holds at (row, col), given the current
/// generation and the frame being completed.
pub open spec fn stepped_cell(g: Grid, row: int, col: int, frame: isize) -> Cell {
    next_cell(g.cell(row, col), neighbor_count(g, row, col), frame)
}

/// Birth: a dead cell with exactly three live neighbours comes alive
/// in the next generation, with `die_time` at `-1`.
pub proof fn lemma_step_birth(g: Grid, row: int, col: int, frame: isize)
    requires
        !g.cell(row, col).alive,
        neighbor_count(g, row, col) == 3,
    ensures
        stepped_cell(g, row, col, frame) == (Cell { alive: true, die_time: -1isize }),
{
}

/// Survival: a live cell with two or three live neighbours is carried
/// into the next generation unchanged, its `die_time` included.
pub proof fn lemma_step_survival(g: Grid, row: int, col: int, frame: isize)
    requires
        g.cell(row, col).alive,
        neighbor_count(g, row, col) == 2 || neighbor_count(g, row, col) == 3,
    ensures
        stepped_cell(g, row, col, frame) == g.cell(row, col),
        stepped_cell(g, row, col, frame).alive,
{
}

/// Under- and overpopulation: a live cell with fewer than two or more
/// than three live neighbours is dead in the next generation, with
/// `die_time` stamped to the frame of the step.
pub proof fn lemma_step_death(g: Grid, row: int, col: int, frame: isize)
    requires
        g.cell(row, col).alive,
        neighbor_count(g, row, col) < 2 || neighbor_count(g, row, col) > 3,
    ensures
        stepped_cell(g, row, col, frame) == (Cell { alive: false, die_time: frame }),
{
}

/// Border decay: on any grid at least 2 wide and 2 high, a cell on the
/// outer ring has a neighbour count of zero, and after one step it is
/// dead, whatever stood around it.
pub proof fn lemma_border_dies(g: Grid, row: int, col: int, frame: isize)
    requires
        g.spec_width() >= 2,
        g.spec_height() >= 2,
        0 <= row < g.spec_height(),
        0 <= col < g.spec_width(),
        on_border(g, row, col),
    ensures
        neighbor_count(g, row, col) == 0,
        !stepped_cell(g, row, col, frame).alive,
{
}

/// An all-dead grid steps to an all-dead grid, with every `die_time`
/// reset to `-1`.
pub proof fn lemma_step_all_dead(g: Grid, frame: isize)
    requires
        forall|row: int, col: int|
            0 <= row < g.spec_height() && 0 <= col < g.spec_width() ==> !(#[trigger] g.cell(
                row,
                col,
            )).alive,
    ensures
        forall|row: int, col: int|
            0 <= row < g.spec_height() && 0 <= col < g.spec_width() ==> #[trigger] stepped_cell(
                g,
                row,
                col,
                frame,
            ) == Cell::dead(),
{
    assert forall|row: int, col: int|
        0 <= row < g.spec_height() && 0 <= col < g.spec_width() implies #[trigger] stepped_cell(
        g,
        row,
        col,
        frame,
    ) == Cell::dead() by {
        if !on_border(g, row, col) {
            assert(!g.cell(row - 1, col - 1).alive);
            assert(!g.cell(row - 1, col).alive);
            assert(!g.cell(row - 1, col + 1).alive);
            assert(!g.cell(row, col - 1).alive);
            assert(!g.cell(row, col + 1).alive);
            assert(!g.cell(row + 1, col - 1).alive);
            assert(!g.cell(row + 1, col).alive);
            assert(!g.cell(row + 1, col + 1).alive);
            assert(neighbor_count(g, row, col) == 0);
        }
    }
}

/// Counts the live Moore neighbours of (row, col); a cell on the outer
/// ring reports zero neighbours regardless of the adjacent content.
pub fn count_live_neighbors(grid: &Grid, row: usize, col: usize) -> (n: usize)
    requires
        grid.wf(),
        row < grid.spec_height(),
        col < grid.spec_width(),
    ensures
        n == neighbor_count(*grid, row as int, col as int),
{
    let height = grid.height();
    let width = grid.width();
    if row == 0 || col == 0 || row == height - 1 || col == width - 1 {
        return 0;
    }
    let mut n: usize = 0;
    if grid.at(row - 1, col - 1).alive {
        n += 1;
    }
    if grid.at(row - 1, col).alive {
        n += 1;
    }
    if grid.at(row - 1, col + 1).alive {
        n += 1;
    }
    if grid.at(row, col - 1).alive {
        n += 1;
    }
    if grid.at(row, col + 1).alive {
        n += 1;
    }
    if grid.at(row + 1, col - 1).alive {
        n += 1;
    }
    if grid.at(row + 1, col).alive {
        n += 1;
    }
    if grid.at(row + 1, col + 1).alive {
        n += 1;
    }
    n
}

/// `count_live_neighbors` under its (column, row) calling convention.
pub fn get_neighbours(board: &Grid, x: usize, y: usize) -> (n: usize)
    requires
        board.wf(),
        y < board.spec_height(),
        x < board.spec_width(),
    ensures
        n == neighbor_count(*board, y as int, x as int),
{
    count_live_neighbors(board, y, x)
}

/// Computes generation N+1 from generation N. Every cell of the result
/// is `stepped_cell` of the input grid, which is read and never
/// changed; a grid with a zero dimension is rejected with
/// `DimensionMismatch`.
pub fn step(grid: &Grid, current_frame: usize) -> (r: Result<Grid, GridError>)
    requires
        grid.wf(),
        current_frame <= isize::MAX,
    ensures
        (grid.spec_width() == 0 || grid.spec_height() == 0) <==> r is Err,
        r matches Err(e) ==> e == GridError::DimensionMismatch,
        r matches Ok(g2) ==> ({
            &&& g2.wf()
            &&& g2.spec_width() == grid.spec_width()
            &&& g2.spec_height() == grid.spec_height()
            &&& forall|row: int, col: int|
                0 <= row < grid.spec_height() && 0 <= col < grid.spec_width()
                    ==> #[trigger] g2.cell(row, col) == stepped_cell(
                    *grid,
                    row,
                    col,
                    current_frame as isize,
                )
        }),
{
    let height = grid.height();
    let width = grid.width();
    if width == 0 || height == 0 {
        return Err(GridError::DimensionMismatch);
    }
    let frame_stamp: isize = current_frame as isize;
    let mut rows: Vec<Vec<Cell>> = Vec::new();
    let mut r: usize = 0;
    while r < height
        invariant
            grid.wf(),
            width == grid.spec_width(),
            height == grid.spec_height(),
            frame_stamp >= 0,
            r <= height,
            rows@.len() == r,
            forall|i: int| 0 <= i < r ==> (#[trigger] rows@[i])@.len() == width,
            forall|i: int, j: int|
                0 <= i < r && 0 <= j < width ==> #[trigger] rows@[i]@[j] == stepped_cell(
                    *grid,
                    i,
                    j,
                    frame_stamp,
                ),
        decreases height - r,
    {
        let mut row: Vec<Cell> = Vec::new();
        let mut c: usize = 0;
        while c < width
            invariant
                grid.wf(),
                width == grid.spec_width(),
                height == grid.spec_height(),
                frame_stamp >= 0,
                r < height,
                c <= width,
                row@.len() == c,
                forall|j: int|
                    0 <= j < c ==> #[trigger] row@[j] == stepped_cell(*grid, r as int, j, frame_stamp),
            decreases width - c,
        {
            let n = count_live_neighbors(grid, r, c);
            let cur = grid.at(r, c);
            let next = if cur.alive {
                if n == 2 || n == 3 {
                    cur
                } else {
                    Cell { alive: false, die_time: frame_stamp }
                }
            } else {
                if n == 3 {
                    Cell { alive: true, die_time: -1 }
                } else {
                    Cell { alive: false, die_time: -1 }
                }
            };
            row.push(next);
            c += 1;
        }
        rows.push(row);
        r += 1;
    }
    proof {
        assert forall|i: int, j: int| 0 <= i < height && 0 <= j < width implies (#[trigger] rows@[i]@[j]).valid() by {
            grid.lemma_wf_cell_valid(i, j);
            assert(rows@[i]@[j] == stepped_cell(*grid, i, j, frame_stamp));
        }
    }
    Ok(Grid::from_rows(width, height, rows))
}

/// `step` under its board-centred name.
pub fn update_board(board: &Grid, frame: usize) -> (r: Result<Grid, GridError>)
    requires
        board.wf(),
        frame <= isize::MAX,
    ensures
        (board.spec_width() == 0 || board.spec_height() == 0) <==> r is Err,
        r matches Err(e) ==> e == GridError::DimensionMismatch,
        r matches Ok(g2) ==> ({
            &&& g2.wf()
            &&& g2.spec_width() == board.spec_width()
            &&& g2.spec_height() == board.spec_height()
            &&& forall|row: int, col: int|
                0 <= row < board.spec_height() && 0 <= col < board.spec_width()
                    ==> #[trigger] g2.cell(row, col) == stepped_cell(
                    *board,
                    row,
                    col,
                    frame as isize,
                )
        }),
{
    step(board, frame)
}

} // verus!
