use vstd::prelude::*;
use vstd::string::StringExecFns;
use crate::grid::Grid;

verus! {

/// The character that displays a cell: `'O'` for a live one, `'.'`
/// for a dead one.
pub open spec fn cell_char(alive: bool) -> char {
    if alive {
        'O'
    } else {
        '.'
    }
}

/// One text line per grid row, top row first. Each cell shows as its
/// display character followed by a space, so a line is twice the grid
/// width long.
pub fn render_rows(grid: &Grid) -> (lines: Vec<String>)
    requires
        grid.wf(),
    ensures
        lines@.len() == grid.spec_height(),
        forall|r: int|
            0 <= r < grid.spec_height() ==> (#[trigger] lines@[r])@.len() == 2 * grid.spec_width(),
        forall|r: int, c: int|
            0 <= r < grid.spec_height() && 0 <= c < grid.spec_width() ==> #[trigger] lines@[r]@[2
                * c] == cell_char(grid.cell(r, c).alive) && lines@[r]@[2 * c + 1] == ' ',
{
    let height = grid.height();
    let width = grid.width();
    let mut lines: Vec<String> = Vec::new();
    let mut r: usize = 0;
    while r < height
        invariant
            grid.wf(),
            width == grid.spec_width(),
            height == grid.spec_height(),
            r <= height,
            lines@.len() == r,
            forall|i: int| 0 <= i < r ==> (#[trigger] lines@[i])@.len() == 2 * width,
            forall|i: int, j: int|
                0 <= i < r && 0 <= j < width ==> #[trigger] lines@[i]@[2 * j] == cell_char(
                    grid.cell(i, j).alive,
                ) && lines@[i]@[2 * j + 1] == ' ',
        decreases height - r,
    {
        let mut line = String::new();
        let mut c: usize = 0;
        while c < width
            invariant
                grid.wf(),
                width == grid.spec_width(),
                height == grid.spec_height(),
                r < height,
                c <= width,
                line@.len() == 2 * c,
                forall|j: int|
                    0 <= j < c ==> #[trigger] line@[2 * j] == cell_char(grid.cell(r as int, j).alive)
                        && line@[2 * j + 1] == ' ',
            decreases width - c,
        {
            proof {
                reveal_strlit("O ");
                reveal_strlit(". ");
            }
            if grid.at(r, c).alive {
                line.append("O ");
            } else {
                line.append(". ");
            }
            c += 1;
        }
        lines.push(line);
        r += 1;
    }
    lines
}

} // verus!
