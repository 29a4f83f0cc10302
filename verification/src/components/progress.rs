//! Progress indicators: spinners and the cell path of the pixel-snake
//! spinner.
use vstd::prelude::*;
use crate::foundation::{Intent, Size};

verus! {

/// How a spinner is drawn.
#[derive(Clone, Copy, Debug, PartialEq, Eq, Structural)]
pub enum SpinnerStyle {
    Ticks,
    Signal,
    PixelSnake,
    SquareSnake,
}

impl Default for SpinnerStyle {
    fn default() -> (r: Self)
        ensures
            r == SpinnerStyle::Ticks,
    {
        SpinnerStyle::Ticks
    }
}

/// An indeterminate activity indicator.
#[derive(Clone, Copy, Debug, PartialEq, Eq, Structural)]
pub struct Spinner {
    pub intent: Intent,
    pub size: Size,
    pub style: SpinnerStyle,
}

impl Spinner {
    /// A primary, medium spinner drawn with ticks.
    pub fn new() -> (r: Self)
        ensures
            r == (Spinner { intent: Intent::Primary, size: Size::Medium, style: SpinnerStyle::Ticks }),
    {
        Spinner { intent: Intent::Primary, size: Size::Medium, style: SpinnerStyle::Ticks }
    }

    pub fn intent(self, intent: Intent) -> (r: Self)
        ensures
            r == (Spinner { intent, ..self }),
    {
        Spinner { intent, ..self }
    }

    pub fn size(self, size: Size) -> (r: Self)
        ensures
            r == (Spinner { size, ..self }),
    {
        Spinner { size, ..self }
    }

    pub fn style(self, style: SpinnerStyle) -> (r: Self)
        ensures
            r == (Spinner { style, ..self }),
    {
        Spinner { style, ..self }
    }
}

impl Default for Spinner {
    fn default() -> (r: Self)
        ensures
            r == (Spinner { intent: Intent::Primary, size: Size::Medium, style: SpinnerStyle::Ticks }),
    {
        Spinner::new()
    }
}

/// The side of the snake's square grid: at least three cells.
pub open spec fn snake_side(grid: int) -> int {
    if grid < 3 {
        3
    } else {
        grid
    }
}

/// Number of cells on the border of a `g` by `g` grid.
pub open spec fn snake_len(g: int) -> int {
    4 * (g - 1)
}

/// The `k`-th border cell, as (column, row), walking clockwise from the
/// top-left corner: the top row left to right, the right column down, the
/// bottom row right to left, the left column up.
pub open spec fn snake_cell(g: int, k: int) -> (int, int) {
    if k < g {
        (k, 0)
    } else if k < 2 * g - 1 {
        (g - 1, k - g + 1)
    } else if k < 3 * g - 2 {
        (3 * g - 3 - k, g - 1)
    } else {
        (0, 4 * g - 4 - k)
    }
}

/// The cells of the pixel-snake path on a grid of side `max(grid, 3)`.
pub open spec fn snake_path(grid: int) -> Seq<(int, int)> {
    let g = snake_side(grid);
    Seq::new(snake_len(g) as nat, |k: int| snake_cell(g, k))
}

/// Two cells share a side.
pub open spec fn adjacent(a: (int, int), b: (int, int)) -> bool {
    ||| a.0 == b.0 && (a.1 - b.1 == 1 || b.1 - a.1 == 1)
    ||| a.1 == b.1 && (a.0 - b.0 == 1 || b.0 - a.0 == 1)
}

/// The (column, row) cells that the pixel-snake spinner lights in turn.
pub fn pixel_snake_path(grid: usize) -> (r: Vec<(usize, usize)>)
    requires
        grid < 0x1000_0000,
    ensures
        r@.len() == snake_path(grid as int).len(),
        forall|k: int| 0 <= k < r@.len() ==> (#[trigger] r@[k].0 as int, r@[k].1 as int) == snake_path(grid as int)[k],
{
    let g: usize = if grid < 3 { 3 } else { grid };
    let ghost gi = g as int;
    let mut cells: Vec<(usize, usize)> = Vec::new();
    let mut column: usize = 0;
    while column < g
        invariant
            gi == g, 3 <= g < 0x1000_0000,
            column <= g,
            cells@.len() == column,
            forall|k: int| 0 <= k < cells@.len() ==> (#[trigger] cells@[k].0 as int, cells@[k].1 as int) == snake_cell(gi, k),
        decreases g - column,
    {
        cells.push((column, 0));
        column = column + 1;
    }
    let mut row: usize = 1;
    while row < g
        invariant
            gi == g, 3 <= g < 0x1000_0000,
            1 <= row <= g,
            cells@.len() == g + row - 1,
            forall|k: int| 0 <= k < cells@.len() ==> (#[trigger] cells@[k].0 as int, cells@[k].1 as int) == snake_cell(gi, k),
        decreases g - row,
    {
        cells.push((g - 1, row));
        row = row + 1;
    }
    let mut back: usize = g - 1;
    while back > 0
        invariant
            gi == g, 3 <= g < 0x1000_0000,
            back <= g - 1,
            cells@.len() == 2 * g - 1 + (g - 1 - back),
            forall|k: int| 0 <= k < cells@.len() ==> (#[trigger] cells@[k].0 as int, cells@[k].1 as int) == snake_cell(gi, k),
        decreases back,
    {
        cells.push((back - 1, g - 1));
        back = back - 1;
    }
    let mut up: usize = g - 1;
    while up > 1
        invariant
            gi == g, 3 <= g < 0x1000_0000,
            1 <= up <= g - 1,
            cells@.len() == 3 * g - 2 + (g - 1 - up),
            forall|k: int| 0 <= k < cells@.len() ==> (#[trigger] cells@[k].0 as int, cells@[k].1 as int) == snake_cell(gi, k),
        decreases up,
    {
        cells.push((0, up - 1));
        up = up - 1;
    }
    cells
}

/// The pixel snake is a closed walk around the border: every cell shares a
/// side with the next, and the last with the first.
pub proof fn lemma_snake_closed_walk(grid: int, k: int)
    requires
        0 <= k < snake_path(grid).len(),
    ensures
        adjacent(snake_path(grid)[k], snake_path(grid)[(k + 1) % snake_path(grid).len() as int]),
{
    let g = snake_side(grid);
    let n = snake_len(g);
    if k + 1 < n {
        vstd::arithmetic::div_mod::lemma_small_mod((k + 1) as nat, n as nat);
    } else {
        vstd::arithmetic::div_mod::lemma_mod_self_0(n);
    }
}

/// Every cell of the path lies on the border of the grid, and no cell
/// comes twice.
pub proof fn lemma_snake_on_border_and_distinct(grid: int, i: int, j: int)
    requires
        0 <= i < snake_path(grid).len(),
        0 <= j < snake_path(grid).len(),
        i != j,
    ensures
        ({
            let g = snake_side(grid);
            let c = snake_path(grid)[i];
            &&& 0 <= c.0 < g
            &&& 0 <= c.1 < g
            &&& (c.0 == 0 || c.0 == g - 1 || c.1 == 0 || c.1 == g - 1)
        }),
        snake_path(grid)[i] != snake_path(grid)[j],
{
}

} // verus!
