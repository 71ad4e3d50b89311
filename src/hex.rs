use vstd::prelude::*;

verus! {

/// The six directions from a hex to its neighbours.
#[derive(Clone, Copy, PartialEq, Eq, Structural, Debug)]
pub enum Direction {
    Left,
    UpperLeft,
    UpperRight,
    Right,
    LowerRight,
    LowerLeft,
}

impl Direction {
    /// The direction that leads back.
    pub open spec fn opposite(self) -> Direction {
        match self {
            Direction::Left => Direction::Right,
            Direction::UpperLeft => Direction::LowerRight,
            Direction::UpperRight => Direction::LowerLeft,
            Direction::Right => Direction::Left,
            Direction::LowerRight => Direction::UpperLeft,
            Direction::LowerLeft => Direction::UpperRight,
        }
    }
}

/// Number of hexes in `row` of a grid `width` hexes wide. Where the width is
/// odd, the odd rows, which sit half a hex to the right, hold one hex fewer so
/// that no row sticks out past the others.
pub open spec fn row_width(width: int, row: int) -> int {
    if width % 2 == 0 || row % 2 == 0 {
        width
    } else {
        width - 1
    }
}

/// Number of hexes in the first `rows` rows of a grid `width` hexes wide.
pub open spec fn hexes_in_rows(width: int, rows: nat) -> int
    decreases rows,
{
    if rows == 0 {
        0
    } else {
        hexes_in_rows(width, (rows - 1) as nat) + row_width(width, rows - 1)
    }
}

/// Number of hexes on a `width` by `height` grid: one fewer than
/// `width * height` for each odd row when the width is odd.
pub open spec fn tile_count(width: int, height: int) -> int {
    width * height - (width % 2) * (height / 2)
}

/// The rows of a grid together hold `tile_count` hexes.
pub proof fn lemma_tile_count(width: int, height: nat)
    ensures
        hexes_in_rows(width, height) == tile_count(width, height as int),
    decreases height,
{
    if height > 0 {
        lemma_tile_count(width, (height - 1) as nat);
        let h = height as int;
        assert(width * h == width * (h - 1) + width) by (nonlinear_arith);
        if width % 2 == 0 {
            assert((width % 2) * (h / 2) == 0);
            assert((width % 2) * ((h - 1) / 2) == 0);
        } else {
            assert((width % 2) * (h / 2) == h / 2);
            assert((width % 2) * ((h - 1) / 2) == (h - 1) / 2);
        }
    }
}

/// Whether (row, column) lies on a grid of the given size.
pub open spec fn in_grid(width: int, height: int, row: int, column: int) -> bool {
    0 <= row < height && 0 <= column < row_width(width, row)
}

/// The address one step from (row, column) towards `d`, before any bounds are
/// applied. Rows alternate in offset: from an even row the hexes above and
/// below lean left, from an odd row they lean right.
pub open spec fn step(row: int, column: int, d: Direction) -> (int, int) {
    if row % 2 == 0 {
        match d {
            Direction::Left => (row, column - 1),
            Direction::UpperLeft => (row - 1, column - 1),
            Direction::UpperRight => (row - 1, column),
            Direction::Right => (row, column + 1),
            Direction::LowerRight => (row + 1, column),
            Direction::LowerLeft => (row + 1, column - 1),
        }
    } else {
        match d {
            Direction::Left => (row, column - 1),
            Direction::UpperLeft => (row - 1, column),
            Direction::UpperRight => (row - 1, column + 1),
            Direction::Right => (row, column + 1),
            Direction::LowerRight => (row + 1, column + 1),
            Direction::LowerLeft => (row + 1, column),
        }
    }
}

/// The neighbour of (row, column) towards `d`, or `None` where that step
/// leaves the grid.
pub open spec fn neighbor_address(
    width: int,
    height: int,
    row: int,
    column: int,
    d: Direction,
) -> Option<(int, int)> {
    let (r, c) = step(row, column, d);
    if in_grid(width, height, r, c) {
        Some((r, c))
    } else {
        None
    }
}

/// Adjacency is symmetric: if B is the neighbour of A towards `d`, then A is
/// the neighbour of B in the opposite direction.
pub proof fn lemma_neighbor_symmetric(width: int, height: int, row: int, column: int, d: Direction)
    requires
        in_grid(width, height, row, column),
        neighbor_address(width, height, row, column, d) is Some,
    ensures
        ({
            let b = neighbor_address(width, height, row, column, d)->0;
            neighbor_address(width, height, b.0, b.1, d.opposite()) == Some((row, column))
        }),
{
}

/// A hex in the first row has nothing above it, one in the first column
/// nothing to its left, and one in the last row nothing below it.
pub proof fn lemma_boundary_absence(width: int, height: int, row: int, column: int)
    requires
        in_grid(width, height, row, column),
    ensures
        row == 0 ==> neighbor_address(width, height, row, column, Direction::UpperLeft) is None
            && neighbor_address(width, height, row, column, Direction::UpperRight) is None,
        column == 0 ==> neighbor_address(width, height, row, column, Direction::Left) is None,
        row == height - 1 ==> neighbor_address(width, height, row, column, Direction::LowerLeft) is None
            && neighbor_address(width, height, row, column, Direction::LowerRight) is None,
{
}

} // verus!
