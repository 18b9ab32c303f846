//! Grid coordinates and compass directions with wraparound movement.
use vstd::prelude::*;
use vstd::set_lib::{lemma_int_range, lemma_len_subset, set_int_range};

verus! {

/// Side length of the square playing field, in cells.
pub const GRID_SIZE: u32 = 20;

/// One of the four compass directions the snake can travel in.
#[derive(Clone, Copy, Debug, PartialEq, Eq, Structural)]
pub enum Direction {
    Up,
    Down,
    Left,
    Right,
}

/// The direction pointing the other way.
pub open spec fn opposite_of(d: Direction) -> Direction {
    match d {
        Direction::Up => Direction::Down,
        Direction::Down => Direction::Up,
        Direction::Left => Direction::Right,
        Direction::Right => Direction::Left,
    }
}

impl Direction {
    /// The direction pointing the other way: Up and Down, Left and Right.
    pub fn opposite(&self) -> (r: Direction)
        ensures
            r == opposite_of(*self),
    {
        match self {
            Direction::Up => Direction::Down,
            Direction::Down => Direction::Up,
            Direction::Left => Direction::Right,
            Direction::Right => Direction::Left,
        }
    }
}

/// A cell of the grid, column `x` and row `y`, with row 0 at the top.
#[derive(Clone, Copy, Debug, PartialEq, Eq, Structural)]
pub struct Position {
    pub x: u32,
    pub y: u32,
}

/// The position lies on a grid of side `size`.
pub open spec fn in_grid(p: Position, size: int) -> bool {
    p.x < size && p.y < size
}

/// One step back along an axis of length `size`, wrapping from 0 to `size - 1`.
pub open spec fn wrap_dec(c: int, size: int) -> int {
    if c == 0 { size - 1 } else { c - 1 }
}

/// One step forward along an axis of length `size`, wrapping from `size - 1` to 0.
pub open spec fn wrap_inc(c: int, size: int) -> int {
    if c == size - 1 { 0 } else { c + 1 }
}

/// The cell one step from `p` in direction `d`, on a grid of side `size`.
pub open spec fn advanced(p: Position, d: Direction, size: int) -> Position {
    match d {
        Direction::Up => Position { x: p.x, y: wrap_dec(p.y as int, size) as u32 },
        Direction::Down => Position { x: p.x, y: wrap_inc(p.y as int, size) as u32 },
        Direction::Left => Position { x: wrap_dec(p.x as int, size) as u32, y: p.y },
        Direction::Right => Position { x: wrap_inc(p.x as int, size) as u32, y: p.y },
    }
}

impl Position {
    /// The cell one step away in direction `dir`; leaving the grid on one edge
    /// enters it again on the opposite edge.
    pub fn advance(&self, dir: Direction, grid_size: u32) -> (r: Position)
        requires
            0 < grid_size,
            in_grid(*self, grid_size as int),
        ensures
            r == advanced(*self, dir, grid_size as int),
            in_grid(r, grid_size as int),
    {
        let last = grid_size - 1;
        match dir {
            Direction::Up => Position { x: self.x, y: if self.y == 0 { last } else { self.y - 1 } },
            Direction::Down => Position { x: self.x, y: if self.y == last { 0 } else { self.y + 1 } },
            Direction::Left => Position { x: if self.x == 0 { last } else { self.x - 1 }, y: self.y },
            Direction::Right => Position { x: if self.x == last { 0 } else { self.x + 1 }, y: self.y },
        }
    }
}

/// The number of cells of the grid.
pub open spec fn cell_count() -> int {
    GRID_SIZE as int * GRID_SIZE as int
}

/// Every position of the sequence lies on the grid.
pub open spec fn all_in_grid(s: Seq<Position>) -> bool {
    forall|i: int| 0 <= i < s.len() ==> in_grid(#[trigger] s[i], GRID_SIZE as int)
}

/// The cell's place when the grid is read row by row.
pub open spec fn cell_index(p: Position) -> int {
    p.y as int * GRID_SIZE as int + p.x as int
}

proof fn lemma_cell_index_injective(p: Position, q: Position)
    requires
        in_grid(p, GRID_SIZE as int),
        in_grid(q, GRID_SIZE as int),
        cell_index(p) == cell_index(q),
    ensures
        p == q,
{
    let (px, py, qx, qy) = (p.x as int, p.y as int, q.x as int, q.y as int);
    assert(py == qy && px == qx) by (nonlinear_arith)
        requires
            0 <= px < 20,
            0 <= qx < 20,
            0 <= py,
            0 <= qy,
            py * 20 + px == qy * 20 + qx,
    ;
}

/// Distinct cells of the grid number at most as many as the grid has.
pub proof fn lemma_distinct_cells_bounded(s: Seq<Position>)
    requires
        s.no_duplicates(),
        all_in_grid(s),
    ensures
        s.len() <= cell_count(),
{
    let t = s.map_values(|p: Position| cell_index(p));
    assert forall|i: int, j: int| 0 <= i < t.len() && 0 <= j < t.len() && i != j implies t[i] != t[j] by {
        if t[i] == t[j] {
            lemma_cell_index_injective(s[i], s[j]);
        }
    }
    assert(t.no_duplicates());
    t.unique_seq_to_set();
    assert forall|v: int| t.to_set().contains(v) implies set_int_range(0, cell_count()).contains(v) by {
        let i = choose|i: int| 0 <= i < t.len() && t[i] == v;
        let p = s[i];
        assert(in_grid(p, GRID_SIZE as int));
        assert(0 <= cell_index(p) < cell_count()) by (nonlinear_arith)
            requires
                p.x < 20,
                p.y < 20,
                cell_index(p) == p.y as int * 20 + p.x as int,
                cell_count() == 400,
        ;
    }
    lemma_int_range(0, cell_count());
    lemma_len_subset(t.to_set(), set_int_range(0, cell_count()));
}

/// Turning around twice faces the original way.
pub proof fn lemma_opposite_involutive(d: Direction)
    ensures
        opposite_of(opposite_of(d)) == d,
{
}

/// A step in any direction from a cell of the grid lands on a cell of the
/// grid. Up from the top row lands on the bottom row and Down from the bottom
/// row on the top row; Left from the first column lands on the last column and
/// Right from the last column on the first.
pub proof fn lemma_wraparound(p: Position, d: Direction, grid_size: u32)
    requires
        0 < grid_size,
        in_grid(p, grid_size as int),
    ensures
        in_grid(advanced(p, d, grid_size as int), grid_size as int),
        p.y == 0 ==> advanced(p, Direction::Up, grid_size as int).y == grid_size - 1,
        p.y == grid_size - 1 ==> advanced(p, Direction::Down, grid_size as int).y == 0,
        p.x == 0 ==> advanced(p, Direction::Left, grid_size as int).x == grid_size - 1,
        p.x == grid_size - 1 ==> advanced(p, Direction::Right, grid_size as int).x == 0,
{
}

} // verus!
