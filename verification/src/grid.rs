//! The grid: its size, its points and the four headings.

use vstd::prelude::*;

verus! {

/// Number of columns of the grid.
pub const SCREEN_WIDTH: i32 = 80;

/// Number of rows of the grid.
pub const SCREEN_HEIGHT: i32 = 50;

/// A cell of the grid, by column and row. Row 0 is the top row.
#[derive(Clone, Copy, Debug, PartialEq, Eq, Structural)]
pub struct Point {
    pub x: i32,
    pub y: i32,
}

/// A heading of the body.
#[derive(Clone, Copy, Debug, PartialEq, Eq, Structural)]
pub enum Direction {
    Up,
    Down,
    Left,
    Right,
}

/// The cells on which the body and the target may stand: strictly inside the
/// grid, so that column 0 and row 0 are out as well.
pub open spec fn in_bounds(p: Point) -> bool {
    0 < p.x < SCREEN_WIDTH && 0 < p.y < SCREEN_HEIGHT
}

/// Whether the head may move onto `point`.
pub fn is_valid_move(point: Point) -> (valid: bool)
    ensures
        valid == in_bounds(point),
{
    point.x > 0 && point.x < SCREEN_WIDTH && point.y > 0 && point.y < SCREEN_HEIGHT
}

/// The cells in columns 1 to `w` and rows 1 to `h`.
pub open spec fn block(w: int, h: int) -> Set<Point> {
    Set::new(|p: Point| 1 <= p.x <= w && 1 <= p.y <= h)
}

/// The cells of row `y` in columns 1 to `w`.
pub open spec fn row(w: int, y: int) -> Set<Point> {
    Set::new(|p: Point| 1 <= p.x <= w && p.y == y)
}

/// A row of `w` columns has `w` cells.
pub proof fn lemma_row_len(w: int, y: int)
    requires
        0 <= w <= i32::MAX,
        i32::MIN <= y <= i32::MAX,
    ensures
        row(w, y).finite(),
        row(w, y).len() == w,
    decreases w,
{
    if w == 0 {
        assert(row(w, y) =~= Set::empty());
    } else {
        lemma_row_len(w - 1, y);
        let last = Point { x: w as i32, y: y as i32 };
        assert(row(w, y) =~= row(w - 1, y).insert(last));
    }
}

/// A block of `w` columns and `h` rows has `w * h` cells.
pub proof fn lemma_block_len(w: int, h: int)
    requires
        0 <= w <= i32::MAX,
        0 <= h <= i32::MAX,
    ensures
        block(w, h).finite(),
        block(w, h).len() == w * h,
    decreases h,
{
    if h == 0 {
        assert(block(w, h) =~= Set::empty());
    } else {
        lemma_block_len(w, h - 1);
        lemma_row_len(w, h);
        assert(block(w, h) =~= block(w, h - 1) + row(w, h));
        vstd::set_lib::lemma_set_disjoint_lens(block(w, h - 1), row(w, h));
        assert(w * (h - 1) + w == w * h) by (nonlinear_arith);
    }
}

/// Cells that are all different and lie in one block are no more than the
/// block has.
pub proof fn lemma_len_in_block(cells: Seq<Point>, w: int, h: int)
    requires
        0 <= w <= i32::MAX,
        0 <= h <= i32::MAX,
        cells.no_duplicates(),
        forall|i: int| 0 <= i < cells.len() ==> block(w, h).contains(#[trigger] cells[i]),
    ensures
        cells.len() <= w * h,
{
    lemma_block_len(w, h);
    cells.unique_seq_to_set();
    vstd::set_lib::lemma_len_subset(cells.to_set(), block(w, h));
}

/// Cells that cover a block are no fewer than the block has.
pub proof fn lemma_len_over_block(cells: Seq<Point>, w: int, h: int)
    requires
        0 <= w <= i32::MAX,
        0 <= h <= i32::MAX,
        forall|p: Point| block(w, h).contains(p) ==> cells.contains(p),
    ensures
        cells.len() >= w * h,
{
    lemma_block_len(w, h);
    cells.lemma_cardinality_of_set();
    vstd::seq_lib::seq_to_set_is_finite(cells);
    vstd::set_lib::lemma_len_subset(block(w, h), cells.to_set());
}

impl Point {
    pub fn new(x: i32, y: i32) -> (p: Point)
        ensures
            p == (Point { x, y }),
    {
        Point { x, y }
    }

    /// The neighbour of this cell in the heading `d`. It is meant for cells
    /// next to which the grid's coordinates do not run out.
    pub open spec fn step(self, d: Direction) -> Point
        recommends
            i32::MIN < self.x < i32::MAX,
            i32::MIN < self.y < i32::MAX,
    {
        Point { x: (self.x + d.dx()) as i32, y: (self.y + d.dy()) as i32 }
    }

    /// The neighbour of this cell in the heading `d`.
    pub fn neighbour(self, d: Direction) -> (p: Point)
        requires
            i32::MIN < self.x < i32::MAX,
            i32::MIN < self.y < i32::MAX,
        ensures
            p == self.step(d),
            p.x == self.x + d.dx(),
            p.y == self.y + d.dy(),
    {
        match d {
            Direction::Up => Point::new(self.x, self.y - 1),
            Direction::Down => Point::new(self.x, self.y + 1),
            Direction::Left => Point::new(self.x - 1, self.y),
            Direction::Right => Point::new(self.x + 1, self.y),
        }
    }
}

impl Direction {
    /// Change of column of one step in this heading.
    pub open spec fn dx(self) -> int {
        match self {
            Direction::Left => -1,
            Direction::Right => 1,
            _ => 0,
        }
    }

    /// Change of row of one step in this heading.
    pub open spec fn dy(self) -> int {
        match self {
            Direction::Up => -1,
            Direction::Down => 1,
            _ => 0,
        }
    }

    /// The heading that points the other way.
    pub open spec fn reverse(self) -> Direction {
        match self {
            Direction::Up => Direction::Down,
            Direction::Down => Direction::Up,
            Direction::Left => Direction::Right,
            Direction::Right => Direction::Left,
        }
    }

    /// The heading that points the other way.
    pub fn opposite(self) -> (d: Direction)
        ensures
            d == self.reverse(),
    {
        match self {
            Direction::Up => Direction::Down,
            Direction::Down => Direction::Up,
            Direction::Left => Direction::Right,
            Direction::Right => Direction::Left,
        }
    }
}

} // verus!
