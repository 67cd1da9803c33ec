//! The target, and where a new one is put.

use crate::grid::{block, lemma_len_over_block, Point, SCREEN_HEIGHT, SCREEN_WIDTH};
use crate::random::draw;
use crate::snake::Snake;
use bracket_lib::random::RandomNumberGenerator;
use vstd::pervasive::unreached;
use vstd::prelude::*;

verus! {

/// Draws after which a new target is no longer left to chance: it then
/// takes the first free cell.
pub const MAX_DRAWS: u32 = 1000;

/// The number of cells among which a new target is drawn.
pub const SPAWN_CELLS: usize = 3744;

/// The cells among which a new target is drawn.
pub open spec fn in_spawn_area(p: Point) -> bool {
    1 <= p.x < SCREEN_WIDTH - 1 && 1 <= p.y < SCREEN_HEIGHT - 1
}

/// Whether a new target may be put on `p` while `taken` is occupied.
pub open spec fn is_free(taken: Seq<Point>, p: Point) -> bool {
    in_spawn_area(p) && !taken.contains(p)
}

/// Whether there is a cell left for a new target while `taken` is occupied.
pub open spec fn free_cell_exists(taken: Seq<Point>) -> bool {
    exists|p: Point| is_free(taken, p)
}

/// The cells of the body, and before them `also`, where there is one.
pub open spec fn with_cell(body: Seq<Point>, also: Option<Point>) -> Seq<Point> {
    match also {
        Some(p) => seq![p] + body,
        None => body,
    }
}

/// Fewer cells than there are to draw from leave one of them free.
pub proof fn lemma_free_cell(taken: Seq<Point>)
    requires
        taken.len() < SPAWN_CELLS,
    ensures
        free_cell_exists(taken),
{
    if !free_cell_exists(taken) {
        let w: int = 78;
        let h: int = 48;
        assert forall|p: Point| block(w, h).contains(p) implies taken.contains(p) by {
            assert(!is_free(taken, p));
        }
        lemma_len_over_block(taken, w, h);
    }
}

/// Whether `p` comes before `q` when the grid is read row by row.
pub open spec fn reads_before(p: Point, q: Point) -> bool {
    p.y < q.y || (p.y == q.y && p.x < q.x)
}

/// Whether `p` is the first free cell, reading row by row.
pub open spec fn is_first_free(taken: Seq<Point>, p: Point) -> bool {
    &&& is_free(taken, p)
    &&& forall|q: Point| in_spawn_area(q) && reads_before(q, p) ==> taken.contains(q)
}

/// The target that the snake is after.
#[derive(Clone, Copy, Debug)]
pub struct Food {
    point: Point,
}

impl View for Food {
    type V = Point;

    closed spec fn view(&self) -> Point {
        self.point
    }
}

impl std::ops::Deref for Food {
    type Target = Point;

    fn deref(&self) -> (p: &Point)
        ensures
            *p == self@,
    {
        &self.point
    }
}

impl Food {
    pub fn new(x: i32, y: i32) -> (food: Food)
        ensures
            food@ == (Point { x, y }),
    {
        Food { point: Point::new(x, y) }
    }

    /// The target of a new game: a quarter of the way into the grid.
    pub fn with_default() -> (food: Food)
        ensures
            food@ == (Point { x: 20, y: 12 }),
    {
        Food::new(SCREEN_WIDTH / 4, SCREEN_HEIGHT / 4)
    }

    /// The cell on which the target lies.
    pub fn point(&self) -> (p: Point)
        ensures
            p == self@,
    {
        self.point
    }

    /// A target on the drawn cell `(x, y)`, if the snake leaves that cell
    /// free: a draw that falls on the body is turned down.
    pub fn try_place(snake: &Snake, x: i32, y: i32) -> (placed: Option<Food>)
        ensures
            placed is Some <==> !snake@.body.contains(Point { x, y }),
            placed matches Some(food) ==> food@ == (Point { x, y }),
    {
        if snake.occupies(Point::new(x, y)) {
            None
        } else {
            Some(Food::new(x, y))
        }
    }

    /// The first cell, reading row by row, on which a new target may be put.
    pub fn first_free(snake: &Snake) -> (found: Option<Food>)
        ensures
            found is Some <==> free_cell_exists(snake@.body),
            found matches Some(food) ==> is_first_free(snake@.body, food@),
    {
        first_free_beside(snake, None)
    }

    /// Whether a cell is left for the target that follows this one, once the
    /// snake has eaten it and grown onto its cell.
    pub fn has_room(&self, snake: &Snake) -> (room: bool)
        ensures
            room == free_cell_exists(seq![self@] + snake@.body),
    {
        if snake.len() < SPAWN_CELLS - 1 {
            proof {
                lemma_free_cell(seq![self@] + snake@.body);
            }
            true
        } else {
            first_free_beside(snake, Some(self.point)).is_some()
        }
    }

    /// A new target while `snake` is on the grid. Cells are drawn until one
    /// is free. No number of draws is sure to be enough, so after
    /// [`MAX_DRAWS`] of them the first free cell is taken. Where the snake
    /// leaves no cell free there is nowhere to put a target, so a free cell
    /// is asked for.
    pub fn generate(snake: &Snake, rng: &mut RandomNumberGenerator) -> (food: Food)
        requires
            free_cell_exists(snake@.body),
        ensures
            is_free(snake@.body, food@),
    {
        let mut draws: u32 = 0;
        while draws < MAX_DRAWS
            invariant
                draws <= MAX_DRAWS,
            decreases MAX_DRAWS - draws,
        {
            let x: i32 = draw(rng, 1, SCREEN_WIDTH - 1);
            let y: i32 = draw(rng, 1, SCREEN_HEIGHT - 1);
            if let Some(food) = Food::try_place(snake, x, y) {
                return food;
            }
            draws += 1;
        }
        match Food::first_free(snake) {
            Some(food) => food,
            None => unreached(),
        }
    }
}

/// The first cell, reading row by row, that lies in the spawn area and is
/// neither a cell of the body nor `also`.
fn first_free_beside(snake: &Snake, also: Option<Point>) -> (found: Option<Food>)
    ensures
        found is Some <==> free_cell_exists(with_cell(snake@.body, also)),
        found matches Some(food) ==> is_first_free(with_cell(snake@.body, also), food@),
{
    let ghost taken = with_cell(snake@.body, also);
    let mut y: i32 = 1;
    while y < SCREEN_HEIGHT - 1
        invariant
            1 <= y <= SCREEN_HEIGHT - 1,
            taken == with_cell(snake@.body, also),
            forall|q: Point| in_spawn_area(q) && q.y < y ==> taken.contains(q),
        decreases SCREEN_HEIGHT - y,
    {
        let mut x: i32 = 1;
        while x < SCREEN_WIDTH - 1
            invariant
                1 <= y < SCREEN_HEIGHT - 1,
                1 <= x <= SCREEN_WIDTH - 1,
                taken == with_cell(snake@.body, also),
                forall|q: Point| in_spawn_area(q) && q.y < y ==> taken.contains(q),
                forall|q: Point| in_spawn_area(q) && q.y == y && q.x < x ==> taken.contains(q),
            decreases SCREEN_WIDTH - x,
        {
            let cell = Point::new(x, y);
            let skipped = match also {
                Some(p) => p == cell,
                None => false,
            };
            proof {
                lemma_with_cell(snake@.body, also, cell);
            }
            if !skipped {
                if let Some(food) = Food::try_place(snake, x, y) {
                    assert(is_free(taken, food@));
                    return Some(food);
                }
            }
            x += 1;
        }
        y += 1;
    }
    None
}

/// What `with_cell` holds: the cells of the body, and `also`.
proof fn lemma_with_cell(body: Seq<Point>, also: Option<Point>, p: Point)
    ensures
        with_cell(body, also).contains(p) <==> body.contains(p) || also == Some(p),
{
    let all = with_cell(body, also);
    if let Some(a) = also {
        assert(all[0] == a);
        if body.contains(p) {
            let i = choose|i: int| 0 <= i < body.len() && body[i] == p;
            assert(all[i + 1] == p);
        }
    }
}

} // verus!
