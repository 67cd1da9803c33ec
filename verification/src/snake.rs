//! The body: an ordered list of cells with the head first, and a heading.

use crate::grid::{
    block, in_bounds, is_valid_move, lemma_len_in_block, Direction, Point, SCREEN_HEIGHT,
    SCREEN_WIDTH,
};
use vstd::prelude::*;

verus! {

/// The most segments that a body can have: one on each cell inside the grid.
pub const MAX_LENGTH: usize = 3871;

/// What one simulation step did to the body.
#[derive(Clone, Copy, Debug, PartialEq, Eq, Structural)]
pub enum StepOutcome {
    /// The head moved on and the tail followed.
    Moved,
    /// The head landed on the target: the body is one cell longer.
    Ate,
    /// The head would have left the grid or run into the body: nothing moved.
    Collided,
}

/// The body as the contracts see it.
pub struct SnakeView {
    /// The cells of the body, head first.
    pub body: Seq<Point>,
    pub direction: Direction,
}

impl SnakeView {
    /// A body has a head, stands inside the grid and never crosses itself.
    pub open spec fn wf(self) -> bool {
        &&& self.body.len() >= 1
        &&& forall|i: int| 0 <= i < self.body.len() ==> in_bounds(#[trigger] self.body[i])
        &&& self.body.no_duplicates()
    }

    pub open spec fn head(self) -> Point {
        self.body[0]
    }

    /// Where the head goes next: one cell on in the heading.
    pub open spec fn next_head(self) -> Point {
        self.head().step(self.direction)
    }

    /// Whether `p` is a cell of the body behind the head.
    pub open spec fn hits_body(self, p: Point) -> bool {
        self.body.skip(1).contains(p)
    }

    /// Whether the next step ends the game: the head would leave the grid or
    /// run into a cell behind it, the tail as it lies now included.
    pub open spec fn fatal(self) -> bool {
        !in_bounds(self.next_head()) || self.hits_body(self.next_head())
    }

    /// The heading after a request to turn to `to`: a request to turn right
    /// round is dropped.
    pub open spec fn turn(self, to: Direction) -> SnakeView {
        if to == self.direction.reverse() {
            self
        } else {
            SnakeView { direction: to, ..self }
        }
    }

    /// The snake after it was asked to turn to `to`, if it was asked.
    pub open spec fn heard(self, to: Option<Direction>) -> SnakeView {
        match to {
            Some(to) => self.turn(to),
            None => self,
        }
    }

    pub open spec fn outcome(self, target: Point) -> StepOutcome {
        if self.fatal() {
            StepOutcome::Collided
        } else if self.next_head() == target {
            StepOutcome::Ate
        } else {
            StepOutcome::Moved
        }
    }

    /// The body after one step with the target at `target`.
    pub open spec fn advance(self, target: Point) -> SnakeView {
        match self.outcome(target) {
            StepOutcome::Collided => self,
            StepOutcome::Ate => SnakeView { body: seq![self.next_head()] + self.body, ..self },
            StepOutcome::Moved => SnakeView {
                body: seq![self.next_head()] + self.body.drop_last(),
                ..self
            },
        }
    }
}

/// The body of the snake and the way it is heading.
pub struct Snake {
    segments: Vec<Point>,
    direction: Direction,
}

impl View for Snake {
    type V = SnakeView;

    closed spec fn view(&self) -> SnakeView {
        SnakeView { body: self.segments@, direction: self.direction }
    }
}

impl Snake {
    pub open spec fn wf(&self) -> bool {
        self@.wf()
    }

    /// The number of segments.
    pub fn len(&self) -> (n: usize)
        ensures
            n == self@.body.len(),
    {
        self.segments.len()
    }

    /// The heading.
    pub fn direction(&self) -> (d: Direction)
        ensures
            d == self@.direction,
    {
        self.direction
    }

    /// The segments, head first.
    pub fn segments(&self) -> (cells: &Vec<Point>)
        ensures
            cells@ == self@.body,
    {
        &self.segments
    }

    /// One segment in the middle of the grid, heading right.
    pub fn new() -> (snake: Snake)
        ensures
            snake.wf(),
            snake@.body == seq![Point { x: 40, y: 25 }],
            snake@.direction == Direction::Right,
    {
        let mut segments: Vec<Point> = Vec::new();
        segments.push(Point::new(SCREEN_WIDTH / 2, SCREEN_HEIGHT / 2));
        Snake { segments, direction: Direction::Right }
    }

    /// A body of the given segments, head first, if they make one: at least
    /// one segment, all of them inside the grid, no two on one cell.
    pub fn from_segments(segments: Vec<Point>, direction: Direction) -> (made: Option<Snake>)
        ensures
            made is Some <==> (SnakeView { body: segments@, direction }).wf(),
            made matches Some(snake) ==> snake@ == (SnakeView { body: segments@, direction }),
    {
        if segments.len() == 0 {
            return None;
        }
        let mut i: usize = 0;
        while i < segments.len()
            invariant
                i <= segments.len(),
                forall|k: int| 0 <= k < i ==> in_bounds(#[trigger] segments@[k]),
                forall|k: int, l: int| 0 <= k < l < i ==> segments@[k] != segments@[l],
            decreases segments.len() - i,
        {
            if !is_valid_move(segments[i]) {
                return None;
            }
            let mut j: usize = 0;
            while j < i
                invariant
                    j <= i < segments.len(),
                    forall|k: int| 0 <= k < j ==> segments@[k] != segments@[i as int],
                decreases i - j,
            {
                if segments[j] == segments[i] {
                    return None;
                }
                j += 1;
            }
            i += 1;
        }
        Some(Snake { segments, direction })
    }

    pub fn head(&self) -> (p: Point)
        requires
            self.wf(),
        ensures
            p == self@.head(),
    {
        self.segments[0]
    }

    /// The cell that the head moves to next.
    pub fn auto_move(&self) -> (p: Point)
        requires
            self.wf(),
        ensures
            p == self@.next_head(),
            p.x == self@.head().x + self@.direction.dx(),
            p.y == self@.head().y + self@.direction.dy(),
    {
        let head_point = self.head();
        head_point.neighbour(self.direction)
    }

    /// What the next step would do with the target at `target`, were the
    /// snake first asked to turn to `to`. Nothing moves.
    pub fn look_ahead(&self, to: Option<Direction>, target: Point) -> (outcome: StepOutcome)
        requires
            self.wf(),
        ensures
            outcome == self@.heard(to).outcome(target),
    {
        let heading = match to {
            Some(to) => if to != self.direction.opposite() {
                to
            } else {
                self.direction
            },
            None => self.direction,
        };
        let new_head_point = self.head().neighbour(heading);
        if !is_valid_move(new_head_point) || self.colides_with_body(new_head_point) {
            StepOutcome::Collided
        } else if new_head_point == target {
            StepOutcome::Ate
        } else {
            StepOutcome::Moved
        }
    }

    /// Whether `new_head_point` is a cell of the body behind the head.
    pub fn colides_with_body(&self, new_head_point: Point) -> (hit: bool)
        requires
            self.wf(),
        ensures
            hit == self@.hits_body(new_head_point),
    {
        let mut i: usize = 1;
        while i < self.segments.len()
            invariant
                1 <= i <= self.segments.len(),
                forall|j: int| 1 <= j < i ==> self.segments@[j] != new_head_point,
            decreases self.segments.len() - i,
        {
            if self.segments[i] == new_head_point {
                assert(self.segments@.skip(1)[i - 1] == new_head_point);
                return true;
            }
            i += 1;
        }
        assert forall|j: int| 0 <= j < self.segments@.skip(1).len() implies self.segments@.skip(
            1,
        )[j] != new_head_point by {
        }
        false
    }

    /// Whether `p` is a cell of the body, the head included.
    pub fn occupies(&self, p: Point) -> (taken: bool)
        ensures
            taken == self@.body.contains(p),
    {
        let mut i: usize = 0;
        while i < self.segments.len()
            invariant
                i <= self.segments.len(),
                forall|j: int| 0 <= j < i ==> self.segments@[j] != p,
            decreases self.segments.len() - i,
        {
            if self.segments[i] == p {
                return true;
            }
            i += 1;
        }
        false
    }

    /// Turns the body to `to`, unless that would turn it right round.
    pub fn turn(&mut self, to: Direction)
        ensures
            final(self)@ == old(self)@.turn(to),
            final(self)@.body == old(self)@.body,
            final(self)@.direction != old(self)@.direction.reverse(),
            to == old(self)@.direction.reverse() ==> final(self)@ == old(self)@,
    {
        if to != self.direction.opposite() {
            self.direction = to;
        }
    }

    /// One simulation step with the target at `target`. The head moves one
    /// cell on in the heading. If that cell is outside the grid or a cell of
    /// the body behind the head, the body stays as it is. Else the cell
    /// becomes the new head, and the tail is dropped unless the new head is
    /// the target.
    pub fn advance(&mut self, target: Point) -> (outcome: StepOutcome)
        requires
            old(self).wf(),
        ensures
            final(self).wf(),
            outcome == old(self)@.outcome(target),
            final(self)@ == old(self)@.advance(target),
            final(self)@.direction == old(self)@.direction,
            // A collision is signalled exactly when the step is fatal, and
            // then nothing has moved.
            outcome == StepOutcome::Collided <==> old(self)@.fatal(),
            old(self)@.hits_body(old(self)@.next_head()) ==> outcome == StepOutcome::Collided,
            outcome == StepOutcome::Collided ==> final(self)@ == old(self)@,
            // Else the head has moved one cell on in the heading.
            outcome != StepOutcome::Collided ==> {
                let head = final(self)@.head();
                &&& head.x == old(self)@.head().x + old(self)@.direction.dx()
                &&& head.y == old(self)@.head().y + old(self)@.direction.dy()
            },
            // The body is one segment longer after a meal and as long as it
            // was after any other step.
            final(self)@.body.len() == old(self)@.body.len() + if outcome == StepOutcome::Ate {
                1int
            } else {
                0int
            },
            in_bounds(target) && !old(self)@.body.contains(target) ==> (outcome == StepOutcome::Ate
                <==> old(self)@.next_head() == target),
    {
        let new_head_point = self.auto_move();
        if !is_valid_move(new_head_point) || self.colides_with_body(new_head_point) {
            return StepOutcome::Collided;
        }
        proof {
            lemma_advance_wf(self@, target);
        }
        self.segments.insert(0, new_head_point);
        assert(self.segments@ =~= seq![new_head_point] + old(self).segments@);
        if new_head_point == target {
            StepOutcome::Ate
        } else {
            self.segments.pop();
            assert(self.segments@ =~= seq![new_head_point] + old(self).segments@.drop_last());
            StepOutcome::Moved
        }
    }
}

/// A body has no more segments than the grid has cells inside.
pub proof fn lemma_body_fits(snake: SnakeView)
    requires
        snake.wf(),
    ensures
        snake.body.len() <= MAX_LENGTH,
{
    lemma_len_in_block(snake.body, 79, 49);
}

/// A step keeps the body inside the grid and free of crossings.
pub proof fn lemma_advance_wf(snake: SnakeView, target: Point)
    requires
        snake.wf(),
    ensures
        snake.advance(target).wf(),
{
    let head = snake.next_head();
    if !snake.fatal() {
        assert forall|i: int| 1 <= i < snake.body.len() implies snake.body[i] != head by {
            assert(snake.body.skip(1)[i - 1] == snake.body[i]);
        }
    }
}

} // verus!
