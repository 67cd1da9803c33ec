//! The game: its modes, the commands it takes and what one frame does to it.

use crate::clock::{step_due, MovementClock, FRAME_DURATION};
use crate::food::{free_cell_exists, is_free, Food};
use crate::grid::{in_bounds, is_valid_move, Direction, Point};
use crate::snake::{lemma_advance_wf, lemma_body_fits, Snake, SnakeView, StepOutcome};
use bracket_lib::random::RandomNumberGenerator;
use vstd::prelude::*;

verus! {

/// What the game is showing.
#[derive(Clone, Copy, Debug, PartialEq, Eq, Structural)]
pub enum GameMode {
    /// Before the first game.
    Menu,
    /// A game is on.
    Playing,
    /// The snake has died; its last game is still there to be shown.
    End,
}

/// What the player may ask for in a frame.
#[derive(Clone, Copy, Debug, PartialEq, Eq, Structural)]
pub enum Command {
    MoveUp,
    MoveDown,
    MoveLeft,
    MoveRight,
    /// Leave the menu for a game.
    Start,
    /// Stop the program.
    Quit,
    /// Leave a finished game for a new one.
    Restart,
}

impl Command {
    /// The heading that a command asks for, if it asks for one.
    pub open spec fn heading(self) -> Option<Direction> {
        match self {
            Command::MoveUp => Some(Direction::Up),
            Command::MoveDown => Some(Direction::Down),
            Command::MoveLeft => Some(Direction::Left),
            Command::MoveRight => Some(Direction::Right),
            _ => None,
        }
    }

    /// The heading that a command asks for, if it asks for one.
    pub fn to_direction(self) -> (d: Option<Direction>)
        ensures
            d == self.heading(),
    {
        match self {
            Command::MoveUp => Some(Direction::Up),
            Command::MoveDown => Some(Direction::Down),
            Command::MoveLeft => Some(Direction::Left),
            Command::MoveRight => Some(Direction::Right),
            _ => None,
        }
    }
}

/// The game as the contracts see it.
pub struct StateView {
    pub mode: GameMode,
    /// Milliseconds gathered since the last step.
    pub frame_time: nat,
    pub score: nat,
    /// When the game was started, on the host's clock, in milliseconds.
    pub timer: Option<u64>,
    pub snake: SnakeView,
    pub food: Point,
}

impl StateView {
    /// What holds of every game: the target lies inside the grid and off the
    /// body, the score counts the segments that the body has gained, the
    /// clock has not run past a step, and a start time is kept from the
    /// first game on.
    pub open spec fn wf(self) -> bool {
        &&& self.snake.wf()
        &&& in_bounds(self.food)
        &&& !self.snake.body.contains(self.food)
        &&& self.score + 1 == self.snake.body.len()
        &&& self.frame_time <= FRAME_DURATION
        &&& (self.mode == GameMode::Menu) == (self.timer is None)
    }

    /// The game before anything was asked of it.
    pub open spec fn initial() -> StateView {
        StateView {
            mode: GameMode::Menu,
            frame_time: 0,
            score: 0,
            timer: None,
            snake: SnakeView { body: seq![Point { x: 40, y: 25 }], direction: Direction::Right },
            food: Point { x: 20, y: 12 },
        }
    }

    /// A game that was started at `now_ms`.
    pub open spec fn started(now_ms: u64) -> StateView {
        StateView { mode: GameMode::Playing, timer: Some(now_ms), ..Self::initial() }
    }

    /// The game after a command while no game is on. `Start` leaves the
    /// menu and `Restart` a finished game, each for a new game; any other
    /// command changes nothing.
    pub open spec fn handle(self, command: Option<Command>, now_ms: u64) -> StateView {
        if self.starts(command) {
            Self::started(now_ms)
        } else {
            self
        }
    }

    /// The snake once it has heard the command.
    pub open spec fn steered(self, command: Option<Command>) -> SnakeView {
        self.snake.heard(asked_heading(command))
    }

    /// What this frame's step does to the snake, if the frame brings one.
    pub open spec fn step_outcome(self, command: Option<Command>, frame_time_ms: nat) -> Option<
        StepOutcome,
    > {
        if self.mode == GameMode::Playing && step_due(self.frame_time, frame_time_ms) {
            Some(self.steered(command).outcome(self.food))
        } else {
            None
        }
    }

    /// Whether this frame's step brings the head onto the target.
    pub open spec fn eats(self, command: Option<Command>, frame_time_ms: nat) -> bool {
        self.step_outcome(command, frame_time_ms) == Some(StepOutcome::Ate)
    }

    /// Whether the command asks the snake to turn right round.
    pub open spec fn reverses(self, command: Option<Command>) -> bool {
        command matches Some(c) && c.heading() == Some(self.snake.direction.reverse())
    }

    /// Whether the command starts a new game.
    pub open spec fn starts(self, command: Option<Command>) -> bool {
        ||| self.mode == GameMode::Menu && command == Some(Command::Start)
        ||| self.mode == GameMode::End && command == Some(Command::Restart)
    }

    /// Whether a cell is left for the next target once the snake has eaten
    /// this one.
    pub open spec fn has_room(self) -> bool {
        free_cell_exists(seq![self.food] + self.snake.body)
    }

    /// The game after a frame of `frame_time_ms` milliseconds while a game
    /// is on. The snake hears the command, the clock gathers the frame's
    /// time, and if a step is due the snake takes it: a collision ends the
    /// game, and a meal raises the score and has the next target put on
    /// `placed`. A frame with `Quit` is a frame like any other: the game
    /// only reports the wish, and stopping is the host's part.
    pub open spec fn play(
        self,
        command: Option<Command>,
        frame_time_ms: nat,
        placed: Point,
    ) -> StateView {
        let snake = self.steered(command);
        match self.step_outcome(command, frame_time_ms) {
            None => StateView { frame_time: self.frame_time + frame_time_ms, snake, ..self },
            Some(StepOutcome::Collided) => StateView {
                mode: GameMode::End,
                frame_time: 0,
                snake,
                ..self
            },
            Some(StepOutcome::Ate) => StateView {
                frame_time: 0,
                score: self.score + 1,
                snake: snake.advance(self.food),
                food: placed,
                ..self
            },
            Some(StepOutcome::Moved) => StateView {
                frame_time: 0,
                snake: snake.advance(self.food),
                ..self
            },
        }
    }

    /// The game after one frame.
    pub open spec fn tick(
        self,
        command: Option<Command>,
        frame_time_ms: nat,
        now_ms: u64,
        placed: Point,
    ) -> StateView {
        match self.mode {
            GameMode::Playing => self.play(command, frame_time_ms, placed),
            _ => self.handle(command, now_ms),
        }
    }
}

/// The heading that the command of a frame asks for, if it asks for one.
pub open spec fn asked_heading(command: Option<Command>) -> Option<Direction> {
    match command {
        Some(c) => c.heading(),
        None => None,
    }
}

/// Whole seconds from `timer` to `now_ms`, both in milliseconds.
pub open spec fn elapsed_secs(timer: Option<u64>, now_ms: u64) -> Option<u64> {
    match timer {
        Some(start) => if now_ms >= start {
            Some(((now_ms - start) / 1000) as u64)
        } else {
            Some(0)
        },
        None => None,
    }
}

/// The whole of a game: what is shown, the clock, the score, when the game
/// was started, the snake and its target.
pub struct State {
    mode: GameMode,
    clock: MovementClock,
    score: u32,
    timer: Option<u64>,
    snake: Snake,
    food: Food,
}

impl View for State {
    type V = StateView;

    closed spec fn view(&self) -> StateView {
        StateView {
            mode: self.mode,
            frame_time: self.clock@,
            score: self.score as nat,
            timer: self.timer,
            snake: self.snake@,
            food: self.food@,
        }
    }
}

/// Takes a command while no game is on: in the menu or after a game.
/// Returns whether the player asked to quit.
pub fn event_handler(state: &mut State, command: Option<Command>, now_ms: u64) -> (quit: bool)
    requires
        old(state).wf(),
    ensures
        final(state).wf(),
        quit == (command == Some(Command::Quit)),
        final(state)@ == old(state)@.handle(command, now_ms),
{
    match command {
        Some(Command::Start) => {
            if state.mode == GameMode::Menu {
                state.restart(now_ms);
            }
            false
        },
        Some(Command::Restart) => {
            if state.mode == GameMode::End {
                state.restart(now_ms);
            }
            false
        },
        Some(Command::Quit) => true,
        _ => false,
    }
}

impl State {
    pub open spec fn wf(&self) -> bool {
        self@.wf()
    }

    /// The game before anything was asked of it: the menu.
    pub fn new() -> (state: State)
        ensures
            state.wf(),
            state@ == StateView::initial(),
    {
        State {
            mode: GameMode::Menu,
            clock: MovementClock::new(),
            score: 0,
            timer: None,
            snake: Snake::new(),
            food: Food::with_default(),
        }
    }

    /// A game that is on, with the given snake and target, started at
    /// `now_ms` on the host's clock: the clock at zero and the score at one
    /// for each segment behind the head. There is no such game if the target
    /// lies outside the grid or on the snake.
    pub fn playing(snake: Snake, food: Food, now_ms: u64) -> (made: Option<State>)
        requires
            snake.wf(),
        ensures
            made is Some <==> in_bounds(food@) && !snake@.body.contains(food@),
            made matches Some(state) ==> state.wf() && state@ == (StateView {
                mode: GameMode::Playing,
                frame_time: 0,
                score: (snake@.body.len() - 1) as nat,
                timer: Some(now_ms),
                snake: snake@,
                food: food@,
            }),
    {
        if !is_valid_move(food.point()) || snake.occupies(food.point()) {
            return None;
        }
        proof {
            lemma_body_fits(snake@);
        }
        let score: u32 = (snake.len() - 1) as u32;
        Some(
            State {
                mode: GameMode::Playing,
                clock: MovementClock::new(),
                score,
                timer: Some(now_ms),
                snake,
                food,
            },
        )
    }

    pub fn mode(&self) -> (mode: GameMode)
        ensures
            mode == self@.mode,
    {
        self.mode
    }

    pub fn score(&self) -> (score: u32)
        ensures
            score == self@.score,
    {
        self.score
    }

    pub fn snake(&self) -> (snake: &Snake)
        ensures
            snake@ == self@.snake,
    {
        &self.snake
    }

    pub fn food(&self) -> (food: &Food)
        ensures
            food@ == self@.food,
    {
        &self.food
    }

    /// Milliseconds gathered since the last step.
    pub fn frame_time(&self) -> (ms: u32)
        ensures
            ms == self@.frame_time,
    {
        self.clock.frame_time()
    }

    /// When the game was started, on the host's clock, in milliseconds.
    pub fn timer(&self) -> (timer: Option<u64>)
        ensures
            timer == self@.timer,
    {
        self.timer
    }

    /// Whole seconds from the start of the game to `now_ms` on the host's
    /// clock; none before the first game. A clock that reads less than at
    /// the start gives zero.
    pub fn elapsed_secs(&self, now_ms: u64) -> (secs: Option<u64>)
        ensures
            secs == elapsed_secs(self@.timer, now_ms),
    {
        match self.timer {
            Some(start) => if now_ms >= start {
                Some((now_ms - start) / 1000)
            } else {
                Some(0)
            },
            None => None,
        }
    }

    /// Whether a cell is left for the next target once the snake has eaten
    /// this one.
    pub fn has_room(&self) -> (room: bool)
        ensures
            room == self@.has_room(),
    {
        self.food.has_room(&self.snake)
    }

    /// Whether the step of a frame with this command and of this length
    /// would bring the head onto the target. Nothing moves.
    pub fn meal_due(&self, command: Option<Command>, frame_time_ms: u32) -> (due: bool)
        requires
            self.wf(),
        ensures
            due == self@.eats(command, frame_time_ms as nat),
    {
        if self.mode != GameMode::Playing || !self.clock.is_due(frame_time_ms) {
            return false;
        }
        let to = match command {
            Some(c) => c.to_direction(),
            None => None,
        };
        self.snake.look_ahead(to, self.food.point()) == StepOutcome::Ate
    }

    /// Starts a new game at `now_ms` on the host's clock.
    pub fn restart(&mut self, now_ms: u64)
        ensures
            final(self).wf(),
            final(self)@ == StateView::started(now_ms),
    {
        *self = Self::new();
        self.mode = GameMode::Playing;
        self.timer = Some(now_ms);
    }

    /// One frame of the menu.
    pub fn menu(&mut self, command: Option<Command>, now_ms: u64) -> (quit: bool)
        requires
            old(self).wf(),
            old(self)@.mode == GameMode::Menu,
        ensures
            final(self).wf(),
            quit == (command == Some(Command::Quit)),
            final(self)@ == old(self)@.handle(command, now_ms),
    {
        event_handler(self, command, now_ms)
    }

    /// One frame after the snake has died.
    pub fn dead(&mut self, command: Option<Command>, now_ms: u64) -> (quit: bool)
        requires
            old(self).wf(),
            old(self)@.mode == GameMode::End,
        ensures
            final(self).wf(),
            quit == (command == Some(Command::Quit)),
            final(self)@ == old(self)@.handle(command, now_ms),
    {
        event_handler(self, command, now_ms)
    }

    /// One frame of a game. The frame took `frame_time_ms` milliseconds.
    ///
    /// Where the step of this frame brings the head onto the target, a cell
    /// must be left for the next target: on a grid that the snake fills
    /// there is nowhere to put one. [`State::meal_due`] tells whether the
    /// step is a meal, and [`State::has_room`] whether a cell is left.
    pub fn play(&mut self, command: Option<Command>, frame_time_ms: u32) -> (quit: bool)
        requires
            old(self).wf(),
            old(self)@.mode == GameMode::Playing,
            old(self)@.eats(command, frame_time_ms as nat) ==> old(self)@.has_room(),
        ensures
            final(self).wf(),
            quit == (command == Some(Command::Quit)),
            final(self)@ == old(self)@.play(command, frame_time_ms as nat, final(self)@.food),
            // After a meal the score is one higher, the body one segment
            // longer, and the next target lies on a cell that the body
            // leaves free. After any other frame score, length and target
            // are what they were.
            old(self)@.eats(command, frame_time_ms as nat) ==> {
                &&& final(self)@.score == old(self)@.score + 1
                &&& final(self)@.snake.body.len() == old(self)@.snake.body.len() + 1
                &&& final(self)@.snake.head() == old(self)@.food
                &&& is_free(final(self)@.snake.body, final(self)@.food)
            },
            !old(self)@.eats(command, frame_time_ms as nat) ==> {
                &&& final(self)@.score == old(self)@.score
                &&& final(self)@.snake.body.len() == old(self)@.snake.body.len()
                &&& final(self)@.food == old(self)@.food
            },
            // The game ends exactly on a collision, and the snake is then
            // where it was.
            final(self)@.mode == GameMode::End <==> old(self)@.step_outcome(
                command,
                frame_time_ms as nat,
            ) == Some(StepOutcome::Collided),
            final(self)@.mode == GameMode::End ==> final(self)@.snake.body == old(self)@.snake.body,
            // The snake is never turned right round: a command that asks
            // for it leaves the heading as it was.
            final(self)@.snake.direction != old(self)@.snake.direction.reverse(),
            old(self)@.reverses(command) ==> final(self)@.snake.direction
                == old(self)@.snake.direction,
    {
        if let Some(c) = command {
            if let Some(to) = c.to_direction() {
                self.snake.turn(to);
            }
        }
        if self.clock.advance(frame_time_ms) {
            let ghost before = self.snake@;
            let target = self.food.point();
            proof {
                lemma_body_fits(before);
            }
            match self.snake.advance(target) {
                StepOutcome::Collided => {
                    self.mode = GameMode::End;
                },
                StepOutcome::Ate => {
                    self.generate_food();
                    self.score = self.score + 1;
                },
                StepOutcome::Moved => {},
            }
        }
        match command {
            Some(Command::Quit) => true,
            _ => false,
        }
    }

    /// Puts a new target on a cell that the snake leaves free.
    pub fn generate_food(&mut self)
        requires
            free_cell_exists(old(self)@.snake.body),
        ensures
            is_free(final(self)@.snake.body, final(self)@.food),
            final(self)@ == (StateView { food: final(self)@.food, ..old(self)@ }),
            old(self).wf() ==> final(self).wf(),
    {
        let mut rng = RandomNumberGenerator::new();
        self.food = Food::generate(&self.snake, &mut rng);
    }

    /// One frame: the command that the player gave in it, if any, the
    /// milliseconds that it took, and the host's clock at its end. Returns
    /// whether the player asked to quit.
    ///
    /// As for [`State::play`], a cell must be left for the next target where
    /// the step of this frame is a meal: [`State::meal_due`] tells whether
    /// it is, and [`State::has_room`] whether a cell is left.
    pub fn tick(&mut self, command: Option<Command>, frame_time_ms: u32, now_ms: u64) -> (quit:
        bool)
        requires
            old(self).wf(),
            old(self)@.eats(command, frame_time_ms as nat) ==> old(self)@.has_room(),
        ensures
            final(self).wf(),
            quit == (command == Some(Command::Quit)),
            final(self)@ == old(self)@.tick(
                command,
                frame_time_ms as nat,
                now_ms,
                final(self)@.food,
            ),
            // The score goes up by one with each meal, back to zero with
            // each new game, and stays as it is otherwise.
            final(self)@.score == if old(self)@.eats(command, frame_time_ms as nat) {
                old(self)@.score + 1
            } else if old(self)@.starts(command) {
                0
            } else {
                old(self)@.score
            },
            // So does the body grow by a segment with each meal.
            final(self)@.snake.body.len() == if old(self)@.eats(command, frame_time_ms as nat) {
                old(self)@.snake.body.len() + 1
            } else if old(self)@.starts(command) {
                1
            } else {
                old(self)@.snake.body.len()
            },
            // A target is put on a cell that the body leaves free.
            old(self)@.eats(command, frame_time_ms as nat) ==> is_free(
                final(self)@.snake.body,
                final(self)@.food,
            ),
            // The snake is never turned right round: a command that asks
            // for it leaves the heading as it was.
            final(self)@.snake.direction == old(self)@.snake.direction.reverse()
                ==> old(self)@.starts(command),
            old(self)@.mode == GameMode::Playing && old(self)@.reverses(command)
                ==> final(self)@.snake.direction == old(self)@.snake.direction,
    {
        match self.mode {
            GameMode::Menu => self.menu(command, now_ms),
            GameMode::Playing => self.play(command, frame_time_ms),
            GameMode::End => self.dead(command, now_ms),
        }
    }
}

/// Growth. A frame of a game leaves the body as long as it was, unless it
/// brings a step whose new head is the target: then the new head is put
/// before the body, which keeps its tail and is one segment longer, and the
/// game goes on. This holds wherever the next target is put.
pub proof fn lemma_growth(
    s: StateView,
    command: Option<Command>,
    frame_time_ms: nat,
    placed: Point,
)
    requires
        s.wf(),
        s.mode == GameMode::Playing,
    ensures
        ({
            let head = s.steered(command).next_head();
            let meal = step_due(s.frame_time, frame_time_ms) && head == s.food;
            let after = s.play(command, frame_time_ms, placed);
            &&& meal == s.eats(command, frame_time_ms)
            &&& meal ==> after.snake.body == seq![head] + s.snake.body
            &&& meal ==> after.mode == GameMode::Playing
            &&& after.snake.body.len() == s.snake.body.len() + if meal {
                1int
            } else {
                0int
            }
        }),
{
}

/// The score. A frame of a game raises the score by one if it brings a step
/// that is not fatal and whose new head is the target, and leaves it as it
/// was otherwise: the score never falls while a game is on.
pub proof fn lemma_score(
    s: StateView,
    command: Option<Command>,
    frame_time_ms: nat,
    placed: Point,
)
    requires
        s.wf(),
        s.mode == GameMode::Playing,
    ensures
        ({
            let snake = s.steered(command);
            let meal = step_due(s.frame_time, frame_time_ms) && !snake.fatal() && snake.next_head()
                == s.food;
            let after = s.play(command, frame_time_ms, placed);
            after.score == s.score + if meal {
                1int
            } else {
                0int
            }
        }),
{
}

/// The end of a game. A frame of a game ends it exactly if it brings a step
/// that is fatal: the new head would lie outside the grid or on a segment
/// behind the head. Body, target and score are then what they were. No
/// frame of a game leads back to the menu.
pub proof fn lemma_game_over(
    s: StateView,
    command: Option<Command>,
    frame_time_ms: nat,
    placed: Point,
)
    requires
        s.wf(),
        s.mode == GameMode::Playing,
    ensures
        ({
            let snake = s.steered(command);
            let head = snake.next_head();
            let fatal = !in_bounds(head) || exists|i: int|
                1 <= i < s.snake.body.len() && s.snake.body[i] == head;
            let over = step_due(s.frame_time, frame_time_ms) && fatal;
            let after = s.play(command, frame_time_ms, placed);
            &&& after.mode == if over {
                GameMode::End
            } else {
                GameMode::Playing
            }
            &&& over ==> after.snake.body == s.snake.body && after.food == s.food && after.score
                == s.score
        }),
{
    let snake = s.steered(command);
    let head = snake.next_head();
    if exists|i: int| 1 <= i < s.snake.body.len() && s.snake.body[i] == head {
        let i = choose|i: int| 1 <= i < s.snake.body.len() && s.snake.body[i] == head;
        assert(snake.body.skip(1)[i - 1] == head);
    }
}

/// What holds of every game holds after each of its frames, if the target
/// that follows a meal is put on a cell that the body leaves free.
pub proof fn lemma_play_wf(
    s: StateView,
    command: Option<Command>,
    frame_time_ms: nat,
    placed: Point,
)
    requires
        s.wf(),
        s.mode == GameMode::Playing,
        s.eats(command, frame_time_ms) ==> is_free(seq![s.food] + s.snake.body, placed),
    ensures
        s.play(command, frame_time_ms, placed).wf(),
{
    lemma_advance_wf(s.steered(command), s.food);
}

} // verus!
