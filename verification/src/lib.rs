//! A snake game on a bounded grid: the body's movement and collision rules,
//! the placement of the target, the fixed-step movement clock and the
//! transitions between menu, play and game over.
//!
//! The crate holds the simulation only. A host draws the state, polls the
//! keyboard and reads the clocks, and hands each frame to [`State::tick`].

pub mod clock;
pub mod food;
pub mod grid;
pub mod random;
pub mod snake;
pub mod state;

pub use clock::{MovementClock, FRAME_DURATION};
pub use food::{Food, MAX_DRAWS, SPAWN_CELLS};
pub use grid::{is_valid_move, Direction, Point, SCREEN_HEIGHT, SCREEN_WIDTH};
pub use snake::{Snake, SnakeView, StepOutcome, MAX_LENGTH};
pub use state::{event_handler, Command, GameMode, State, StateView};
