//! The rules of a snake game on a wrapped grid, with machine-checked contracts.
//!
//! The crate holds the simulation only: positions on a torus, the snake's
//! movement and growth, collision detection, buffered steering and the
//! fixed-timestep driver. Drawing and input devices belong to the caller.

mod chance;
pub mod direction;
pub mod game;
pub mod grid;
pub mod snake;

pub use direction::{Direction, KeyCode};
pub use game::{GameState, GameStateView, MILLIS_PER_UPDATE, UPDATES_PER_SECOND};
pub use grid::{GridPosition, Rect, GRID_CELL_HEIGHT, GRID_CELL_WIDTH, GRID_HEIGHT, GRID_WIDTH};
pub use snake::{Ate, Food, Segment, Snake, SnakeView};
