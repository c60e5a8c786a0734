//! The session: a snake, a piece of food, and the fixed-timestep driver that
//! ties them to the clock and the keyboard.
//!
//! Time is a count of milliseconds on a clock of the caller's that never runs
//! backwards and reads zero when the session is created.

use vstd::prelude::*;
use crate::direction::{Direction, KeyCode};
use crate::grid::{GridPosition, GRID_HEIGHT, GRID_WIDTH};
use crate::snake::{
    lemma_steered_in_place, lemma_step_apart, lemma_step_in_grid, Ate, Food, Snake, SnakeView,
};

verus! {

/// Number of ticks in a second.
pub const UPDATES_PER_SECOND: u64 = 8;

/// Least time between two ticks, in milliseconds.
pub const MILLIS_PER_UPDATE: u64 = 1000 / UPDATES_PER_SECOND;

/// The cell on which every session's snake starts.
pub open spec fn start_position() -> GridPosition {
    GridPosition { x: (GRID_WIDTH / 4) as i16, y: (GRID_HEIGHT / 2) as i16 }
}

/// The state for the game.
pub struct GameState {
    pub snake: Snake,
    pub food: Food,
    pub gameover: bool,
    /// The clock's reading at the latest tick, or zero before the first.
    pub last_update: u64,
}

/// A session as mathematical data.
pub struct GameStateView {
    pub snake: SnakeView,
    pub food: Food,
    pub gameover: bool,
    pub last_update: u64,
}

impl View for GameState {
    type V = GameStateView;

    open spec fn view(&self) -> GameStateView {
        GameStateView {
            snake: self.snake@,
            food: self.food,
            gameover: self.gameover,
            last_update: self.last_update,
        }
    }
}

impl GameStateView {
    /// A session at its start, with the food at `food_pos` and the latest tick
    /// at `last_update`.
    pub open spec fn opening(food_pos: GridPosition, last_update: u64) -> GameStateView {
        GameStateView {
            snake: SnakeView::start(start_position()),
            food: Food { pos: food_pos },
            gameover: false,
            last_update,
        }
    }

    /// Whether a full tick interval has passed at `now` since the latest tick.
    pub open spec fn tick_due(self, now: u64) -> bool {
        now - self.last_update >= MILLIS_PER_UPDATE
    }

    /// Whether an update at `now` has the snake eat the food.
    pub open spec fn feeds(self, now: u64) -> bool {
        self.tick_due(now) && !self.gameover && self.snake.outcome(self.food) == Some(Ate::Food)
    }

    /// The session after an update at `now`, where `fresh_food` is the cell
    /// that the food moves to if the snake eats it.
    pub open spec fn updated(self, now: u64, fresh_food: GridPosition) -> GameStateView {
        if !self.tick_due(now) {
            self
        } else if self.gameover {
            GameStateView {
                snake: self.snake,
                food: self.food,
                gameover: true,
                last_update: now,
            }
        } else {
            let snake = self.snake.step(self.food);
            GameStateView {
                snake,
                food: if snake.ate == Some(Ate::Food) {
                    Food { pos: fresh_food }
                } else {
                    self.food
                },
                gameover: snake.ate == Some(Ate::Itself),
                last_update: now,
            }
        }
    }

    /// The session after the key `key`, with no regard to whether the game is
    /// over: an arrow key steers the snake, any other key does nothing.
    pub open spec fn steered(self, key: KeyCode) -> GameStateView {
        match Direction::spec_from_keycode(key) {
            Some(dir) => GameStateView {
                snake: self.snake.steered(dir),
                food: self.food,
                gameover: self.gameover,
                last_update: self.last_update,
            },
            None => self,
        }
    }

    /// The session after the key `key`, where `fresh_food` is the cell of the
    /// food if the key restarts the game. While the game is over every key
    /// restarts it; the clock is not reset.
    pub open spec fn key_pressed(self, key: KeyCode, fresh_food: GridPosition) -> GameStateView {
        if self.gameover {
            GameStateView::opening(fresh_food, self.last_update)
        } else {
            self.steered(key)
        }
    }

    /// What every session keeps: snake and food lie on the field, and while the
    /// game is on the snake does not overlap itself.
    pub open spec fn sound(self) -> bool {
        &&& self.snake.in_grid()
        &&& self.food.pos.in_grid()
        &&& !self.gameover ==> self.snake.apart()
    }
}

impl GameState {
    /// Creates a new game state. The food lies on a random cell of the field.
    pub fn new() -> (state: Self)
        ensures
            state.snake@ == SnakeView::start(start_position()),
            state.food.pos.in_grid(),
            !state.gameover,
            state.last_update == 0,
            state@ == GameStateView::opening(state.food.pos, 0),
            state@.sound(),
    {
        let food_pos = GridPosition::random(GRID_WIDTH, GRID_HEIGHT);
        GameState::with_food(food_pos)
    }

    /// Creates a new game state with the food at `food_pos`.
    pub fn with_food(food_pos: GridPosition) -> (state: Self)
        ensures
            state@ == GameStateView::opening(food_pos, 0),
            food_pos.in_grid() ==> state@.sound(),
    {
        proof {
            if food_pos.in_grid() {
                lemma_opening_sound(food_pos, 0);
            }
        }
        let snake_pos = GridPosition::new(GRID_WIDTH / 4, GRID_HEIGHT / 2);

        GameState {
            snake: Snake::new(snake_pos),
            food: Food::new(food_pos),
            gameover: false,
            last_update: 0,
        }
    }

    /// One update up to the point where eaten food is replaced: reports whether
    /// it has to be, and leaves it in place.
    fn advance(&mut self, now: u64) -> (eaten: bool)
        ensures
            eaten == old(self)@.feeds(now),
            final(self)@ == old(self)@.updated(now, old(self).food.pos),
    {
        let mut eaten = false;
        // Check if enough time has elapsed since the last update.
        if now >= self.last_update && now - self.last_update >= MILLIS_PER_UPDATE {
            if !self.gameover {
                self.snake.update(&self.food);

                if let Some(ate) = self.snake.ate {
                    match ate {
                        Ate::Food => {
                            eaten = true;
                        },
                        Ate::Itself => {
                            self.gameover = true;
                        },
                    }
                }
            }

            self.last_update = now;
        }
        eaten
    }

    /// Runs the simulation at clock reading `now`: nothing happens before a
    /// full tick interval has passed, or to snake and food once the game is
    /// over; else the snake moves one cell, eaten food reappears on a random
    /// cell of the field, and a snake that ran into itself ends the game.
    pub fn update(&mut self, now: u64)
        ensures
            exists|p: GridPosition|
                p.in_grid() && final(self)@ == #[trigger] old(self)@.updated(now, p),
            final(self)@ == old(self)@.updated(now, final(self).food.pos),
            old(self)@.feeds(now) ==> final(self).food.pos.in_grid(),
            old(self).gameover ==> final(self).gameover && final(self).snake@ == old(self).snake@
                && final(self).food == old(self).food,
            old(self)@.sound() ==> final(self)@.sound(),
    {
        if self.advance(now) {
            let new_food_pos = GridPosition::random(GRID_WIDTH, GRID_HEIGHT);
            self.food.pos = new_food_pos;
        } else {
            assert(GridPosition { x: 0, y: 0 }.in_grid());
            assert(self@ == old(self)@.updated(now, GridPosition { x: 0, y: 0 }));
        }
        proof {
            if old(self)@.sound() {
                if old(self)@.feeds(now) {
                    lemma_updated_sound(old(self)@, now, self.food.pos);
                } else {
                    lemma_updated_sound(old(self)@, now, GridPosition { x: 0, y: 0 });
                }
            }
        }
    }

    /// As `update`, with the cell given on which eaten food reappears.
    pub fn update_with_food(&mut self, now: u64, fresh_food: GridPosition)
        ensures
            final(self)@ == old(self)@.updated(now, fresh_food),
    {
        if self.advance(now) {
            self.food.pos = fresh_food;
        }
    }

    /// Takes an arrow key as a turn of the snake, unless the turn would reverse
    /// it: a second turn before the next tick is buffered.
    fn steer(&mut self, key: KeyCode)
        ensures
            final(self)@ == old(self)@.steered(key),
    {
        if let Some(dir) = Direction::from_keycode(key) {
            if self.snake.dir != self.snake.last_update_dir && dir.inverse() != self.snake.dir {
                self.snake.next_dir = Some(dir);
            } else if dir.inverse() != self.snake.last_update_dir {
                self.snake.dir = dir;
            }
        }
    }

    /// Starts the session over with the food at `food_pos`; the clock goes on.
    fn restart(&mut self, food_pos: GridPosition)
        ensures
            final(self)@ == GameStateView::opening(food_pos, old(self).last_update),
    {
        let snake_pos = GridPosition::new(GRID_WIDTH / 4, GRID_HEIGHT / 2);
        self.snake = Snake::new(snake_pos);
        self.food = Food::new(food_pos);
        self.gameover = false;
    }

    /// Handles a key press: while the game is on, an arrow key steers the
    /// snake; once it is over, any key starts a new session with the food on a
    /// random cell of the field.
    pub fn key_down_event(&mut self, key: KeyCode)
        ensures
            exists|p: GridPosition|
                p.in_grid() && final(self)@ == #[trigger] old(self)@.key_pressed(key, p),
            final(self)@ == old(self)@.key_pressed(key, final(self).food.pos),
            old(self).gameover ==> !final(self).gameover && final(self).snake@ == SnakeView::start(
                start_position(),
            ) && final(self).food.pos.in_grid(),
            old(self)@.sound() ==> final(self)@.sound(),
    {
        self.steer(key);

        if self.gameover {
            let food_pos = GridPosition::random(GRID_WIDTH, GRID_HEIGHT);
            self.restart(food_pos);
        } else {
            assert(GridPosition { x: 0, y: 0 }.in_grid());
            assert(self@ == old(self)@.key_pressed(key, GridPosition { x: 0, y: 0 }));
        }
        proof {
            if old(self)@.sound() {
                if old(self).gameover {
                    lemma_key_pressed_sound(old(self)@, key, self.food.pos);
                } else {
                    lemma_key_pressed_sound(old(self)@, key, GridPosition { x: 0, y: 0 });
                }
            }
        }
    }

    /// As `key_down_event`, with the cell given on which the food lies after a
    /// restart.
    pub fn key_down_event_with_food(&mut self, key: KeyCode, fresh_food: GridPosition)
        ensures
            final(self)@ == old(self)@.key_pressed(key, fresh_food),
    {
        self.steer(key);

        if self.gameover {
            self.restart(fresh_food);
        }
    }
}

/// Once the game is over, an update moves neither snake nor food and the game
/// stays over, whatever the clock reads.
pub proof fn lemma_game_over_freezes(s: GameStateView, now: u64, fresh_food: GridPosition)
    requires
        s.gameover,
    ensures
        s.updated(now, fresh_food).gameover,
        s.updated(now, fresh_food).snake == s.snake,
        s.updated(now, fresh_food).food == s.food,
{
}

/// Once the game is over, any key starts a session afresh: the game is on, the
/// snake is two cells long with its head on the start cell, heading right, and
/// the food lies where it was placed.
pub proof fn lemma_key_restarts(s: GameStateView, key: KeyCode, fresh_food: GridPosition)
    requires
        s.gameover,
    ensures
        !s.key_pressed(key, fresh_food).gameover,
        s.key_pressed(key, fresh_food).snake == SnakeView::start(start_position()),
        s.key_pressed(key, fresh_food).snake.length() == 2,
        s.key_pressed(key, fresh_food).snake.head.pos == start_position(),
        s.key_pressed(key, fresh_food).food.pos == fresh_food,
        fresh_food.in_grid() ==> s.key_pressed(key, fresh_food).sound(),
{
    if fresh_food.in_grid() {
        lemma_opening_sound(fresh_food, s.last_update);
    }
}

/// While the game is on, the key for the reverse of the direction last
/// travelled never changes the heading, the key for the reverse of the heading
/// never changes the buffered turn, and with no turn waiting the key for the
/// reverse of the heading changes nothing.
pub proof fn lemma_reverse_key_ignored(s: GameStateView, key: KeyCode, fresh_food: GridPosition)
    requires
        !s.gameover,
        Direction::spec_from_keycode(key) is Some,
    ensures
        ({
            let input = Direction::spec_from_keycode(key)->0;
            let t = s.key_pressed(key, fresh_food);
            &&& input == s.snake.last_update_dir.spec_inverse() ==> t.snake.dir == s.snake.dir
            &&& input == s.snake.dir.spec_inverse() ==> t.snake.next_dir == s.snake.next_dir
            &&& s.snake.dir == s.snake.last_update_dir && input == s.snake.dir.spec_inverse() ==> t
                == s
        }),
{
}

/// A key that is no arrow key changes nothing while the game is on.
pub proof fn lemma_other_key_ignored(s: GameStateView, fresh_food: GridPosition)
    requires
        !s.gameover,
    ensures
        s.key_pressed(KeyCode::Other, fresh_food) == s,
{
}

/// A session at its start is sound if its food lies on the field.
pub proof fn lemma_opening_sound(food_pos: GridPosition, last_update: u64)
    requires
        food_pos.in_grid(),
    ensures
        GameStateView::opening(food_pos, last_update).sound(),
{
    let snake = SnakeView::start(start_position());
    assert(snake.body[0].pos != snake.head.pos);
}

/// Updates keep a session sound, as long as fresh food is placed on the field.
pub proof fn lemma_updated_sound(s: GameStateView, now: u64, fresh_food: GridPosition)
    requires
        s.sound(),
        fresh_food.in_grid(),
    ensures
        s.updated(now, fresh_food).sound(),
{
    if s.tick_due(now) && !s.gameover {
        lemma_step_in_grid(s.snake, s.food);
        lemma_step_apart(s.snake, s.food);
    }
}

/// Key presses keep a session sound, as long as fresh food is placed on the
/// field.
pub proof fn lemma_key_pressed_sound(s: GameStateView, key: KeyCode, fresh_food: GridPosition)
    requires
        s.sound(),
        fresh_food.in_grid(),
    ensures
        s.key_pressed(key, fresh_food).sound(),
{
    if s.gameover {
        lemma_opening_sound(fresh_food, s.last_update);
    } else if let Some(input) = Direction::spec_from_keycode(key) {
        lemma_steered_in_place(s.snake, input);
    }
}

/// The clock's latest reading never runs back through an update, and no two
/// ticks lie closer than the tick interval.
pub proof fn lemma_updated_clock(s: GameStateView, now: u64, fresh_food: GridPosition)
    ensures
        s.updated(now, fresh_food).last_update >= s.last_update,
        s.updated(now, fresh_food).last_update == if s.tick_due(now) {
            now
        } else {
            s.last_update
        },
        !s.updated(now, fresh_food).tick_due(now),
{
}

} // verus!
