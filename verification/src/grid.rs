//! Positions on the wrapped playing field.

use vstd::prelude::*;
use vstd::arithmetic::div_mod::{
    lemma_add_mod_noop_right, lemma_fundamental_div_mod, lemma_mod_bound,
    lemma_mod_multiples_vanish, lemma_mod_sub_multiples_vanish, lemma_small_mod,
};
use crate::chance::gen_range;
use crate::direction::Direction;

verus! {

/// Number of columns of the playing field.
pub const GRID_WIDTH: i16 = 30;

/// Number of rows of the playing field.
pub const GRID_HEIGHT: i16 = 20;

/// Width of one cell on the screen, in pixels.
pub const GRID_CELL_WIDTH: i16 = 32;

/// Height of one cell on the screen, in pixels.
pub const GRID_CELL_HEIGHT: i16 = 32;

/// A cell of the playing field, by column and row.
#[derive(Debug, Copy, Clone, PartialEq, Eq, Structural)]
pub struct GridPosition {
    pub x: i16,
    pub y: i16,
}

/// A rectangle of the screen, in whole pixels: its top left corner and its size.
#[derive(Debug, Copy, Clone, PartialEq, Eq, Structural)]
pub struct Rect {
    pub x: i32,
    pub y: i32,
    pub w: i32,
    pub h: i32,
}

impl From<(i16, i16)> for GridPosition {
    fn from(pos: (i16, i16)) -> (made: Self) {
        GridPosition { x: pos.0, y: pos.1 }
    }
}

impl vstd::std_specs::convert::FromSpecImpl<(i16, i16)> for GridPosition {
    open spec fn obeys_from_spec() -> bool {
        true
    }

    /// Column first, row second.
    open spec fn from_spec(pos: (i16, i16)) -> GridPosition {
        GridPosition { x: pos.0, y: pos.1 }
    }
}

/// A grid position converts into the rectangle that its cell covers on the screen.
impl From<GridPosition> for Rect {
    fn from(pos: GridPosition) -> (rect: Self) {
        Rect {
            x: pos.x as i32 * GRID_CELL_WIDTH as i32,
            y: pos.y as i32 * GRID_CELL_HEIGHT as i32,
            w: GRID_CELL_WIDTH as i32,
            h: GRID_CELL_HEIGHT as i32,
        }
    }
}

impl vstd::std_specs::convert::FromSpecImpl<GridPosition> for Rect {
    open spec fn obeys_from_spec() -> bool {
        true
    }

    /// Cells tile the screen from its top left corner, row by row.
    open spec fn from_spec(pos: GridPosition) -> Rect {
        Rect {
            x: (pos.x * GRID_CELL_WIDTH) as i32,
            y: (pos.y * GRID_CELL_HEIGHT) as i32,
            w: GRID_CELL_WIDTH as i32,
            h: GRID_CELL_HEIGHT as i32,
        }
    }
}

/// The position one step from `pos` in direction `dir`, both coordinates
/// reduced into the field by the non-negative remainder.
pub open spec fn spec_wrapped_move(pos: GridPosition, dir: Direction) -> GridPosition {
    GridPosition {
        x: ((pos.x + dir.dx()) % (GRID_WIDTH as int)) as i16,
        y: ((pos.y + dir.dy()) % (GRID_HEIGHT as int)) as i16,
    }
}

/// Reduces `v` into `0..size` by the non-negative remainder.
fn wrap_coordinate(v: i32, size: i16) -> (r: i16)
    requires
        0 < size,
    ensures
        r == (v as int) % (size as int),
        0 <= r < size,
{
    let r: i32 = v.checked_rem_euclid(size as i32).unwrap();
    r as i16
}

impl GridPosition {
    /// Whether the position lies on the playing field.
    pub open spec fn in_grid(self) -> bool {
        0 <= self.x < GRID_WIDTH && 0 <= self.y < GRID_HEIGHT
    }

    /// Creates a new grid position.
    pub fn new(x: i16, y: i16) -> (pos: Self)
        ensures
            pos == (GridPosition { x, y }),
    {
        GridPosition { x, y }
    }

    /// Creates a new random grid position from the range of `(0, 0)` to `(max_x, max_y)`.
    ///
    /// Each coordinate is drawn from the thread-local generator; the bounds are
    /// exclusive and must leave at least one value.
    pub fn random(max_x: i16, max_y: i16) -> (pos: Self)
        requires
            0 < max_x,
            0 < max_y,
        ensures
            0 <= pos.x < max_x,
            0 <= pos.y < max_y,
    {
        let mut rng = rand::thread_rng();
        let x: i16 = gen_range(&mut rng, 0, max_x);
        let y: i16 = gen_range(&mut rng, 0, max_y);
        GridPosition::new(x, y)
    }

    /// Move grid position by the given direction and wrap around the board.
    pub fn wrapped_move(pos: GridPosition, dir: Direction) -> (moved: Self)
        ensures
            moved == spec_wrapped_move(pos, dir),
            moved.in_grid(),
    {
        match dir {
            Direction::Up => GridPosition::new(
                wrap_coordinate(pos.x as i32, GRID_WIDTH),
                wrap_coordinate(pos.y as i32 - 1, GRID_HEIGHT),
            ),
            Direction::Down => GridPosition::new(
                wrap_coordinate(pos.x as i32, GRID_WIDTH),
                wrap_coordinate(pos.y as i32 + 1, GRID_HEIGHT),
            ),
            Direction::Left => GridPosition::new(
                wrap_coordinate(pos.x as i32 - 1, GRID_WIDTH),
                wrap_coordinate(pos.y as i32, GRID_HEIGHT),
            ),
            Direction::Right => GridPosition::new(
                wrap_coordinate(pos.x as i32 + 1, GRID_WIDTH),
                wrap_coordinate(pos.y as i32, GRID_HEIGHT),
            ),
        }
    }
}

/// The position `n` steps from `pos` in direction `dir`.
pub open spec fn repeated_move(pos: GridPosition, dir: Direction, n: nat) -> GridPosition
    decreases n,
{
    if n == 0 {
        pos
    } else {
        spec_wrapped_move(repeated_move(pos, dir, (n - 1) as nat), dir)
    }
}

/// Number of steps in direction `dir` that lead once around the field.
pub open spec fn circuit(dir: Direction) -> nat {
    match dir {
        Direction::Left | Direction::Right => GRID_WIDTH as nat,
        Direction::Up | Direction::Down => GRID_HEIGHT as nat,
    }
}

/// A move changes the cell: no position on the field is its own neighbour.
pub proof fn lemma_move_leaves(pos: GridPosition, dir: Direction)
    ensures
        spec_wrapped_move(pos, dir) != pos,
        spec_wrapped_move(pos, dir).in_grid(),
{
}

/// A move and the move in the inverse direction undo each other on the field.
pub proof fn lemma_move_back(pos: GridPosition, dir: Direction)
    requires
        pos.in_grid(),
    ensures
        spec_wrapped_move(spec_wrapped_move(pos, dir), dir.spec_inverse()) == pos,
{
}

/// Steps add up: `n` steps from a cell of the field lead to the cell whose
/// coordinates are the start's plus `n` offsets, reduced into the field.
pub proof fn lemma_repeated_move(pos: GridPosition, dir: Direction, n: nat)
    requires
        pos.in_grid(),
    ensures
        repeated_move(pos, dir, n).x == (pos.x + n * dir.dx()) % (GRID_WIDTH as int),
        repeated_move(pos, dir, n).y == (pos.y + n * dir.dy()) % (GRID_HEIGHT as int),
        repeated_move(pos, dir, n).in_grid(),
    decreases n,
{
    let w = GRID_WIDTH as int;
    let h = GRID_HEIGHT as int;
    let dx = dir.dx();
    let dy = dir.dy();
    if n == 0 {
        assert(n * dx == 0 && n * dy == 0);
        lemma_small_mod(pos.x as nat, w as nat);
        lemma_small_mod(pos.y as nat, h as nat);
    } else {
        let m = (n - 1) as nat;
        lemma_repeated_move(pos, dir, m);
        let before = repeated_move(pos, dir, m);
        assert(repeated_move(pos, dir, n) == spec_wrapped_move(before, dir));
        let ax = pos.x + m * dx;
        let ay = pos.y + m * dy;
        assert(n * dx == m * dx + dx && n * dy == m * dy + dy) by (nonlinear_arith)
            requires
                n == m + 1,
        ;
        lemma_add_mod_noop_right(dx, ax, w);
        lemma_add_mod_noop_right(dy, ay, h);
        lemma_mod_bound(ax + dx, w);
        lemma_mod_bound(ay + dy, h);
        assert((before.x + dx) % w == (pos.x + n * dx) % w);
        assert((before.y + dy) % h == (pos.y + n * dy) % h);
    }
}

/// On a ring of `m` cells, `k` steps from cell `x` lead back to `x` exactly
/// when `k` is a multiple of `m`.
proof fn lemma_ring_return(x: int, k: int, m: int)
    requires
        0 < m,
        0 <= x < m,
    ensures
        (x + k) % m == x <==> k % m == 0,
{
    let q = k / m;
    let r = k % m;
    lemma_fundamental_div_mod(k, m);
    lemma_mod_multiples_vanish(q, x + r, m);
    assert(x + k == m * q + (x + r));
    if x + r < m {
        lemma_small_mod((x + r) as nat, m as nat);
    } else {
        lemma_mod_sub_multiples_vanish(x + r, m);
        lemma_small_mod((x + r - m) as nat, m as nat);
    }
}

/// The field wraps exactly once per circuit: steps in one direction from a
/// cell of the field lead back to it exactly when their number is a multiple
/// of the field's extent in that direction.
pub proof fn lemma_wraps_once_per_circuit(pos: GridPosition, dir: Direction, n: nat)
    requires
        pos.in_grid(),
    ensures
        repeated_move(pos, dir, n) == pos <==> n % circuit(dir) == 0,
        repeated_move(pos, dir, circuit(dir)) == pos,
{
    let w = GRID_WIDTH as int;
    let h = GRID_HEIGHT as int;
    let k = n as int;
    let c = circuit(dir) as int;
    lemma_repeated_move(pos, dir, n);
    lemma_repeated_move(pos, dir, circuit(dir));
    lemma_ring_return(pos.x as int, k * dir.dx(), w);
    lemma_ring_return(pos.y as int, k * dir.dy(), h);
    lemma_ring_return(pos.x as int, c * dir.dx(), w);
    lemma_ring_return(pos.y as int, c * dir.dy(), h);
    lemma_negated_multiple(k, w);
    lemma_negated_multiple(k, h);
    assert(k * 1 == k && k * 0 == 0 && k * (-1) == -k);
    assert(c * 1 == c && c * 0 == 0 && c * (-1) == -c);
}

/// A number is a multiple of `m` exactly when its negation is.
proof fn lemma_negated_multiple(k: int, m: int)
    requires
        0 < m,
    ensures
        (-k) % m == 0 <==> k % m == 0,
{
    lemma_fundamental_div_mod(k, m);
    lemma_fundamental_div_mod(-k, m);
    if k % m == 0 {
        assert(-k == m * (-(k / m)) + 0) by (nonlinear_arith)
            requires
                k == m * (k / m),
        ;
        lemma_mod_multiples_vanish(-(k / m), 0, m);
        lemma_small_mod(0, m as nat);
    }
    if (-k) % m == 0 {
        assert(k == m * (-((-k) / m)) + 0) by (nonlinear_arith)
            requires
                -k == m * ((-k) / m),
        ;
        lemma_mod_multiples_vanish(-((-k) / m), 0, m);
        lemma_small_mod(0, m as nat);
    }
}

} // verus!
