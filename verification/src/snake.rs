//! The snake: an ordered body behind a head, a heading, and the rule by which
//! one tick moves it.

use std::collections::VecDeque;
use vstd::prelude::*;
use crate::direction::Direction;
use crate::grid::{spec_wrapped_move, GridPosition};

verus! {

/// A segment of the snake.
#[derive(Debug, Copy, Clone, PartialEq, Eq, Structural)]
pub struct Segment {
    pub pos: GridPosition,
}

impl Segment {
    /// Creates a new `Segment` at the `pos`.
    pub fn new(pos: GridPosition) -> (seg: Self)
        ensures
            seg == (Segment { pos }),
    {
        Segment { pos }
    }
}

/// A piece of food the snake can eat.
#[derive(Debug, Copy, Clone, PartialEq, Eq, Structural)]
pub struct Food {
    pub pos: GridPosition,
}

impl Food {
    /// Creates a new `Food` at the given `pos`.
    pub fn new(pos: GridPosition) -> (food: Self)
        ensures
            food == (Food { pos }),
    {
        Food { pos }
    }
}

/// Represents all possible things the snake could have "eaten" during an update. Either being a
/// piece of `Food`, or it may have eaten `Itself` if it ran into its body.
#[derive(Debug, Copy, Clone, PartialEq, Eq, Structural)]
pub enum Ate {
    Itself,
    Food,
}

/// Whether one of `body`'s segments lies at `pos`.
pub open spec fn occupies(body: Seq<Segment>, pos: GridPosition) -> bool {
    exists|i: int| 0 <= i < body.len() && (#[trigger] body[i]).pos == pos
}

/// Whether no two of `body`'s segments share a cell.
pub open spec fn pairwise_apart(body: Seq<Segment>) -> bool {
    forall|i: int, j: int|
        0 <= i < j < body.len() ==> (#[trigger] body[i]).pos != (#[trigger] body[j]).pos
}

/// The snake entity that the player controls to direct it to the food to grow the snake and avoid
/// hitting into itself and dying.
#[derive(Debug)]
pub struct Snake {
    /// The head of the snake.
    pub head: Segment,
    /// The current direction the snake will move in the next `update`.
    pub dir: Direction,
    /// The body of the snake, the segment next to the head first.
    pub body: VecDeque<Segment>,
    /// The last update of whether the snake ate Itself (`Some(Ate::Itself)`), Food
    /// (`Some(Ate::Food)`), or nothing (`None`).
    pub ate: Option<Ate>,
    /// The direction the snake previously travelled in the last `update`. Used to determine the
    /// possible valid directions of the next move.
    pub last_update_dir: Direction,
    /// Stores the next direction that the snake will travel in the next `update` after. Used to
    /// allow the user to choose two directions (e.g., left than up).
    pub next_dir: Option<Direction>,
}

/// A snake as mathematical data: the fields of [`Snake`], the body as a sequence.
pub struct SnakeView {
    pub head: Segment,
    pub dir: Direction,
    pub body: Seq<Segment>,
    pub ate: Option<Ate>,
    pub last_update_dir: Direction,
    pub next_dir: Option<Direction>,
}

impl View for Snake {
    type V = SnakeView;

    open spec fn view(&self) -> SnakeView {
        SnakeView {
            head: self.head,
            dir: self.dir,
            body: self.body@,
            ate: self.ate,
            last_update_dir: self.last_update_dir,
            next_dir: self.next_dir,
        }
    }
}

impl SnakeView {
    /// The snake that starts a session at `pos`: one body segment to the left
    /// of the head, heading right, nothing eaten and no turn buffered.
    pub open spec fn start(pos: GridPosition) -> SnakeView {
        SnakeView {
            head: Segment { pos },
            dir: Direction::Right,
            body: seq![Segment { pos: GridPosition { x: (pos.x - 1) as i16, y: pos.y } }],
            ate: None,
            last_update_dir: Direction::Right,
            next_dir: None,
        }
    }

    /// Number of cells the snake covers: the head and the body.
    pub open spec fn length(self) -> nat {
        self.body.len() + 1
    }

    /// Whether head and body all lie on the playing field.
    pub open spec fn in_grid(self) -> bool {
        &&& self.head.pos.in_grid()
        &&& forall|i: int| 0 <= i < self.body.len() ==> (#[trigger] self.body[i]).pos.in_grid()
    }

    /// Whether no two cells of the snake, head included, coincide.
    pub open spec fn apart(self) -> bool {
        &&& !occupies(self.body, self.head.pos)
        &&& pairwise_apart(self.body)
    }

    /// Whether the next tick takes the buffered turn: a turn is buffered, and the
    /// heading asked for has already been travelled.
    pub open spec fn commits_turn(self) -> bool {
        self.last_update_dir == self.dir && self.next_dir is Some
    }

    /// The direction in which the next tick moves the head.
    pub open spec fn heading(self) -> Direction {
        if self.commits_turn() {
            self.next_dir->0
        } else {
            self.dir
        }
    }

    /// Where the next tick puts the head.
    pub open spec fn next_head(self) -> Segment {
        Segment { pos: spec_wrapped_move(self.head.pos, self.heading()) }
    }

    /// The body once the head has been pushed onto its front.
    pub open spec fn grown_body(self) -> Seq<Segment> {
        seq![self.head] + self.body
    }

    /// What the next tick's head runs into. The snake's own body, the former
    /// head included, counts before the food does.
    pub open spec fn outcome(self, food: Food) -> Option<Ate> {
        if occupies(self.grown_body(), self.next_head().pos) {
            Some(Ate::Itself)
        } else if self.next_head().pos == food.pos {
            Some(Ate::Food)
        } else {
            None
        }
    }

    /// The snake after the player asks for direction `input`. While a turn
    /// waits to be travelled, the input is buffered unless it reverses that
    /// turn; otherwise it becomes the heading unless it reverses the direction
    /// last travelled.
    pub open spec fn steered(self, input: Direction) -> SnakeView {
        if self.dir != self.last_update_dir && input.spec_inverse() != self.dir {
            SnakeView { next_dir: Some(input), ..self }
        } else if input.spec_inverse() != self.last_update_dir {
            SnakeView { dir: input, ..self }
        } else {
            self
        }
    }

    /// The snake after one tick with `food` on the field. The tail is dropped
    /// only if nothing was eaten.
    pub open spec fn step(self, food: Food) -> SnakeView {
        let ate = self.outcome(food);
        SnakeView {
            head: self.next_head(),
            dir: self.heading(),
            body: if ate is None {
                self.grown_body().drop_last()
            } else {
                self.grown_body()
            },
            ate,
            last_update_dir: self.heading(),
            next_dir: if self.commits_turn() {
                None
            } else {
                self.next_dir
            },
        }
    }
}

impl Snake {
    /// Creates a new snake from the pos with one head and body segment moving to the right.
    pub fn new(pos: GridPosition) -> (snake: Self)
        requires
            pos.x > i16::MIN,
        ensures
            snake@ == SnakeView::start(pos),
    {
        let mut body = VecDeque::new();

        body.push_back(Segment::new(GridPosition::new(pos.x - 1, pos.y)));
        Snake {
            head: Segment::new(GridPosition::new(pos.x, pos.y)),
            dir: Direction::Right,
            last_update_dir: Direction::Right,
            body,
            ate: None,
            next_dir: None,
        }
    }

    /// Whether the head lies on the food.
    pub fn eats(&self, food: &Food) -> (hit: bool)
        ensures
            hit == (self.head.pos == food.pos),
    {
        self.head.pos == food.pos
    }

    /// Whether the head lies on a segment of the body.
    pub fn eats_self(&self) -> (hit: bool)
        ensures
            hit == occupies(self.body@, self.head.pos),
    {
        let n = self.body.len();
        let mut i: usize = 0;
        while i < n
            invariant
                n == self.body@.len(),
                i <= n,
                forall|j: int| 0 <= j < i ==> (#[trigger] self.body@[j]).pos != self.head.pos,
            decreases n - i,
        {
            if self.head.pos == self.body[i].pos {
                return true;
            }
            i += 1;
        }
        false
    }

    /// Advances the snake by one tick: commits a buffered turn if it is due,
    /// moves the head one cell, and grows or shifts the body by what the head met.
    pub fn update(&mut self, food: &Food)
        ensures
            final(self)@ == old(self)@.step(*food),
            final(self).head.pos.in_grid(),
            occupies(old(self)@.grown_body(), final(self).head.pos) ==> final(self).ate == Some(
                Ate::Itself,
            ),
            old(self)@.in_grid() ==> final(self)@.in_grid(),
            old(self)@.apart() && final(self).ate != Some(Ate::Itself) ==> final(self)@.apart(),
    {
        proof {
            lemma_step_in_grid(self@, *food);
            if self@.apart() {
                lemma_step_apart(self@, *food);
            }
        }

        if self.last_update_dir == self.dir && self.next_dir.is_some() {
            self.dir = self.next_dir.unwrap();
            self.next_dir = None;
        }

        let new_head_pos = GridPosition::wrapped_move(self.head.pos, self.dir);
        let new_head = Segment::new(new_head_pos);

        // Grow the snake by pushing the current head `Segment` to the front of our body.
        self.body.push_front(self.head);
        self.head = new_head;

        self.ate = if self.eats_self() {
            Some(Ate::Itself)
        } else if self.eats(food) {
            Some(Ate::Food)
        } else {
            None
        };

        // If we didn't eat anything this `update`, we remove the last segment from our body, which
        // gives the illusion that the snake is moving.
        if self.ate.is_none() {
            self.body.pop_back();
        }

        self.last_update_dir = self.dir;
    }
}

/// A tick lengthens the snake by one cell exactly if it eats, the food or
/// itself, and else keeps its length; the former head becomes the first
/// segment of the body unless the snake is a bare head that ate nothing.
pub proof fn lemma_step_length(s: SnakeView, food: Food)
    ensures
        s.outcome(food) is None ==> s.step(food).length() == s.length(),
        s.outcome(food) is Some ==> s.step(food).length() == s.length() + 1,
        s.step(food).ate == s.outcome(food),
        s.step(food).body.len() > 0 ==> s.step(food).body[0] == s.head,
{
}

/// A tick onto the food: where the next head lands on the food and on no
/// segment of the grown body, the tick reports `Food` and the body is the old
/// one with the former head in front, one segment longer.
pub proof fn lemma_step_onto_food(s: SnakeView, food: Food)
    requires
        s.next_head().pos == food.pos,
        !occupies(s.grown_body(), food.pos),
    ensures
        s.step(food).ate == Some(Ate::Food),
        s.step(food).head.pos == food.pos,
        s.step(food).body == seq![s.head] + s.body,
        s.step(food).body.len() == s.body.len() + 1,
{
}

/// A tick past the food: where the next head lands neither on the food nor on
/// the grown body, nothing is eaten, and the body is the old one with the
/// former head in front and the tail gone, as long as before.
pub proof fn lemma_step_onto_free_cell(s: SnakeView, food: Food)
    requires
        s.next_head().pos != food.pos,
        !occupies(s.grown_body(), s.next_head().pos),
    ensures
        s.step(food).ate is None,
        s.step(food).body == (seq![s.head] + s.body).drop_last(),
        s.step(food).body.len() == s.body.len(),
{
}

/// The head's own body comes first: where the next head lands on the grown
/// body, the tick reports `Itself` whatever the food's cell, and the tail stays.
pub proof fn lemma_collision_before_food(s: SnakeView, food: Food)
    requires
        occupies(s.grown_body(), s.next_head().pos),
    ensures
        s.step(food).ate == Some(Ate::Itself),
        s.step(food).body == s.grown_body(),
{
}

/// A tick keeps the snake on the field, and puts the head on it in any case.
pub proof fn lemma_step_in_grid(s: SnakeView, food: Food)
    ensures
        s.step(food).head.pos.in_grid(),
        s.in_grid() ==> s.step(food).in_grid(),
{
    let t = s.step(food);
    if s.in_grid() {
        assert forall|i: int| 0 <= i < t.body.len() implies (#[trigger] t.body[i]).pos.in_grid() by {
            assert(t.body[i] == s.grown_body()[i]);
            if i > 0 {
                assert(s.grown_body()[i] == s.body[i - 1]);
            }
        }
    }
}

/// A snake that does not overlap itself still does not after a tick, unless
/// the tick reports that it ran into itself.
pub proof fn lemma_step_apart(s: SnakeView, food: Food)
    requires
        s.apart(),
    ensures
        s.step(food).ate != Some(Ate::Itself) ==> s.step(food).apart(),
{
    let t = s.step(food);
    let grown = s.grown_body();
    if t.ate != Some(Ate::Itself) {
        assert(!occupies(grown, t.head.pos));
        assert forall|i: int, j: int| 0 <= i < j < grown.len() implies (#[trigger] grown[i]).pos
            != (#[trigger] grown[j]).pos by {
            assert(grown[j] == s.body[j - 1]);
            if i > 0 {
                assert(grown[i] == s.body[i - 1]);
            }
        }
        assert forall|i: int, j: int| 0 <= i < j < t.body.len() implies (#[trigger] t.body[i]).pos
            != (#[trigger] t.body[j]).pos by {
            assert(t.body[i] == grown[i]);
            assert(t.body[j] == grown[j]);
        }
        if occupies(t.body, t.head.pos) {
            let i = choose|i: int| 0 <= i < t.body.len() && (#[trigger] t.body[i]).pos == t.head.pos;
            assert(grown[i] == t.body[i]);
        }
    }
}

/// The reversal guard. An input that reverses the direction last travelled is
/// never taken as the heading, and one that reverses the heading is never
/// buffered; so while no turn waits to be travelled, the reverse of the
/// heading changes nothing at all.
pub proof fn lemma_reversal_guard(s: SnakeView, input: Direction)
    ensures
        input == s.last_update_dir.spec_inverse() ==> s.steered(input).dir == s.dir,
        input == s.dir.spec_inverse() ==> s.steered(input).next_dir == s.next_dir,
        s.dir == s.last_update_dir && input == s.dir.spec_inverse() ==> s.steered(input) == s,
{
}

/// Steering moves nothing: head, body, the latest outcome and the direction
/// last travelled stay as they are.
pub proof fn lemma_steered_in_place(s: SnakeView, input: Direction)
    ensures
        s.steered(input).head == s.head,
        s.steered(input).body == s.body,
        s.steered(input).ate == s.ate,
        s.steered(input).last_update_dir == s.last_update_dir,
{
}

} // verus!
