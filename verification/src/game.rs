use vstd::prelude::*;

use rand::Rng;

use crate::grid::{in_grid, Cell, GRID_H, GRID_W};
use crate::snake::{
    heading_after, initial_body, move_ate, moved_body, self_collides, Direction, Snake,
};

verus! {

/// The lifecycle of one game: waiting to start, running, or over.
#[derive(Clone, Copy, PartialEq, Eq, Structural, Debug)]
pub enum GameState {
    Start,
    Running,
    GameOver,
}

/// One discrete input event, as the driving loop hands it over: a
/// directional key, the activation key, or any other (ignored) key.
#[derive(Clone, Copy, PartialEq, Eq, Structural, Debug)]
pub enum InputEvent {
    Directional(Direction),
    Activate,
    Other,
}

/// Some cell of the playfield is not occupied by the body.
pub open spec fn has_free_cell(body: Seq<Cell>) -> bool {
    exists|c: Cell| #[trigger] in_grid(c) && !body.contains(c)
}

/// Relies on rand::thread_rng and rand::Rng::gen_range: a draw from the
/// thread-local generator over the half-open range `0..bound` lies in that
/// range, and the range is non-empty, so the call does not panic.
#[verifier::external_body]
fn rand_below(bound: i32) -> (r: i32)
    requires
        bound > 0,
    ensures
        0 <= r < bound,
{
    rand::thread_rng().gen_range(0..bound)
}

/// Every playfield cell that the body does not occupy, and nothing else;
/// the result is empty exactly when the body covers the whole playfield.
fn free_cells(snake: &Snake) -> (v: Vec<Cell>)
    ensures
        forall|i: int|
            0 <= i < v@.len() ==> in_grid(#[trigger] v@[i]) && !snake.body@.contains(v@[i]),
        (v@.len() > 0) == has_free_cell(snake.body@),
        v@.len() <= GRID_W * GRID_H,
{
    let mut v: Vec<Cell> = Vec::new();
    let mut x: i32 = 0;
    while x < GRID_W
        invariant
            0 <= x <= GRID_W,
            forall|i: int|
                0 <= i < v@.len() ==> in_grid(#[trigger] v@[i]) && !snake.body@.contains(v@[i]),
            forall|c: Cell|
                #[trigger] in_grid(c) && c.x < x && !snake.body@.contains(c) ==> v@.contains(c),
            v@.len() <= x * GRID_H,
        decreases GRID_W - x,
    {
        let mut y: i32 = 0;
        while y < GRID_H
            invariant
                0 <= x < GRID_W,
                0 <= y <= GRID_H,
                forall|i: int|
                    0 <= i < v@.len() ==> in_grid(#[trigger] v@[i]) && !snake.body@.contains(
                        v@[i],
                    ),
                forall|c: Cell|
                    #[trigger] in_grid(c) && c.x < x && !snake.body@.contains(c) ==> v@.contains(c),
                forall|c: Cell|
                    #[trigger] in_grid(c) && c.x == x && c.y < y && !snake.body@.contains(c)
                        ==> v@.contains(c),
                v@.len() <= x * GRID_H + y,
            decreases GRID_H - y,
        {
            let c = Cell { x, y };
            if !snake.contains(c) {
                let ghost prev = v@;
                v.push(c);
                proof {
                    assert(v@[prev.len() as int] == c);
                    assert forall|d: Cell| prev.contains(d) implies v@.contains(d) by {
                        let i = choose|i: int| 0 <= i < prev.len() && prev[i] == d;
                        assert(v@[i] == d);
                    }
                }
            }
            y += 1;
        }
        x += 1;
    }
    proof {
        if has_free_cell(snake.body@) {
            let c = choose|c: Cell| #[trigger] in_grid(c) && !snake.body@.contains(c);
            assert(v@.contains(c));
        }
        if v@.len() > 0 {
            assert(in_grid(v@[0]) && !snake.body@.contains(v@[0]));
        }
    }
    v
}

/// The whole game: the snake, the food cell, the running score, the best
/// score seen so far, and the lifecycle state. The fields, read through a
/// shared reference, are the snapshot the presentation layer draws from.
pub struct Game {
    pub snake: Snake,
    pub food: Cell,
    pub score: u32,
    pub high_score: u32,
    pub state: GameState,
}

/// The body one tick would produce from this game.
pub open spec fn tick_body(g: Game) -> Seq<Cell> {
    moved_body(g.snake.body@, g.snake.dir, g.snake.grow_on_next)
}

/// Whether one tick from this game eats the food.
pub open spec fn tick_ate(g: Game) -> bool {
    move_ate(g.snake.body@, g.snake.dir, g.food)
}

/// Whether one tick from this game ends it: the moved head leaves the
/// playfield, the moved body overlaps itself, or food was eaten and no free
/// cell is left to put new food on.
pub open spec fn tick_ends(g: Game) -> bool {
    ||| !in_grid(tick_body(g)[0])
    ||| self_collides(tick_body(g))
    ||| (tick_ate(g) && !has_free_cell(tick_body(g)))
}

impl Game {
    /// The invariants every reachable game satisfies: the snake keeps at
    /// least three segments, and while the game is not over the head is on
    /// the playfield and the food is on the playfield but not on the body.
    pub open spec fn wf(self) -> bool {
        &&& self.snake.body@.len() >= 3
        &&& (self.state != GameState::GameOver ==> in_grid(self.snake.body@[0]))
        &&& (self.state != GameState::GameOver ==> in_grid(self.food) && !self.snake.body@.contains(
            self.food,
        ))
    }

    /// A fresh game: a fresh snake, food on a free cell, zero scores, waiting
    /// to start.
    pub fn new() -> (g: Game)
        ensures
            g.wf(),
            g.state == GameState::Start,
            g.score == 0,
            g.high_score == 0,
            g.snake.body@ == initial_body(),
            g.snake.dir == Direction::Right,
            !g.snake.grow_on_next,
    {
        let snake = Snake::new();
        let mut g = Game {
            snake,
            food: Cell { x: 0, y: 0 },
            score: 0,
            high_score: 0,
            state: GameState::Start,
        };
        proof {
            lemma_initial_body_has_free_cell();
        }
        g.spawn_food();
        g
    }

    /// Put the food on a free cell, drawn uniformly among all free cells, and
    /// report whether one existed; with the playfield fully covered nothing
    /// is placed and the report says so.
    pub fn spawn_food(&mut self) -> (placed: bool)
        ensures
            placed == has_free_cell(old(self).snake.body@),
            final(self).snake == old(self).snake,
            final(self).score == old(self).score,
            final(self).high_score == old(self).high_score,
            final(self).state == old(self).state,
            placed ==> in_grid(final(self).food) && !final(self).snake.body@.contains(
                final(self).food,
            ),
            !placed ==> final(self).food == old(self).food,
    {
        let v = free_cells(&self.snake);
        if v.len() == 0 {
            return false;
        }
        let i = rand_below(v.len() as i32);
        self.food = v[i as usize];
        true
    }

    /// Advance the simulation by one tick. Does nothing unless running.
    /// Otherwise: the snake takes one movement step; if it ate, the score
    /// rises by one, growth is marked for the next tick, and new food is
    /// placed; then, if the head left the playfield, the body overlaps
    /// itself, or no cell was free for new food, the game is over and the
    /// best score is brought up to the final score.
    pub fn update(&mut self)
        requires
            old(self).wf(),
            old(self).score < u32::MAX,
        ensures
            final(self).wf(),
            final(self).high_score >= old(self).high_score,
            old(self).state != GameState::Running ==> *final(self) == *old(self),
            old(self).state == GameState::Running ==> {
                &&& final(self).snake.body@ == tick_body(*old(self))
                &&& final(self).snake.dir == old(self).snake.dir
                &&& final(self).snake.grow_on_next == tick_ate(*old(self))
                &&& final(self).score == old(self).score + (if tick_ate(*old(self)) {
                    1int
                } else {
                    0int
                })
                &&& final(self).state == (if tick_ends(*old(self)) {
                    GameState::GameOver
                } else {
                    GameState::Running
                })
                &&& final(self).high_score == (if tick_ends(*old(self))
                    && final(self).score > old(self).high_score {
                    final(self).score as int
                } else {
                    old(self).high_score as int
                })
                &&& (!tick_ate(*old(self)) ==> final(self).food == old(self).food)
                &&& (tick_ate(*old(self)) && has_free_cell(tick_body(*old(self))) ==> in_grid(
                    final(self).food,
                ) && !tick_body(*old(self)).contains(final(self).food))
                &&& (tick_ate(*old(self)) && !has_free_cell(tick_body(*old(self)))
                    ==> final(self).food == old(self).food)
            },
    {
        match self.state {
            GameState::Running => {},
            _ => {
                return ;
            },
        }
        let food = self.food;
        let ate = self.snake.update(food);
        let mut board_full = false;
        if ate {
            self.score = self.score + 1;
            self.snake.grow();
            let placed = self.spawn_food();
            board_full = !placed;
        }
        let h = self.snake.head();
        if h.x < 0 || h.x >= GRID_W || h.y < 0 || h.y >= GRID_H || self.snake.self_collision()
            || board_full {
            self.state = GameState::GameOver;
            if self.score > self.high_score {
                self.high_score = self.score;
            }
        } else {
            proof {
                if !tick_ate(*old(self)) {
                    assert forall|i: int|
                        0 <= i < self.snake.body@.len() implies #[trigger] self.snake.body@[i]
                        != self.food by {
                        if i >= 1 {
                            assert(old(self).snake.body@[i - 1] != self.food);
                        }
                    }
                    assert(!self.snake.body@.contains(self.food));
                }
            }
        }
    }

    /// Consume one input event. Waiting to start, the activation key starts
    /// the game; running, a directional key changes the heading unless that
    /// would reverse it; over, the activation key resets the game. Every
    /// other event is ignored.
    pub fn pressed(&mut self, event: InputEvent)
        requires
            old(self).wf(),
        ensures
            final(self).wf(),
            final(self).high_score == old(self).high_score,
            old(self).state == GameState::Start ==> {
                &&& final(self).snake == old(self).snake
                &&& final(self).food == old(self).food
                &&& final(self).score == old(self).score
                &&& final(self).state == (if event == InputEvent::Activate {
                    GameState::Running
                } else {
                    GameState::Start
                })
            },
            old(self).state == GameState::Running ==> {
                &&& final(self).state == GameState::Running
                &&& final(self).score == old(self).score
                &&& final(self).food == old(self).food
                &&& final(self).snake.body == old(self).snake.body
                &&& final(self).snake.grow_on_next == old(self).snake.grow_on_next
                &&& final(self).snake.dir == (match event {
                    InputEvent::Directional(d) => heading_after(old(self).snake.dir, d),
                    _ => old(self).snake.dir,
                })
            },
            old(self).state == GameState::GameOver && event == InputEvent::Activate ==> {
                &&& final(self).state == GameState::Start
                &&& final(self).score == 0
                &&& final(self).snake.body@ == initial_body()
                &&& final(self).snake.dir == Direction::Right
                &&& !final(self).snake.grow_on_next
            },
            old(self).state == GameState::GameOver && event != InputEvent::Activate
                ==> *final(self) == *old(self),
    {
        match self.state {
            GameState::Start => {
                match event {
                    InputEvent::Activate => { self.state = GameState::Running; },
                    _ => {},
                }
            },
            GameState::Running => {
                match event {
                    InputEvent::Directional(d) => { self.snake.set_heading(d); },
                    _ => {},
                }
            },
            GameState::GameOver => {
                match event {
                    InputEvent::Activate => { self.reset(); },
                    _ => {},
                }
            },
        }
    }

    /// Tear the game down to a fresh one, keeping only the best score seen.
    pub fn reset(&mut self)
        ensures
            final(self).wf(),
            final(self).state == GameState::Start,
            final(self).score == 0,
            final(self).high_score == old(self).high_score,
            final(self).snake.body@ == initial_body(),
            final(self).snake.dir == Direction::Right,
            !final(self).snake.grow_on_next,
    {
        self.snake = Snake::new();
        self.score = 0;
        self.state = GameState::Start;
        proof {
            lemma_initial_body_has_free_cell();
        }
        self.spawn_food();
    }
}

/// A fresh snake's body leaves playfield cells free; the corner cell is one.
proof fn lemma_initial_body_has_free_cell()
    ensures
        has_free_cell(initial_body()),
{
    let c = Cell { x: 0, y: 0 };
    assert(in_grid(c));
    assert(!initial_body().contains(c)) by {
        assert forall|i: int| 0 <= i < initial_body().len() implies initial_body()[i] != c by {}
    }
}

/// In every well-formed game the snake keeps at least three segments.
pub proof fn lemma_length_invariant(g: Game)
    requires
        g.wf(),
    ensures
        g.snake.body@.len() >= 3,
{
}

} // verus!
