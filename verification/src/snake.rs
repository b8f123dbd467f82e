use vstd::prelude::*;

use crate::grid::{Cell, GRID_H, GRID_W};

verus! {

/// The direction the snake will move on its next tick.
#[derive(Clone, Copy, PartialEq, Eq, Structural, Debug)]
pub enum Direction {
    Up,
    Down,
    Left,
    Right,
}

/// The geometric opposite of a direction.
pub open spec fn opposite(d: Direction) -> Direction {
    match d {
        Direction::Up => Direction::Down,
        Direction::Down => Direction::Up,
        Direction::Left => Direction::Right,
        Direction::Right => Direction::Left,
    }
}

/// The heading that results from proposing a new heading: a proposal that
/// would reverse the current heading is rejected and the current one kept.
pub open spec fn heading_after(current: Direction, proposed: Direction) -> Direction {
    if proposed == opposite(current) {
        current
    } else {
        proposed
    }
}

/// An accepted heading change never reverses the heading held before it:
/// whatever is proposed, the new heading is not the old one's opposite.
pub proof fn lemma_no_reversal(current: Direction, proposed: Direction)
    ensures
        heading_after(current, proposed) != opposite(current),
{
}

/// The cell one step away from `c` in direction `d`.
pub open spec fn step_cell(c: Cell, d: Direction) -> Cell {
    match d {
        Direction::Left => Cell { x: (c.x - 1) as i32, y: c.y },
        Direction::Right => Cell { x: (c.x + 1) as i32, y: c.y },
        Direction::Up => Cell { x: c.x, y: (c.y - 1) as i32 },
        Direction::Down => Cell { x: c.x, y: (c.y + 1) as i32 },
    }
}

/// The body after one movement step: the stepped head is pushed at the
/// front; unless growth is pending, the tail is dropped.
pub open spec fn moved_body(body: Seq<Cell>, d: Direction, grow_pending: bool) -> Seq<Cell> {
    let pushed = seq![step_cell(body[0], d)] + body;
    if grow_pending {
        pushed
    } else {
        pushed.drop_last()
    }
}

/// Whether one movement step eats the food: the stepped head lands on it.
pub open spec fn move_ate(body: Seq<Cell>, d: Direction, food: Cell) -> bool {
    step_cell(body[0], d) == food
}

/// A body collides with itself when some segment behind the head occupies
/// the head's cell.
pub open spec fn self_collides(body: Seq<Cell>) -> bool {
    exists|i: int| 1 <= i < body.len() && #[trigger] body[i] == body[0]
}

/// The three segments a fresh snake starts with: centered, head first,
/// extending to the left of the head.
pub open spec fn initial_body() -> Seq<Cell> {
    seq![
        Cell { x: (GRID_W / 2) as i32, y: (GRID_H / 2) as i32 },
        Cell { x: (GRID_W / 2 - 1) as i32, y: (GRID_H / 2) as i32 },
        Cell { x: (GRID_W / 2 - 2) as i32, y: (GRID_H / 2) as i32 },
    ]
}

/// Movement is a function of the prior body, heading, growth flag and food
/// alone: identical states step to identical bodies and identical outcomes.
pub proof fn lemma_move_deterministic(
    body1: Seq<Cell>,
    dir1: Direction,
    grow1: bool,
    food1: Cell,
    body2: Seq<Cell>,
    dir2: Direction,
    grow2: bool,
    food2: Cell,
)
    requires
        body1 == body2,
        dir1 == dir2,
        grow1 == grow2,
        food1 == food2,
    ensures
        moved_body(body1, dir1, grow1) == moved_body(body2, dir2, grow2),
        move_ate(body1, dir1, food1) == move_ate(body2, dir2, food2),
{
}

/// Growth lags eating by one tick: the step that eats (growth not yet
/// pending) leaves the length unchanged, and the following step, taken with
/// growth pending, lengthens the body by exactly one.
pub proof fn lemma_growth_lag(body: Seq<Cell>, dir1: Direction, food: Cell, dir2: Direction)
    requires
        body.len() >= 1,
        move_ate(body, dir1, food),
    ensures
        moved_body(body, dir1, false).len() == body.len(),
        moved_body(moved_body(body, dir1, false), dir2, true).len() == body.len() + 1,
{
}

/// The snake: an ordered body of cells (front = head), a heading, and a
/// flag recording that food was eaten so the next step must lengthen the body.
pub struct Snake {
    pub body: Vec<Cell>,
    pub dir: Direction,
    pub grow_on_next: bool,
}

impl Snake {
    /// A fresh snake: three segments, centered, heading right, no growth pending.
    pub fn new() -> (s: Snake)
        ensures
            s.body@ == initial_body(),
            s.dir == Direction::Right,
            !s.grow_on_next,
    {
        let x: i32 = GRID_W / 2;
        let y: i32 = GRID_H / 2;
        let mut body: Vec<Cell> = Vec::new();
        body.push(Cell { x, y });
        body.push(Cell { x: x - 1, y });
        body.push(Cell { x: x - 2, y });
        proof {
            assert(body@ =~= initial_body());
        }
        Snake { body, dir: Direction::Right, grow_on_next: false }
    }

    /// The cell at the front of the body.
    pub fn head(&self) -> (c: Cell)
        requires
            self.body@.len() >= 1,
        ensures
            c == self.body@[0],
    {
        self.body[0]
    }

    /// Whether some cell of the body is `c`.
    pub fn contains(&self, c: Cell) -> (r: bool)
        ensures
            r == self.body@.contains(c),
    {
        let n = self.body.len();
        let mut i: usize = 0;
        while i < n
            invariant
                n == self.body@.len(),
                0 <= i <= n,
                forall|j: int| 0 <= j < i ==> self.body@[j] != c,
            decreases n - i,
        {
            if self.body[i] == c {
                return true;
            }
            i += 1;
        }
        false
    }

    /// One movement step: push the stepped head at the front; report whether
    /// it landed on the food; unless growth was pending, drop the tail, so
    /// the length stays the same; a pending growth is consumed and keeps the
    /// tail, lengthening the body by one.
    pub fn update(&mut self, food: Cell) -> (ate: bool)
        requires
            old(self).body@.len() >= 1,
            old(self).dir == Direction::Left ==> old(self).body@[0].x > i32::MIN,
            old(self).dir == Direction::Right ==> old(self).body@[0].x < i32::MAX,
            old(self).dir == Direction::Up ==> old(self).body@[0].y > i32::MIN,
            old(self).dir == Direction::Down ==> old(self).body@[0].y < i32::MAX,
        ensures
            final(self).body@ == moved_body(old(self).body@, old(self).dir, old(self).grow_on_next),
            ate == move_ate(old(self).body@, old(self).dir, food),
            final(self).dir == old(self).dir,
            !final(self).grow_on_next,
    {
        let head = self.body[0];
        let new_head = match self.dir {
            Direction::Left => Cell { x: head.x - 1, y: head.y },
            Direction::Right => Cell { x: head.x + 1, y: head.y },
            Direction::Up => Cell { x: head.x, y: head.y - 1 },
            Direction::Down => Cell { x: head.x, y: head.y + 1 },
        };
        self.body.insert(0, new_head);
        let ate = new_head == food;
        if self.grow_on_next {
            self.grow_on_next = false;
        } else {
            self.body.pop();
        }
        proof {
            assert(self.body@ =~= moved_body(old(self).body@, old(self).dir, old(
                self,
            ).grow_on_next));
        }
        ate
    }

    /// Mark that food was eaten, so that the next movement step lengthens the
    /// body instead of dropping the tail.
    pub fn grow(&mut self)
        ensures
            final(self).body == old(self).body,
            final(self).dir == old(self).dir,
            final(self).grow_on_next,
    {
        self.grow_on_next = true;
    }

    /// Whether any segment behind the head occupies the head's cell.
    pub fn self_collision(&self) -> (r: bool)
        requires
            self.body@.len() >= 1,
        ensures
            r == self_collides(self.body@),
    {
        let head = self.body[0];
        let n = self.body.len();
        let mut i: usize = 1;
        while i < n
            invariant
                n == self.body@.len(),
                n >= 1,
                1 <= i <= n,
                head == self.body@[0],
                forall|j: int| 1 <= j < i ==> #[trigger] self.body@[j] != self.body@[0],
            decreases n - i,
        {
            if self.body[i] == head {
                return true;
            }
            i += 1;
        }
        false
    }

    /// Change the heading to `proposed` unless that would reverse the
    /// current heading, in which case the current heading is kept.
    pub fn set_heading(&mut self, proposed: Direction)
        ensures
            final(self).dir == heading_after(old(self).dir, proposed),
            final(self).dir != opposite(old(self).dir),
            final(self).body == old(self).body,
            final(self).grow_on_next == old(self).grow_on_next,
    {
        let blocked = match (self.dir, proposed) {
            (Direction::Up, Direction::Down) => true,
            (Direction::Down, Direction::Up) => true,
            (Direction::Left, Direction::Right) => true,
            (Direction::Right, Direction::Left) => true,
            _ => false,
        };
        if !blocked {
            self.dir = proposed;
        }
    }
}

} // verus!
