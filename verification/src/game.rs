use vstd::prelude::*;
use std::collections::VecDeque;
use crate::direction::Direction;
use crate::random::random_coord;

verus! {

/// Upper coordinate bound of the playfield: cells run from 1 to this
/// value on both axes.
pub const GRID_MAX: u32 = 10;

/// Side length, in pixels, of one grid cell as the renderer projects it.
pub const CELL_PIXELS: u32 = 50;

/// Pixel margin between the window edge and the first cell.
pub const GRID_MARGIN: u32 = 5;

/// A playfield cell, addressed by 1-based grid coordinates.
#[derive(Clone, Copy, PartialEq, Eq, Structural, Debug)]
pub struct Cell {
    pub x: u32,
    pub y: u32,
}

impl Cell {
    /// The cell lies on the playfield.
    pub open spec fn in_bounds(self) -> bool {
        1 <= self.x <= GRID_MAX && 1 <= self.y <= GRID_MAX
    }
}

/// One coordinate step towards the origin, wrapping at zero as unsigned
/// arithmetic does. A wrapped coordinate is far above `GRID_MAX`, so a
/// move below the grid surfaces as an upper-bound violation on the same
/// step.
pub open spec fn dec_coord(v: u32) -> u32 {
    if v == 0 {
        u32::MAX
    } else {
        (v - 1) as u32
    }
}

/// One coordinate step away from the origin, wrapping at the numeric
/// limit as unsigned arithmetic does.
pub open spec fn inc_coord(v: u32) -> u32 {
    if v == u32::MAX {
        0
    } else {
        (v + 1) as u32
    }
}

/// The cell the head moves onto when it advances one step from `head`
/// in direction `dir`.
pub open spec fn next_head(head: Cell, dir: Direction) -> Cell {
    match dir {
        Direction::Left => Cell { x: dec_coord(head.x), y: head.y },
        Direction::Right => Cell { x: inc_coord(head.x), y: head.y },
        Direction::Up => Cell { x: head.x, y: dec_coord(head.y) },
        Direction::Down => Cell { x: head.x, y: inc_coord(head.y) },
    }
}

/// The head has left the playfield. Only the upper bound is tested: a
/// coordinate of zero still counts as on the field, and a wrap below
/// zero lands far above `GRID_MAX`.
pub open spec fn exceeds_grid(c: Cell) -> bool {
    c.x > GRID_MAX || c.y > GRID_MAX
}

/// The body after one movement step: the new head is put in front, and
/// unless the snake grows, the tail cell is dropped again.
pub open spec fn stepped_body(body: Seq<Cell>, new_head: Cell, grow: bool) -> Seq<Cell> {
    if grow {
        seq![new_head] + body
    } else {
        (seq![new_head] + body).drop_last()
    }
}

/// The body length after a movement step is unchanged unless the snake
/// grows, and then it is larger by exactly one cell.
pub proof fn lemma_step_length(body: Seq<Cell>, new_head: Cell, grow: bool)
    requires
        body.len() >= 1,
    ensures
        grow ==> stepped_body(body, new_head, grow).len() == body.len() + 1,
        !grow ==> stepped_body(body, new_head, grow).len() == body.len(),
{
}

/// The snake: its body cells, head first, and its travel direction.
pub struct Snake {
    pub body: VecDeque<Cell>,
    pub dir: Direction,
}

impl Snake {
    /// The body is never empty.
    pub open spec fn wf(self) -> bool {
        self.body@.len() >= 1
    }

    /// The cell the head occupies.
    pub open spec fn head_spec(self) -> Cell {
        self.body@[0]
    }

    /// Advance the snake one cell in its current direction. `collide`
    /// says whether the coin was eaten on the previous step; if so the
    /// tail is kept and the body grows by one cell, otherwise the tail
    /// cell is dropped and the length stays the same. Returns `false`
    /// exactly when the new head has left the playfield.
    pub fn update(&mut self, collide: bool) -> (alive: bool)
        requires
            old(self).wf(),
        ensures
            final(self).wf(),
            final(self).dir == old(self).dir,
            final(self).body@ == stepped_body(
                old(self).body@,
                next_head(old(self).head_spec(), old(self).dir),
                collide,
            ),
            final(self).head_spec() == next_head(old(self).head_spec(), old(self).dir),
            final(self).body@.len() == old(self).body@.len() + (if collide { 1int } else { 0int }),
            alive == !exceeds_grid(next_head(old(self).head_spec(), old(self).dir)),
    {
        let head: Cell = self.body[0];
        let new_head = match self.dir {
            Direction::Left => Cell { x: if head.x == 0 { u32::MAX } else { head.x - 1 }, y: head.y },
            Direction::Right => Cell { x: if head.x == u32::MAX { 0 } else { head.x + 1 }, y: head.y },
            Direction::Up => Cell { x: head.x, y: if head.y == 0 { u32::MAX } else { head.y - 1 } },
            Direction::Down => Cell { x: head.x, y: if head.y == u32::MAX { 0 } else { head.y + 1 } },
        };
        self.body.push_front(new_head);
        if !collide {
            let _ = self.body.pop_back();
        }
        new_head.x <= GRID_MAX && new_head.y <= GRID_MAX
    }
}

/// The coin the snake is chasing. Exactly one exists at a time.
#[derive(Clone, Copy, PartialEq, Eq, Structural, Debug)]
pub struct Coin {
    pub x_pos: u32,
    pub y_pos: u32,
}

impl Coin {
    /// The cell the coin occupies.
    pub open spec fn pos(self) -> Cell {
        Cell { x: self.x_pos, y: self.y_pos }
    }

    /// The coin lies on the playfield.
    pub open spec fn in_bounds(self) -> bool {
        self.pos().in_bounds()
    }

    /// True exactly when the snake's head sits on the coin.
    pub fn collide(&self, snake: &Snake) -> (r: bool)
        requires
            snake.wf(),
        ensures
            r == (snake.head_spec() == self.pos()),
    {
        let head: Cell = snake.body[0];
        head.x == self.x_pos && head.y == self.y_pos
    }
}

/// The outcome of one simulation step: either the game goes on, or the
/// head has left the playfield and the game is over.
#[derive(Clone, Copy, PartialEq, Eq, Structural, Debug)]
pub enum TickResult {
    Continue,
    Terminated,
}

/// The whole game state: the snake, the coin, and the collide flag that
/// records, for one step, that the head landed on the coin.
pub struct Game {
    pub snake: Snake,
    pub coin: Coin,
    pub collide: bool,
}

impl Game {
    /// The snake has a body and the coin lies on the playfield.
    pub open spec fn wf(self) -> bool {
        self.snake.wf() && self.coin.in_bounds()
    }

    /// The fixed starting state: a two-cell snake heading right, and the
    /// coin at (2, 2).
    pub fn new() -> (g: Game)
        ensures
            g.wf(),
            g.snake.body@ == seq![Cell { x: 5, y: 5 }, Cell { x: 5, y: 4 }],
            g.snake.dir == Direction::Right,
            g.coin.pos() == (Cell { x: 2, y: 2 }),
            !g.collide,
    {
        let mut body: VecDeque<Cell> = VecDeque::new();
        body.push_back(Cell { x: 5, y: 5 });
        body.push_back(Cell { x: 5, y: 4 });
        Game {
            snake: Snake { body, dir: Direction::Right },
            coin: Coin { x_pos: 2, y_pos: 2 },
            collide: false,
        }
    }

    /// Request a change of travel direction. A request for the exact
    /// opposite of the current direction is silently ignored, so the
    /// snake can never reverse straight onto its own neck; any other
    /// request takes effect for the next step.
    pub fn set_direction(&mut self, requested: Direction)
        ensures
            final(self).snake.dir == old(self).snake.dir.turn_spec(requested),
            final(self).snake.body@ == old(self).snake.body@,
            final(self).coin == old(self).coin,
            final(self).collide == old(self).collide,
    {
        if !(requested == self.snake.dir.opposite()) {
            self.snake.dir = requested;
        }
    }

    /// One simulation step, with the cell the coin respawns to (should it
    /// be eaten on this step) supplied by the caller. In order: the snake
    /// advances, growing exactly when the coin was eaten on the previous
    /// step; if the new head has left the grid the game is over and
    /// nothing else changes; otherwise the collide flag records whether
    /// the head landed on the coin, and if it did, the coin moves to
    /// (`coin_x`, `coin_y`).
    pub fn tick_with(&mut self, coin_x: u32, coin_y: u32) -> (r: TickResult)
        requires
            old(self).wf(),
            1 <= coin_x <= GRID_MAX,
            1 <= coin_y <= GRID_MAX,
        ensures
            final(self).wf(),
            final(self).snake.dir == old(self).snake.dir,
            final(self).snake.body@ == stepped_body(
                old(self).snake.body@,
                next_head(old(self).snake.head_spec(), old(self).snake.dir),
                old(self).collide,
            ),
            final(self).snake.body@.len() == old(self).snake.body@.len()
                + (if old(self).collide { 1int } else { 0int }),
            (r == TickResult::Terminated) == exceeds_grid(
                next_head(old(self).snake.head_spec(), old(self).snake.dir),
            ),
            exceeds_grid(next_head(old(self).snake.head_spec(), old(self).snake.dir)) ==> {
                &&& final(self).coin == old(self).coin
                &&& final(self).collide == old(self).collide
            },
            !exceeds_grid(next_head(old(self).snake.head_spec(), old(self).snake.dir)) ==> {
                &&& final(self).collide == (next_head(old(self).snake.head_spec(), old(self).snake.dir)
                    == old(self).coin.pos())
                &&& if next_head(old(self).snake.head_spec(), old(self).snake.dir)
                    == old(self).coin.pos() {
                    final(self).coin.pos() == (Cell { x: coin_x, y: coin_y })
                } else {
                    final(self).coin == old(self).coin
                }
            },
    {
        let alive = self.snake.update(self.collide);
        if !alive {
            return TickResult::Terminated;
        }
        self.collide = self.coin.collide(&self.snake);
        if self.collide {
            self.coin = Coin { x_pos: coin_x, y_pos: coin_y };
        }
        TickResult::Continue
    }

    /// One simulation step. When the head lands on the coin, the coin
    /// respawns at a cell whose coordinates are drawn uniformly at random
    /// from the playfield range; the draw may land on a cell the snake
    /// occupies.
    pub fn tick(&mut self) -> (r: TickResult)
        requires
            old(self).wf(),
        ensures
            final(self).wf(),
            final(self).snake.dir == old(self).snake.dir,
            final(self).snake.body@ == stepped_body(
                old(self).snake.body@,
                next_head(old(self).snake.head_spec(), old(self).snake.dir),
                old(self).collide,
            ),
            final(self).snake.body@.len() == old(self).snake.body@.len()
                + (if old(self).collide { 1int } else { 0int }),
            (r == TickResult::Terminated) == exceeds_grid(
                next_head(old(self).snake.head_spec(), old(self).snake.dir),
            ),
            exceeds_grid(next_head(old(self).snake.head_spec(), old(self).snake.dir)) ==> {
                &&& final(self).coin == old(self).coin
                &&& final(self).collide == old(self).collide
            },
            !exceeds_grid(next_head(old(self).snake.head_spec(), old(self).snake.dir)) ==> {
                &&& final(self).collide == (next_head(old(self).snake.head_spec(), old(self).snake.dir)
                    == old(self).coin.pos())
                &&& (next_head(old(self).snake.head_spec(), old(self).snake.dir)
                    != old(self).coin.pos() ==> final(self).coin == old(self).coin)
            },
    {
        let coin_x = random_coord();
        let coin_y = random_coord();
        self.tick_with(coin_x, coin_y)
    }
}

/// The screen coordinate, along one axis, at which the renderer draws a
/// cell with the given grid coordinate.
pub fn cell_to_pixel(coord: u32) -> (r: u32)
    requires
        1 <= coord <= GRID_MAX,
    ensures
        r == (coord - 1) * CELL_PIXELS + GRID_MARGIN,
{
    (coord - 1) * CELL_PIXELS + GRID_MARGIN
}

} // verus!
