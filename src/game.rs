use vstd::prelude::*;
use crate::grid::{Board, Coords, Tile, cell_index, paint_body, BOARD_WIDTH, BOARD_HEIGHT};
use crate::snake::{Direction, Player, advanced_segments, moved};
use crate::food::Food;

verus! {

/// Input polls per move of the snake: input is read more often than the
/// snake moves.
pub const POLLS_PER_MOVE: u64 = 10;

/// The poll interval a game starts with, in microseconds.
pub const START_INTERVAL_US: u64 = 15000;

/// Each meal multiplies the poll interval by `SPEEDUP_NUM / SPEEDUP_DEN`.
pub const SPEEDUP_NUM: u64 = 97;

pub const SPEEDUP_DEN: u64 = 100;

/// What a simulation step leaves the game in.
#[derive(Clone, Copy, Debug, PartialEq, Eq, Structural)]
pub enum TickOutcome {
    Continue,
    GameOver,
}

/// The poll interval after a meal.
pub open spec fn sped_up(interval_us: u64) -> u64 {
    (interval_us as int * SPEEDUP_NUM as int / SPEEDUP_DEN as int) as u64
}

/// The grid drawn from scratch: floor, then the body, then the food, then the
/// head, so that the head shows over everything else.
pub open spec fn drawn(width: nat, height: nat, p: Player, food: Coords) -> Seq<Tile> {
    paint_body(Seq::new(width * height, |_i: int| Tile::Floor), p.segments@, height as int).update(
        cell_index(food.x as int, food.y as int, height as int),
        Tile::Food,
    ).update(cell_index(p.x as int, p.y as int, height as int), Tile::SnakeHead)
}

/// A running game: the grid, the snake, the food, the poll counter and the
/// current poll interval.
pub struct GameSession {
    pub board: Board,
    pub player: Player,
    pub food: Food,
    pub tick_counter: u64,
    pub interval_us: u64,
}

impl GameSession {
    /// The three parts share one field and are each well formed, and the
    /// interval never exceeds the starting one.
    pub open spec fn wf(&self) -> bool {
        &&& self.board.wf()
        &&& self.player.wf()
        &&& self.food.wf()
        &&& self.player.width == self.board.width
        &&& self.player.height == self.board.height
        &&& self.food.width == self.board.width
        &&& self.food.height == self.board.height
        &&& self.interval_us <= START_INTERVAL_US
    }

    /// `next` and `r` are what one simulation step makes of `self` when a
    /// meal moves the food to `fresh`.
    pub open spec fn stepped(self, next: GameSession, fresh: Coords, r: TickOutcome) -> bool {
        let p = self.player;
        let q = next.player;
        let head = moved(p.x as int, p.y as int, p.direction, p.width as int, p.height as int);
        let ate = q.head_spec() == self.food.position();
        &&& next.tick_counter == self.tick_counter
        &&& next.board.width == self.board.width
        &&& next.board.height == self.board.height
        &&& q.width == p.width
        &&& q.height == p.height
        &&& q.direction == p.direction
        &&& q.segments@ == advanced_segments(p.segments@, p.head_spec(), p.score as int)
        &&& (q.x as int, q.y as int) == head
        &&& next.food.width == self.food.width
        &&& next.food.height == self.food.height
        &&& if q.collides() {
            &&& r == TickOutcome::GameOver
            &&& q.score == p.score
            &&& next.food.position() == self.food.position()
            &&& next.interval_us == self.interval_us
            &&& next.board.all_floor()
        } else {
            &&& r == TickOutcome::Continue
            &&& q.score == if ate { p.score + 1 } else { p.score as int }
            &&& next.food.position() == if ate { fresh } else { self.food.position() }
            &&& next.interval_us == if ate { sped_up(self.interval_us) } else { self.interval_us }
            &&& next.board.cells@ == drawn(
                next.board.width as nat,
                next.board.height as nat,
                q,
                next.food.position(),
            )
        }
    }

    /// A game on the standard field: the starting snake, food at a random
    /// cell, the counter at zero and the starting interval.
    pub fn new() -> (g: GameSession)
        ensures
            g.wf(),
            g.player.is_start(BOARD_WIDTH, BOARD_HEIGHT),
            g.tick_counter == 0,
            g.interval_us == START_INTERVAL_US,
            g.board.all_floor(),
    {
        GameSession::with_size(BOARD_WIDTH, BOARD_HEIGHT)
    }

    /// A game on a `width` by `height` field: the starting snake, food at a
    /// random cell, the counter at zero and the starting interval.
    pub fn with_size(width: usize, height: usize) -> (g: GameSession)
        requires
            width > 0,
            height > 0,
            width * height <= usize::MAX,
        ensures
            g.wf(),
            g.player.is_start(width, height),
            g.food.width == width,
            g.food.height == height,
            g.tick_counter == 0,
            g.interval_us == START_INTERVAL_US,
            g.board.all_floor(),
    {
        let board = Board::with_size(width, height);
        let player = Player::with_size(width, height);
        let food = Food::with_size(width, height);
        GameSession { board, player, food, tick_counter: 0, interval_us: START_INTERVAL_US }
    }
    /// Counts one input poll and says whether the snake moves on it: it does
    /// on every `POLLS_PER_MOVE`-th poll, starting with the first.
    pub fn begin_cycle(&mut self) -> (due: bool)
        ensures
            due == (old(self).tick_counter % POLLS_PER_MOVE == 0),
            *final(self) == (GameSession {
                tick_counter: if old(self).tick_counter == u64::MAX {
                    0
                } else {
                    (old(self).tick_counter + 1) as u64
                },
                ..*old(self)
            }),
    {
        let due: bool = self.tick_counter % POLLS_PER_MOVE == 0;
        if self.tick_counter == u64::MAX {
            self.tick_counter = 0;
        } else {
            self.tick_counter = self.tick_counter + 1;
        }
        due
    }

    /// How long one input poll may wait, in whole milliseconds.
    pub fn poll_interval_ms(&self) -> (ms: u64)
        ensures
            ms == self.interval_us / 1000,
    {
        self.interval_us / 1000
    }

    /// One simulation step, with `fresh` as the food's next cell should the
    /// snake eat: the snake moves; if its head then lies on its body the game
    /// is over; otherwise a head on the food scores a point, moves the food to
    /// `fresh` and shortens the interval, and the grid is drawn anew.
    pub fn step_with_food(&mut self, fresh: Coords) -> (r: TickOutcome)
        requires
            old(self).wf(),
            old(self).player.score < usize::MAX,
            fresh.x < old(self).board.width,
            fresh.y < old(self).board.height,
        ensures
            final(self).wf(),
            old(self).stepped(*final(self), fresh, r),
    {
        self.board.clear();
        self.player.update_pos();
        if self.player.detect_collision() {
            return TickOutcome::GameOver;
        }
        let ghost moved_player = self.player;
        if self.player.x == self.food.x && self.player.y == self.food.y {
            self.food.x = fresh.x;
            self.food.y = fresh.y;
            self.player.score = self.player.score + 1;
            let ghost i: int = self.interval_us as int;
            assert(i * 97 / 100 <= i) by (nonlinear_arith)
                requires
                    0 <= i,
            ;
            self.interval_us = self.interval_us * SPEEDUP_NUM / SPEEDUP_DEN;
        }
        assert(self.interval_us <= START_INTERVAL_US);
        assert(self.player.wf()) by {
            assert(self.player.segments@ == moved_player.segments@);
        }
        self.board.place_segments(&self.player.segments);
        self.board.place_food(self.food.x, self.food.y);
        self.board.place_head(self.player.x, self.player.y);
        TickOutcome::Continue
    }

    /// One simulation step, the food's next cell being drawn at random.
    pub fn step(&mut self) -> (r: TickOutcome)
        requires
            old(self).wf(),
            old(self).player.score < usize::MAX,
        ensures
            final(self).wf(),
            exists|fresh: Coords|
                fresh.x < old(self).board.width && fresh.y < old(self).board.height
                    && #[trigger] old(self).stepped(*final(self), fresh, r),
    {
        let mut next_food: Food = self.food;
        next_food.rand();
        let fresh = Coords { x: next_food.x, y: next_food.y };
        let r = self.step_with_food(fresh);
        assert(old(self).stepped(*self, fresh, r));
        r
    }
}

} // verus!
