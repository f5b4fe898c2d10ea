use vstd::prelude::*;
use crate::grid::{Coords, BOARD_WIDTH, BOARD_HEIGHT};

verus! {

/// Number of body segments a snake starts with; the body holds
/// `score + INITIAL_LENGTH` segments once it has caught up with its score.
pub const INITIAL_LENGTH: usize = 2;

/// A heading on the grid. `Up` decreases `y`, `Right` increases `x`.
#[derive(Clone, Copy, Debug, PartialEq, Eq, Structural)]
pub enum Direction {
    Left,
    Right,
    Up,
    Down,
}

pub open spec fn opposite(d: Direction) -> Direction {
    match d {
        Direction::Left => Direction::Right,
        Direction::Right => Direction::Left,
        Direction::Up => Direction::Down,
        Direction::Down => Direction::Up,
    }
}

impl Direction {
    /// The heading that points the other way.
    pub fn opposite(&self) -> (r: Direction)
        ensures
            r == opposite(*self),
    {
        match self {
            Direction::Left => Direction::Right,
            Direction::Right => Direction::Left,
            Direction::Up => Direction::Down,
            Direction::Down => Direction::Up,
        }
    }
}

/// The cell one step from `(x, y)` towards `d` on a `width` by `height` torus.
pub open spec fn moved(x: int, y: int, d: Direction, width: int, height: int) -> (int, int) {
    match d {
        Direction::Left => ((x - 1) % width, y),
        Direction::Right => ((x + 1) % width, y),
        Direction::Up => (x, (y - 1) % height),
        Direction::Down => (x, (y + 1) % height),
    }
}

/// `c + 1` modulo `n`.
fn wrap_inc(c: usize, n: usize) -> (r: usize)
    requires
        c < n,
    ensures
        r == (c + 1) % (n as int),
{
    if c + 1 == n {
        proof {
            vstd::arithmetic::div_mod::lemma_fundamental_div_mod_converse(c + 1, n as int, 1, 0);
        }
        0
    } else {
        proof {
            vstd::arithmetic::div_mod::lemma_fundamental_div_mod_converse(c + 1, n as int, 0, c + 1);
        }
        c + 1
    }
}

/// `c - 1` modulo `n`, without going below zero.
fn wrap_dec(c: usize, n: usize) -> (r: usize)
    requires
        c < n,
    ensures
        r == (c - 1) % (n as int),
{
    if c == 0 {
        proof {
            vstd::arithmetic::div_mod::lemma_fundamental_div_mod_converse(-1, n as int, -1, n - 1);
        }
        n - 1
    } else {
        proof {
            vstd::arithmetic::div_mod::lemma_fundamental_div_mod_converse(c - 1, n as int, 0, c - 1);
        }
        c - 1
    }
}

/// The body after one move: the old head is recorded in front, and the
/// oldest segment leaves once there are more than `score + INITIAL_LENGTH`.
/// A snake without segments stays without.
pub open spec fn advanced_segments(segments: Seq<Coords>, head: Coords, score: int) -> Seq<Coords> {
    if segments.len() == 0 {
        segments
    } else {
        let grown = seq![head] + segments;
        if grown.len() > score + INITIAL_LENGTH {
            grown.drop_last()
        } else {
            grown
        }
    }
}

/// The body length after one move, from the length before and the score.
pub open spec fn segment_count_after(len: nat, score: nat) -> nat {
    if len == 0 {
        0
    } else if len + 1 > score + INITIAL_LENGTH {
        len
    } else {
        len + 1
    }
}

/// The body length after `moves` moves at a constant score.
pub open spec fn segment_count_after_moves(len: nat, score: nat, moves: nat) -> nat
    decreases moves,
{
    if moves == 0 {
        len
    } else {
        segment_count_after(segment_count_after_moves(len, score, (moves - 1) as nat), score)
    }
}

/// One move changes exactly one coordinate of the head, by one, wrapping from
/// the first cell to the last and back; on a field more than one cell wide
/// (or high) the coordinate really changes.
pub proof fn lemma_move_changes_one_coordinate(x: int, y: int, d: Direction, width: int, height: int)
    requires
        0 <= x < width,
        0 <= y < height,
    ensures
        d == Direction::Left ==> moved(x, y, d, width, height) == (
            if x == 0 { width - 1 } else { x - 1 },
            y,
        ),
        d == Direction::Right ==> moved(x, y, d, width, height) == (
            if x == width - 1 { 0 } else { x + 1 },
            y,
        ),
        d == Direction::Up ==> moved(x, y, d, width, height) == (
            x,
            if y == 0 { height - 1 } else { y - 1 },
        ),
        d == Direction::Down ==> moved(x, y, d, width, height) == (
            x,
            if y == height - 1 { 0 } else { y + 1 },
        ),
        (d == Direction::Left || d == Direction::Right) && width > 1 ==> moved(
            x,
            y,
            d,
            width,
            height,
        ).0 != x,
        (d == Direction::Up || d == Direction::Down) && height > 1 ==> moved(
            x,
            y,
            d,
            width,
            height,
        ).1 != y,
{
    lemma_step_mod(x, width);
    lemma_step_mod(y, height);
}

proof fn lemma_step_mod(c: int, n: int)
    requires
        0 <= c < n,
    ensures
        (c + 1) % n == (if c == n - 1 { 0 } else { c + 1 }),
        (c - 1) % n == (if c == 0 { n - 1 } else { c - 1 }),
{
    if c == n - 1 {
        vstd::arithmetic::div_mod::lemma_fundamental_div_mod_converse(c + 1, n, 1, 0);
    } else {
        vstd::arithmetic::div_mod::lemma_fundamental_div_mod_converse(c + 1, n, 0, c + 1);
    }
    if c == 0 {
        vstd::arithmetic::div_mod::lemma_fundamental_div_mod_converse(c - 1, n, -1, n - 1);
    } else {
        vstd::arithmetic::div_mod::lemma_fundamental_div_mod_converse(c - 1, n, 0, c - 1);
    }
}

/// The length of the body after a move depends only on its length before
/// and on the score.
pub proof fn lemma_advanced_segments_len(segments: Seq<Coords>, head: Coords, score: nat)
    ensures
        advanced_segments(segments, head, score as int).len() == segment_count_after(
            segments.len(),
            score,
        ),
{
}

/// After the snake has eaten `score` times, each further move lengthens a
/// body shorter than `score + INITIAL_LENGTH` by one, and from then on the
/// length stays at `score + INITIAL_LENGTH`.
pub proof fn lemma_segment_count_stabilizes(len: nat, score: nat, moves: nat)
    requires
        0 < len <= score + INITIAL_LENGTH,
    ensures
        segment_count_after_moves(len, score, moves) as int == (if len + moves < score
            + INITIAL_LENGTH {
            len + moves as int
        } else {
            score + INITIAL_LENGTH as int
        }),
        len + moves >= score + INITIAL_LENGTH ==> segment_count_after_moves(len, score, moves)
            == score + INITIAL_LENGTH,
    decreases moves,
{
    if moves > 0 {
        lemma_segment_count_stabilizes(len, score, (moves - 1) as nat);
    }
}

/// The snake: its head, heading, body (newest segment first) and score, on a
/// `width` by `height` torus.
pub struct Player {
    pub x: usize,
    pub y: usize,
    pub direction: Direction,
    pub segments: Vec<Coords>,
    pub score: usize,
    pub width: usize,
    pub height: usize,
}

impl Player {
    /// The field is non-empty and the head and every segment lie on it.
    pub open spec fn wf(&self) -> bool {
        &&& self.width > 0
        &&& self.height > 0
        &&& self.x < self.width
        &&& self.y < self.height
        &&& forall|i: int|
            0 <= i < self.segments@.len() ==> #[trigger] self.segments@[i].x < self.width
                && self.segments@[i].y < self.height
    }

    /// The starting snake of a `width` by `height` field: in the middle,
    /// heading right, score zero, with two segments trailing to its left.
    pub open spec fn is_start(&self, width: usize, height: usize) -> bool {
        &&& self.wf()
        &&& self.x == width / 2
        &&& self.y == height / 2
        &&& self.direction == Direction::Right
        &&& self.score == 0
        &&& self.width == width
        &&& self.height == height
        &&& self.segments@.len() == INITIAL_LENGTH
        &&& self.segments@[0].x == (self.x - 1) % (width as int)
        &&& self.segments@[1].x == (self.segments@[0].x - 1) % (width as int)
        &&& self.segments@[0].y == self.y
        &&& self.segments@[1].y == self.y
    }

    pub open spec fn head_spec(&self) -> Coords {
        Coords { x: self.x, y: self.y }
    }

    /// The head lies on one of the segments.
    pub open spec fn collides(&self) -> bool {
        exists|i: int| 0 <= i < self.segments@.len() && self.segments@[i] == self.head_spec()
    }

    /// The standard starting snake: in the middle of the standard field,
    /// heading right, with two segments trailing to its left.
    pub fn new() -> (p: Player)
        ensures
            p.is_start(BOARD_WIDTH, BOARD_HEIGHT),
            p.segments@ == seq![
                Coords { x: (BOARD_WIDTH / 2 - 1) as usize, y: BOARD_HEIGHT / 2 },
                Coords { x: (BOARD_WIDTH / 2 - 2) as usize, y: BOARD_HEIGHT / 2 },
            ],
    {
        Player::with_size(BOARD_WIDTH, BOARD_HEIGHT)
    }

    /// A starting snake in the middle of a `width` by `height` field, heading
    /// right, with two segments trailing to its left (wrapping round on a
    /// narrow field).
    pub fn with_size(width: usize, height: usize) -> (p: Player)
        requires
            width > 0,
            height > 0,
        ensures
            p.is_start(width, height),
    {
        let x: usize = width / 2;
        let y: usize = height / 2;
        let x1: usize = wrap_dec(x, width);
        let x2: usize = wrap_dec(x1, width);
        let segments: Vec<Coords> = vec![Coords { x: x1, y }, Coords { x: x2, y }];
        Player { x, y, direction: Direction::Right, segments, score: 0, width, height }
    }

    /// True exactly when the head lies on one of the segments.
    pub fn detect_collision(&self) -> (r: bool)
        ensures
            r == self.collides(),
    {
        let mut i: usize = 0;
        while i < self.segments.len()
            invariant
                i <= self.segments@.len(),
                forall|k: int| 0 <= k < i ==> self.segments@[k] != self.head_spec(),
            decreases self.segments@.len() - i,
        {
            let s: Coords = self.segments[i];
            if self.x == s.x && self.y == s.y {
                assert(self.segments@[i as int] == self.head_spec());
                return true;
            }
            i = i + 1;
        }
        false
    }

    /// Turns towards `requested`, unless it points straight back, in which
    /// case the heading stays.
    pub fn set_direction(&mut self, requested: Direction)
        ensures
            *final(self) == (Player {
                direction: if requested == opposite(old(self).direction) {
                    old(self).direction
                } else {
                    requested
                },
                ..*old(self)
            }),
    {
        if requested != self.direction.opposite() {
            self.direction = requested;
        }
    }

    /// One move: the old head is recorded as the newest segment, the oldest
    /// segment leaves once the body is longer than `score + INITIAL_LENGTH`,
    /// and the head steps one cell along its heading, wrapping round the edges.
    /// A point scored after a move shows as a longer body from the next move
    /// on, as the length is settled before the head reaches the food.
    pub fn update_pos(&mut self)
        requires
            old(self).wf(),
        ensures
            final(self).wf(),
            final(self).direction == old(self).direction,
            final(self).score == old(self).score,
            final(self).width == old(self).width,
            final(self).height == old(self).height,
            final(self).segments@ == advanced_segments(
                old(self).segments@,
                old(self).head_spec(),
                old(self).score as int,
            ),
            (final(self).x as int, final(self).y as int) == moved(
                old(self).x as int,
                old(self).y as int,
                old(self).direction,
                old(self).width as int,
                old(self).height as int,
            ),
    {
        let ghost before = self.segments@;
        if self.segments.len() > 0 {
            self.segments.insert(0, Coords { x: self.x, y: self.y });
            assert(self.segments@ =~= seq![old(self).head_spec()] + before);
            let n: usize = self.segments.len();
            if n - INITIAL_LENGTH > self.score {
                let _ = self.segments.pop();
            }
        }
        assert(forall|i: int|
            0 <= i < self.segments@.len() ==> #[trigger] self.segments@[i].x < self.width
                && self.segments@[i].y < self.height) by {
            assert forall|i: int| 0 <= i < self.segments@.len() implies #[trigger] self.segments@[i].x
                < self.width && self.segments@[i].y < self.height by {
                if before.len() > 0 && i > 0 {
                    assert(self.segments@[i] == before[i - 1]);
                }
            }
        }
        match self.direction {
            Direction::Right => {
                self.x = wrap_inc(self.x, self.width);
            },
            Direction::Left => {
                self.x = wrap_dec(self.x, self.width);
            },
            Direction::Up => {
                self.y = wrap_dec(self.y, self.height);
            },
            Direction::Down => {
                self.y = wrap_inc(self.y, self.height);
            },
        }
    }
}

} // verus!
