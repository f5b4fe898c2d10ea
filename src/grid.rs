use vstd::prelude::*;

verus! {

/// Width of the standard playing field, in cells.
pub const BOARD_WIDTH: usize = 30;

/// Height of the standard playing field, in cells.
pub const BOARD_HEIGHT: usize = 20;

/// What one cell of the grid shows. Derived every tick from the snake and
/// the food; never authoritative.
#[derive(Clone, Copy, Debug, PartialEq, Eq, Structural)]
pub enum Tile {
    Floor,
    SnakeHead,
    SnakeBody,
    Food,
}

/// A grid position `(x, y)` with `x < width` and `y < height`.
#[derive(Clone, Copy, Debug, PartialEq, Eq, Structural)]
pub struct Coords {
    pub x: usize,
    pub y: usize,
}

/// Where cell `(x, y)` lives in a column-major array of columns of `height` cells.
pub open spec fn cell_index(x: int, y: int, height: int) -> int {
    x * height + y
}

pub proof fn lemma_cell_index_bounds(x: int, y: int, width: int, height: int)
    requires
        0 <= x < width,
        0 <= y < height,
    ensures
        0 <= cell_index(x, y, height) < width * height,
{
    assert(0 <= x * height) by (nonlinear_arith)
        requires
            0 <= x,
            0 <= y < height,
    ;
    assert(x * height + height <= width * height) by (nonlinear_arith)
        requires
            x + 1 <= width,
            0 < height,
    ;
}

/// The cells after painting each listed position, in order, as snake body.
pub open spec fn paint_body(cells: Seq<Tile>, segments: Seq<Coords>, height: int) -> Seq<Tile>
    decreases segments.len(),
{
    if segments.len() == 0 {
        cells
    } else {
        let last = segments.last();
        paint_body(cells, segments.drop_last(), height).update(
            cell_index(last.x as int, last.y as int, height),
            Tile::SnakeBody,
        )
    }
}

proof fn lemma_cell_index_injective(x1: int, y1: int, x2: int, y2: int, height: int)
    requires
        0 <= x1,
        0 <= x2,
        0 <= y1 < height,
        0 <= y2 < height,
        cell_index(x1, y1, height) == cell_index(x2, y2, height),
    ensures
        x1 == x2,
        y1 == y2,
{
    if x1 < x2 {
        assert(x1 * height + height <= x2 * height) by (nonlinear_arith)
            requires
                x1 + 1 <= x2,
                0 < height,
        ;
    } else if x2 < x1 {
        assert(x2 * height + height <= x1 * height) by (nonlinear_arith)
            requires
                x2 + 1 <= x1,
                0 < height,
        ;
    }
}

/// On a cleared grid, painting one segment and then the head at another
/// cell leaves exactly those two cells off the floor: the body at the
/// segment, the head at the head.
pub proof fn lemma_rebuild_marks_two_cells(
    width: nat,
    height: nat,
    segment: Coords,
    head: Coords,
    x: int,
    y: int,
)
    requires
        segment.x < width,
        segment.y < height,
        head.x < width,
        head.y < height,
        segment != head,
        0 <= x < width,
        0 <= y < height,
    ensures
        ({
            let cleared = Seq::new(width * height, |_i: int| Tile::Floor);
            let cells = paint_body(cleared, seq![segment], height as int).update(
                cell_index(head.x as int, head.y as int, height as int),
                Tile::SnakeHead,
            );
            cells[cell_index(x, y, height as int)] == if x == head.x && y == head.y {
                Tile::SnakeHead
            } else if x == segment.x && y == segment.y {
                Tile::SnakeBody
            } else {
                Tile::Floor
            }
        }),
{
    let cleared = Seq::new(width * height, |_i: int| Tile::Floor);
    assert(seq![segment].drop_last() =~= Seq::<Coords>::empty());
    assert(paint_body(cleared, Seq::<Coords>::empty(), height as int) == cleared);
    lemma_cell_index_bounds(x, y, width as int, height as int);
    lemma_cell_index_bounds(segment.x as int, segment.y as int, width as int, height as int);
    lemma_cell_index_bounds(head.x as int, head.y as int, width as int, height as int);
    if cell_index(x, y, height as int) == cell_index(head.x as int, head.y as int, height as int) {
        lemma_cell_index_injective(x, y, head.x as int, head.y as int, height as int);
    }
    if cell_index(x, y, height as int) == cell_index(
        segment.x as int,
        segment.y as int,
        height as int,
    ) {
        lemma_cell_index_injective(x, y, segment.x as int, segment.y as int, height as int);
    }
}

/// The two characters that show a tile: two spaces for floor, `* ` for
/// food, `S ` for the head, `s ` for the body (in ASCII).
pub open spec fn glyph(t: Tile) -> Seq<u8> {
    match t {
        Tile::Floor => seq![32u8, 32u8],
        Tile::Food => seq![42u8, 32u8],
        Tile::SnakeHead => seq![83u8, 32u8],
        Tile::SnakeBody => seq![115u8, 32u8],
    }
}

/// The end of a line on a terminal in raw mode: `\n\r`.
pub open spec fn line_end() -> Seq<u8> {
    seq![10u8, 13u8]
}

/// The top and bottom edge of the box: two dashes (`-`) per cell and two more.
pub open spec fn border(width: nat) -> Seq<u8> {
    Seq::new(2 * (width + 1), |_i: int| 45u8)
}

/// The decimal digits of `n`, most significant first.
pub open spec fn decimal(n: nat) -> Seq<u8>
    decreases n,
{
    if n < 10 {
        seq![(48u8 + n) as u8]
    } else {
        decimal(n / 10) + seq![(48u8 + n % 10) as u8]
    }
}

/// The line under the box that gives the score: `Score: ` and the digits.
pub open spec fn score_line(score: nat) -> Seq<u8> {
    seq![83u8, 99u8, 111u8, 114u8, 101u8, 58u8, 32u8] + decimal(score) + line_end()
}

/// The grid of tiles that is drawn each tick.
pub struct Board {
    pub cells: Vec<Tile>,
    pub width: usize,
    pub height: usize,
}

impl Board {
    /// The dimensions are positive and the cell array holds exactly one tile
    /// per cell.
    pub open spec fn wf(&self) -> bool {
        &&& self.width > 0
        &&& self.height > 0
        &&& self.width * self.height <= usize::MAX
        &&& self.cells@.len() == self.width * self.height
    }

    pub open spec fn in_bounds(&self, x: int, y: int) -> bool {
        0 <= x < self.width && 0 <= y < self.height
    }

    /// The tile at `(x, y)`.
    pub open spec fn cell(&self, x: int, y: int) -> Tile {
        self.cells@[cell_index(x, y, self.height as int)]
    }

    /// The glyphs of the first `n` cells of row `y`.
    pub open spec fn row_cells_text(&self, y: int, n: nat) -> Seq<u8>
        decreases n,
    {
        if n == 0 {
            Seq::empty()
        } else {
            self.row_cells_text(y, (n - 1) as nat) + glyph(self.cell(n - 1, y))
        }
    }

    /// Row `y` of the box, between its two walls (`|`).
    pub open spec fn row_text(&self, y: int) -> Seq<u8> {
        seq![124u8] + self.row_cells_text(y, self.width as nat) + seq![124u8] + line_end()
    }

    /// The first `n` rows of the box.
    pub open spec fn rows_text(&self, n: nat) -> Seq<u8>
        decreases n,
    {
        if n == 0 {
            Seq::empty()
        } else {
            self.rows_text((n - 1) as nat) + self.row_text(n - 1)
        }
    }

    /// The whole picture: the box with the grid in it, then the score.
    pub open spec fn picture(&self, score: nat) -> Seq<u8> {
        border(self.width as nat) + line_end() + self.rows_text(self.height as nat) + border(
            self.width as nat,
        ) + line_end() + score_line(score)
    }

    pub open spec fn all_floor(&self) -> bool {
        forall|i: int| 0 <= i < self.cells@.len() ==> self.cells@[i] == Tile::Floor
    }

    /// A standard-sized grid of floor.
    pub fn new() -> (b: Board)
        ensures
            b.wf(),
            b.width == BOARD_WIDTH,
            b.height == BOARD_HEIGHT,
            b.all_floor(),
    {
        Board::with_size(BOARD_WIDTH, BOARD_HEIGHT)
    }

    /// A grid of floor with the given dimensions.
    pub fn with_size(width: usize, height: usize) -> (b: Board)
        requires
            width > 0,
            height > 0,
            width * height <= usize::MAX,
        ensures
            b.wf(),
            b.width == width,
            b.height == height,
            b.all_floor(),
    {
        let n: usize = width * height;
        let mut cells: Vec<Tile> = Vec::new();
        let mut i: usize = 0;
        while i < n
            invariant
                i <= n,
                cells@.len() == i,
                forall|k: int| 0 <= k < i ==> cells@[k] == Tile::Floor,
            decreases n - i,
        {
            cells.push(Tile::Floor);
            i = i + 1;
        }
        Board { cells, width, height }
    }

    /// Resets every cell to floor; the dimensions stay.
    pub fn clear(&mut self)
        requires
            old(self).wf(),
        ensures
            final(self).wf(),
            final(self).width == old(self).width,
            final(self).height == old(self).height,
            final(self).all_floor(),
            final(self).cells@ == Seq::new(
                (old(self).width * old(self).height) as nat,
                |_i: int| Tile::Floor,
            ),
    {
        let n: usize = self.cells.len();
        let mut i: usize = 0;
        while i < n
            invariant
                self.wf(),
                self.width == old(self).width,
                self.height == old(self).height,
                self.cells@.len() == n,
                i <= n,
                forall|k: int| 0 <= k < i ==> self.cells@[k] == Tile::Floor,
            decreases n - i,
        {
            self.cells[i] = Tile::Floor;
            i = i + 1;
        }
        assert(self.cells@ =~= Seq::new(
            (old(self).width * old(self).height) as nat,
            |_i: int| Tile::Floor,
        ));
    }

    /// Sets the cell `(x, y)` to `tile`, leaving every other cell as it was.
    fn place(&mut self, x: usize, y: usize, tile: Tile)
        requires
            old(self).wf(),
            old(self).in_bounds(x as int, y as int),
        ensures
            final(self).wf(),
            final(self).width == old(self).width,
            final(self).height == old(self).height,
            final(self).cells@ == old(self).cells@.update(
                cell_index(x as int, y as int, old(self).height as int),
                tile,
            ),
    {
        proof {
            lemma_cell_index_bounds(x as int, y as int, self.width as int, self.height as int);
        }
        let k: usize = x * self.height + y;
        self.cells[k] = tile;
    }

    /// Marks `(x, y)` as the snake's head.
    pub fn place_head(&mut self, x: usize, y: usize)
        requires
            old(self).wf(),
            old(self).in_bounds(x as int, y as int),
        ensures
            final(self).wf(),
            final(self).width == old(self).width,
            final(self).height == old(self).height,
            final(self).cells@ == old(self).cells@.update(
                cell_index(x as int, y as int, old(self).height as int),
                Tile::SnakeHead,
            ),
    {
        self.place(x, y, Tile::SnakeHead);
    }

    /// Marks `(x, y)` as food.
    pub fn place_food(&mut self, x: usize, y: usize)
        requires
            old(self).wf(),
            old(self).in_bounds(x as int, y as int),
        ensures
            final(self).wf(),
            final(self).width == old(self).width,
            final(self).height == old(self).height,
            final(self).cells@ == old(self).cells@.update(
                cell_index(x as int, y as int, old(self).height as int),
                Tile::Food,
            ),
    {
        self.place(x, y, Tile::Food);
    }

    /// Marks every listed position as snake body, in order.
    pub fn place_segments(&mut self, segments: &Vec<Coords>)
        requires
            old(self).wf(),
            forall|i: int|
                0 <= i < segments@.len() ==> old(self).in_bounds(
                    #[trigger] segments@[i].x as int,
                    segments@[i].y as int,
                ),
        ensures
            final(self).wf(),
            final(self).width == old(self).width,
            final(self).height == old(self).height,
            final(self).cells@ == paint_body(old(self).cells@, segments@, old(self).height as int),
    {
        let mut i: usize = 0;
        while i < segments.len()
            invariant
                self.wf(),
                self.width == old(self).width,
                self.height == old(self).height,
                i <= segments@.len(),
                forall|k: int|
                    0 <= k < segments@.len() ==> self.in_bounds(
                        #[trigger] segments@[k].x as int,
                        segments@[k].y as int,
                    ),
                self.cells@ == paint_body(
                    old(self).cells@,
                    segments@.take(i as int),
                    self.height as int,
                ),
            decreases segments@.len() - i,
        {
            let c: Coords = segments[i];
            self.place(c.x, c.y, Tile::SnakeBody);
            proof {
                let next = segments@.take(i + 1);
                assert(next.drop_last() =~= segments@.take(i as int));
                assert(next.last() == c);
            }
            i = i + 1;
        }
        proof {
            assert(segments@.take(segments@.len() as int) =~= segments@);
        }
    }

    /// The tile at `(x, y)`.
    pub fn tile_at(&self, x: usize, y: usize) -> (t: Tile)
        requires
            self.wf(),
            self.in_bounds(x as int, y as int),
        ensures
            t == self.cell(x as int, y as int),
    {
        proof {
            lemma_cell_index_bounds(x as int, y as int, self.width as int, self.height as int);
        }
        self.cells[x * self.height + y]
    }
    /// Appends the box edge.
    fn push_border(&self, out: &mut Vec<u8>)
        requires
            self.wf(),
        ensures
            final(out)@ == old(out)@ + border(self.width as nat) + line_end(),
    {
        out.push(45u8);
        out.push(45u8);
        let mut i: usize = 0;
        while i < self.width
            invariant
                i <= self.width,
                out@ == old(out)@ + Seq::new(2 * (i + 1) as nat, |_k: int| 45u8),
            decreases self.width - i,
        {
            out.push(45u8);
            out.push(45u8);
            i = i + 1;
            assert(out@ =~= old(out)@ + Seq::new(2 * (i + 1) as nat, |_k: int| 45u8));
        }
        out.push(10u8);
        out.push(13u8);
        assert(out@ =~= old(out)@ + border(self.width as nat) + line_end());
    }

    /// Appends row `y` of the box.
    fn push_row(&self, out: &mut Vec<u8>, y: usize)
        requires
            self.wf(),
            y < self.height,
        ensures
            final(out)@ == old(out)@ + self.row_text(y as int),
    {
        out.push(124u8);
        let mut x: usize = 0;
        while x < self.width
            invariant
                self.wf(),
                y < self.height,
                x <= self.width,
                out@ == old(out)@ + seq![124u8] + self.row_cells_text(y as int, x as nat),
            decreases self.width - x,
        {
            let t: Tile = self.tile_at(x, y);
            let ghost before = out@;
            match t {
                Tile::Floor => {
                    out.push(32u8);
                },
                Tile::Food => {
                    out.push(42u8);
                },
                Tile::SnakeHead => {
                    out.push(83u8);
                },
                Tile::SnakeBody => {
                    out.push(115u8);
                },
            }
            out.push(32u8);
            assert(out@ =~= before + glyph(t));
            x = x + 1;
            assert(out@ =~= old(out)@ + seq![124u8] + self.row_cells_text(y as int, x as nat));
        }
        out.push(124u8);
        out.push(10u8);
        out.push(13u8);
        assert(out@ =~= old(out)@ + self.row_text(y as int));
    }

    /// The box with the grid in it, two characters per cell (two spaces for
    /// floor, `* ` for food, `S ` for the head, `s ` for the body), each line
    /// ended by `\n\r`, and under it the line `Score: <score>`.
    pub fn render(&self, score: usize) -> (out: Vec<u8>)
        requires
            self.wf(),
        ensures
            out@ == self.picture(score as nat),
    {
        let mut out: Vec<u8> = Vec::new();
        self.push_border(&mut out);
        let mut y: usize = 0;
        while y < self.height
            invariant
                self.wf(),
                y <= self.height,
                out@ == border(self.width as nat) + line_end() + self.rows_text(y as nat),
            decreases self.height - y,
        {
            self.push_row(&mut out, y);
            y = y + 1;
            assert(out@ =~= border(self.width as nat) + line_end() + self.rows_text(y as nat));
        }
        self.push_border(&mut out);
        out.push(83u8);
        out.push(99u8);
        out.push(111u8);
        out.push(114u8);
        out.push(101u8);
        out.push(58u8);
        out.push(32u8);
        push_decimal(&mut out, score);
        out.push(10u8);
        out.push(13u8);
        assert(out@ =~= self.picture(score as nat));
        out
    }
}

/// Appends the decimal digits of `n`.
fn push_decimal(out: &mut Vec<u8>, n: usize)
    ensures
        final(out)@ == old(out)@ + decimal(n as nat),
    decreases n,
{
    if n >= 10 {
        push_decimal(out, n / 10);
    }
    let d: u8 = (n % 10) as u8;
    out.push(48u8 + d);
    assert(out@ =~= old(out)@ + decimal(n as nat));
}

} // verus!
