//! The 64x32 monochrome frame buffer.

use vstd::prelude::*;

verus! {

pub const WIDTH: usize = 64;

pub const HEIGHT: usize = 32;

/// Number of cells, row-major from the top left.
pub const CELLS: usize = 2048;

/// Cell value of a lit pixel; an unlit one is 0.
pub const ON: u8 = 255;

/// Whether column `col` (0 is the leftmost) of a sprite row is set.
pub open spec fn sprite_bit(row: u8, col: u8) -> bool {
    row & (0x80u8 >> col) != 0
}

/// The sprite row that would cover cell `idx` when a sprite sits at
/// column `x`, row `y`.
pub open spec fn row_at(y: int, idx: int) -> int {
    idx / WIDTH as int - y
}

/// The sprite column that would cover cell `idx`, counting columns to the
/// right of `x` and wrapping at the right edge.
pub open spec fn col_at(x: int, idx: int) -> int {
    (idx % WIDTH as int - x + WIDTH as int) % WIDTH as int
}

/// Whether a sprite of `rows` drawn at column `x`, row `y` (both already
/// within the screen) covers cell `idx` with a set bit. Columns wrap at the
/// right edge; rows below the bottom edge are dropped.
pub open spec fn sprite_covers(x: int, y: int, rows: Seq<u8>, idx: int) -> bool {
    let r = row_at(y, idx);
    let c = col_at(x, idx);
    &&& 0 <= idx < CELLS
    &&& 0 <= r < rows.len()
    &&& c < 8
    &&& sprite_bit(rows[r], c as u8)
}

/// The screen after XOR-drawing a sprite at (`x` mod 64, `y` mod 32).
pub open spec fn drawn(screen: Seq<bool>, x: u8, y: u8, rows: Seq<u8>) -> Seq<bool> {
    Seq::new(
        screen.len(),
        |i: int| screen[i] != sprite_covers(x as int % WIDTH as int, y as int % HEIGHT as int, rows, i),
    )
}

/// Whether drawing that sprite turns off a pixel that was lit.
pub open spec fn collides(screen: Seq<bool>, x: u8, y: u8, rows: Seq<u8>) -> bool {
    exists|i: int|
        #![trigger screen[i]]
        0 <= i < screen.len() && sprite_covers(
            x as int % WIDTH as int,
            y as int % HEIGHT as int,
            rows,
            i,
        ) && screen[i]
}

/// Drawing a sprite twice at the same place leaves the screen as it was; the
/// first draw reports no collision where the sprite covers no lit pixel, and
/// the second reports one where the sprite covers a pixel that was unlit.
pub proof fn lemma_draw_twice(screen: Seq<bool>, x: u8, y: u8, rows: Seq<u8>)
    ensures
        drawn(drawn(screen, x, y, rows), x, y, rows) == screen,
        (forall|i: int|
            0 <= i < screen.len() && sprite_covers(
                x as int % WIDTH as int,
                y as int % HEIGHT as int,
                rows,
                i,
            ) ==> !#[trigger] screen[i]) ==> !collides(screen, x, y, rows),
        (exists|i: int|
            0 <= i < screen.len() && sprite_covers(
                x as int % WIDTH as int,
                y as int % HEIGHT as int,
                rows,
                i,
            ) && !#[trigger] screen[i]) ==> collides(drawn(screen, x, y, rows), x, y, rows),
{
    let once = drawn(screen, x, y, rows);
    assert(drawn(once, x, y, rows) =~= screen);
    if exists|i: int|
        0 <= i < screen.len() && sprite_covers(
            x as int % WIDTH as int,
            y as int % HEIGHT as int,
            rows,
            i,
        ) && !#[trigger] screen[i] {
        let i = choose|i: int|
            0 <= i < screen.len() && sprite_covers(
                x as int % WIDTH as int,
                y as int % HEIGHT as int,
                rows,
                i,
            ) && !#[trigger] screen[i];
        assert(once[i]);
    }
}

/// Covered, by one of the sprite bits visited before row `r0`, column `c0`.
spec fn covered_before(x: int, y: int, rows: Seq<u8>, idx: int, r0: int, c0: int) -> bool {
    &&& sprite_covers(x, y, rows, idx)
    &&& (row_at(y, idx) < r0 || (row_at(y, idx) == r0 && col_at(x, idx) < c0))
}

/// The cell at column `col`, row `row` is the only one whose sprite row and
/// column are `row - y` and `c`, where `col` is `x + c` wrapped.
proof fn lemma_cell_position(x: int, y: int, c: int, row: int, col: int)
    requires
        0 <= x < WIDTH,
        0 <= y <= row < HEIGHT,
        0 <= c < 8,
        col == (x + c) % WIDTH as int,
    ensures
        row_at(y, col + row * WIDTH) == row - y,
        col_at(x, col + row * WIDTH) == c,
        forall|idx: int|
            0 <= idx < CELLS && row_at(y, idx) == row - y && col_at(x, idx) == c ==> idx == col
                + row * WIDTH,
{
    assert(0 <= col < WIDTH);
    assert((col + row * 64) / 64 == row) by (nonlinear_arith)
        requires
            0 <= col < 64,
            0 <= row,
    ;
    assert((col + row * 64) % 64 == col) by (nonlinear_arith)
        requires
            0 <= col < 64,
            0 <= row,
    ;
    assert forall|idx: int|
        0 <= idx < CELLS && row_at(y, idx) == row - y && col_at(x, idx) == c implies idx == col
            + row * WIDTH by {
        assert(idx == idx % 64 + (idx / 64) * 64) by (nonlinear_arith)
            requires
                0 <= idx,
        ;
        assert(0 <= idx % 64 < 64);
    }
}

/// The frame buffer: `CELLS` bytes, each `ON` or 0.
pub struct Display {
    cells: Vec<u8>,
}

impl View for Display {
    type V = Seq<bool>;

    /// Which pixels are lit.
    closed spec fn view(&self) -> Seq<bool> {
        Seq::new(self.cells@.len(), |i: int| self.cells@[i] != 0)
    }
}

impl Display {
    pub closed spec fn wf(&self) -> bool {
        &&& self.cells@.len() == CELLS
        &&& forall|i: int| 0 <= i < CELLS ==> #[trigger] self.cells@[i] == 0 || self.cells@[i] == ON
    }

    /// A well-formed display has one pixel per cell.
    pub proof fn lemma_len(&self)
        requires
            self.wf(),
        ensures
            self@.len() == CELLS,
    {
    }

    /// A blank display.
    pub fn new() -> (r: Display)
        ensures
            r.wf(),
            r@ == Seq::new(CELLS as nat, |i: int| false),
    {
        let r = Display { cells: vec![0u8; CELLS] };
        assert(r@ =~= Seq::new(CELLS as nat, |i: int| false));
        r
    }

    /// The cells, row-major, each `ON` where the pixel is lit and 0 where not.
    pub fn pixels(&self) -> (r: &Vec<u8>)
        requires
            self.wf(),
        ensures
            r@.len() == CELLS,
            forall|i: int| 0 <= i < CELLS ==> #[trigger] r@[i] == if self@[i] { ON } else { 0 },
    {
        &self.cells
    }

    /// Turns every pixel off.
    pub fn clear(&mut self)
        requires
            old(self).wf(),
        ensures
            final(self).wf(),
            final(self)@ == Seq::new(CELLS as nat, |i: int| false),
    {
        let mut k: usize = 0;
        while k < CELLS
            invariant
                self.wf(),
                k <= CELLS,
                forall|i: int| 0 <= i < k ==> #[trigger] self.cells@[i] == 0,
            decreases CELLS - k,
        {
            self.cells.set(k, 0);
            k = k + 1;
        }
        assert(self@ =~= Seq::new(CELLS as nat, |i: int| false));
    }

    /// XOR-draws an eight-pixel-wide sprite, one byte per row with the
    /// leftmost pixel in the high bit, at (`x` mod 64, `y` mod 32). Columns
    /// wrap at the right edge; rows below the bottom edge are dropped.
    /// Returns whether a lit pixel was turned off.
    pub fn draw_sprite(&mut self, x: u8, y: u8, rows: &Vec<u8>) -> (collision: bool)
        requires
            old(self).wf(),
        ensures
            final(self).wf(),
            final(self)@ == drawn(old(self)@, x, y, rows@),
            collision == collides(old(self)@, x, y, rows@),
    {
        let ghost before = self@;
        let x0: usize = x as usize % WIDTH;
        let y0: usize = y as usize % HEIGHT;
        let ghost gx = x0 as int;
        let ghost gy = y0 as int;
        let mut collision = false;
        let mut row: usize = 0;
        while row < rows.len() && y0 + row < HEIGHT
            invariant
                self.wf(),
                x0 < WIDTH,
                y0 < HEIGHT,
                gx == x0,
                gy == y0,
                before.len() == CELLS,
                row <= rows@.len(),
                y0 + row <= HEIGHT,
                forall|i: int|
                    0 <= i < CELLS ==> #[trigger] self@[i] == (before[i] != covered_before(
                        gx,
                        gy,
                        rows@,
                        i,
                        row as int,
                        0,
                    )),
                collision ==> exists|i: int|
                    0 <= i < CELLS && covered_before(gx, gy, rows@, i, row as int, 0)
                        && #[trigger] before[i],
                !collision ==> forall|i: int|
                    0 <= i < CELLS && covered_before(gx, gy, rows@, i, row as int, 0)
                        ==> !#[trigger] before[i],
            decreases rows@.len() - row,
        {
            let bits = rows[row];
            let mut col: u8 = 0;
            while col < 8
                invariant
                    self.wf(),
                    x0 < WIDTH,
                    y0 < HEIGHT,
                    gx == x0,
                    gy == y0,
                    before.len() == CELLS,
                    row < rows@.len(),
                    y0 + row < HEIGHT,
                    bits == rows@[row as int],
                    col <= 8,
                    forall|i: int|
                        0 <= i < CELLS ==> #[trigger] self@[i] == (before[i] != covered_before(
                            gx,
                            gy,
                            rows@,
                            i,
                            row as int,
                            col as int,
                        )),
                    collision ==> exists|i: int|
                        0 <= i < CELLS && covered_before(gx, gy, rows@, i, row as int, col as int)
                            && #[trigger] before[i],
                    !collision ==> forall|i: int|
                        0 <= i < CELLS && covered_before(gx, gy, rows@, i, row as int, col as int)
                            ==> !#[trigger] before[i],
                decreases 8 - col,
            {
                let ghost prev = self@;
                let cx: usize = (x0 + col as usize) % WIDTH;
                let k: usize = cx + (y0 + row) * WIDTH;
                proof {
                    lemma_cell_position(gx, gy, col as int, gy + row, cx as int);
                }
                if bits & (0x80u8 >> col) != 0 {
                    let c = self.cells[k];
                    assert(sprite_covers(gx, gy, rows@, k as int));
                    assert(!covered_before(gx, gy, rows@, k as int, row as int, col as int));
                    assert(covered_before(gx, gy, rows@, k as int, row as int, col + 1));
                    assert(prev[k as int] == before[k as int]);
                    assert(prev[k as int] == (c != 0));
                    if c != 0 {
                        collision = true;
                    }
                    let flipped = c ^ ON;
                    assert((c == 0u8 || c == 255u8) ==> (flipped == 0u8 || flipped == 255u8) && (
                    (flipped != 0u8) == (c == 0u8))) by (bit_vector)
                        requires
                            flipped == c ^ 255u8,
                    ;
                    self.cells.set(k, flipped);
                    assert(self@[k as int] == !prev[k as int]);
                    assert forall|i: int| 0 <= i < CELLS implies #[trigger] self@[i] == (before[i]
                        != covered_before(gx, gy, rows@, i, row as int, col + 1)) by {
                        if i != k {
                            assert(self@[i] == prev[i]);
                            assert(covered_before(gx, gy, rows@, i, row as int, col + 1)
                                == covered_before(gx, gy, rows@, i, row as int, col as int));
                        }
                    }
                } else {
                    assert forall|i: int| 0 <= i < CELLS implies #[trigger] self@[i] == (before[i]
                        != covered_before(gx, gy, rows@, i, row as int, col + 1)) by {
                        assert(self@[i] == prev[i]);
                    }
                }
                col = col + 1;
            }
            assert forall|i: int| 0 <= i < CELLS implies covered_before(gx, gy, rows@, i, row as int, 8)
                == covered_before(gx, gy, rows@, i, row + 1, 0) by {}
            row = row + 1;
        }
        assert forall|i: int| 0 <= i < CELLS implies covered_before(gx, gy, rows@, i, row as int, 0)
            == sprite_covers(gx, gy, rows@, i) by {
            if y0 + row >= HEIGHT {
                assert(i / 64 < 32);
            }
        }
        assert(self@ =~= drawn(before, x, y, rows@));
        collision
    }
}

} // verus!
