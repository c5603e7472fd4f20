//! Sprites on the toroidal screen.

use vstd::prelude::*;
use crate::machine::{RAM_SIZE, SCREEN_HEIGHT, SCREEN_SIZE, SCREEN_WIDTH};

verus! {

/// The weight in a row byte of the pixel in column `col`: column 0 is
/// the most significant bit, column 7 the least.
pub open spec fn column_weight(col: int) -> int {
    if col == 0 {
        128
    } else if col == 1 {
        64
    } else if col == 2 {
        32
    } else if col == 3 {
        16
    } else if col == 4 {
        8
    } else if col == 5 {
        4
    } else if col == 6 {
        2
    } else {
        1
    }
}

/// Whether the pixel in column `col` of a sprite row is set.
pub open spec fn sprite_bit(row_byte: u8, col: int) -> bool {
    0 <= col < 8 && (row_byte as int / column_weight(col)) % 2 == 1
}

/// A sprite put on the screen: `rows` bytes of `memory` from `index` on,
/// with its top left corner at column `x0` of row `y0`.
pub struct Sprite {
    pub memory: Seq<u8>,
    pub index: int,
    pub rows: int,
    pub x0: int,
    pub y0: int,
}

impl Sprite {
    /// The sprite's bytes lie within memory.
    pub open spec fn in_memory(self) -> bool {
        self.rows == 0 || 0 <= self.index && self.index + self.rows <= self.memory.len()
    }

    /// Whether the sprite has a set pixel that lands on the screen cell in
    /// column `px` of row `py`. Both coordinates wrap around, and a sprite
    /// is narrower and lower than the screen, so no two of its pixels land
    /// on one cell.
    pub open spec fn covers(self, px: int, py: int) -> bool {
        let col = (px - self.x0) % (SCREEN_WIDTH as int);
        let row = (py - self.y0) % (SCREEN_HEIGHT as int);
        row < self.rows && sprite_bit(self.memory[self.index + row], col)
    }

    /// Whether the sprite has a set pixel on cell `p` of the row-major
    /// pixel sequence.
    pub open spec fn covers_cell(self, p: int) -> bool {
        self.covers(p % (SCREEN_WIDTH as int), p / (SCREEN_WIDTH as int))
    }

    /// The screen after the sprite is drawn: each cell it covers is
    /// flipped, every other cell stays.
    pub open spec fn drawn_on(self, display: Seq<bool>) -> Seq<bool> {
        Seq::new(display.len(), |p: int| display[p] != self.covers_cell(p))
    }

    /// Whether drawing the sprite switches a lit pixel off.
    pub open spec fn collides_with(self, display: Seq<bool>) -> bool {
        exists|p: int| 0 <= p < display.len() && display[p] && #[trigger] self.covers_cell(p)
    }

    /// Whether the sprite covers cell `p` with a pixel that comes before
    /// column `col` of sprite row `row`, going through the sprite row by
    /// row and from left to right.
    spec fn covers_cell_before(self, p: int, row: int, col: int) -> bool {
        let c = (p % (SCREEN_WIDTH as int) - self.x0) % (SCREEN_WIDTH as int);
        let r = (p / (SCREEN_WIDTH as int) - self.y0) % (SCREEN_HEIGHT as int);
        self.covers_cell(p) && (r < row || (r == row && c < col))
    }

    /// Whether a pixel of the sprite that comes before column `col` of
    /// sprite row `row` lands on a lit cell of `display`.
    spec fn collides_before(self, display: Seq<bool>, row: int, col: int) -> bool {
        exists|p: int|
            0 <= p < display.len() && display[p] && #[trigger] self.covers_cell_before(p, row, col)
    }

    /// The cell on which the pixel in column `col` of sprite row `row`
    /// lands.
    spec fn cell_of(self, row: int, col: int) -> int {
        (self.x0 + col) % (SCREEN_WIDTH as int) + SCREEN_WIDTH * ((self.y0 + row) % (
        SCREEN_HEIGHT as int))
    }

    /// The pixel in column `col` of sprite row `row` lands on `cell_of(row,
    /// col)` and on no other cell.
    proof fn lemma_cell_of(self, row: int, col: int, p: int)
        requires
            0 <= row < SCREEN_HEIGHT,
            0 <= col < SCREEN_WIDTH,
            0 <= p < SCREEN_SIZE,
        ensures
            0 <= self.cell_of(row, col) < SCREEN_SIZE,
            ((p % (SCREEN_WIDTH as int) - self.x0) % (SCREEN_WIDTH as int) == col && (p / (
            SCREEN_WIDTH as int) - self.y0) % (SCREEN_HEIGHT as int) == row) <==> p
                == self.cell_of(row, col),
    {
    }

    /// Going one pixel further through a sprite row adds the cell of that
    /// pixel to the covered cells if the pixel is set, and nothing
    /// otherwise.
    proof fn lemma_next_pixel(self, display: Seq<bool>, row: int, col: int)
        requires
            0 <= row < self.rows <= SCREEN_HEIGHT,
            0 <= col < 8,
            display.len() == SCREEN_SIZE,
        ensures
            0 <= self.cell_of(row, col) < SCREEN_SIZE,
            !self.covers_cell_before(self.cell_of(row, col), row, col),
            forall|p: int|
                0 <= p < SCREEN_SIZE ==> (#[trigger] self.covers_cell_before(p, row, col + 1) <==> (
                self.covers_cell_before(p, row, col) || (p == self.cell_of(row, col) && sprite_bit(
                    self.memory[self.index + row],
                    col,
                )))),
            self.collides_before(display, row, col + 1) <==> (self.collides_before(
                display,
                row,
                col,
            ) || (display[self.cell_of(row, col)] && sprite_bit(
                self.memory[self.index + row],
                col,
            ))),
    {
        let cell = self.cell_of(row, col);
        self.lemma_cell_of(row, col, cell);
        assert forall|p: int| 0 <= p < SCREEN_SIZE implies (#[trigger] self.covers_cell_before(
            p,
            row,
            col + 1,
        ) <==> (self.covers_cell_before(p, row, col) || (p == cell && sprite_bit(
            self.memory[self.index + row],
            col,
        )))) by {
            self.lemma_cell_of(row, col, p);
        }
        if self.collides_before(display, row, col) {
            let p = choose|p: int|
                0 <= p < display.len() && display[p] && #[trigger] self.covers_cell_before(
                    p,
                    row,
                    col,
                );
            assert(self.covers_cell_before(p, row, col + 1));
        }
        if display[cell] && sprite_bit(self.memory[self.index + row], col) {
            assert(self.covers_cell_before(cell, row, col + 1));
        }
    }

    /// Past the last column of a sprite row the next row begins.
    proof fn lemma_next_row(self, display: Seq<bool>, row: int)
        requires
            display.len() == SCREEN_SIZE,
        ensures
            forall|p: int|
                0 <= p < SCREEN_SIZE ==> (self.covers_cell_before(p, row, 8)
                    <==> #[trigger] self.covers_cell_before(p, row + 1, 0)),
            self.collides_before(display, row, 8) <==> self.collides_before(display, row + 1, 0),
    {
        if self.collides_before(display, row, 8) {
            let p = choose|p: int|
                0 <= p < display.len() && display[p] && #[trigger] self.covers_cell_before(
                    p,
                    row,
                    8,
                );
            assert(self.covers_cell_before(p, row + 1, 0));
        }
        if self.collides_before(display, row + 1, 0) {
            let p = choose|p: int|
                0 <= p < display.len() && display[p] && #[trigger] self.covers_cell_before(
                    p,
                    row + 1,
                    0,
                );
            assert(self.covers_cell_before(p, row, 8));
        }
    }

    /// Past the last row the whole sprite has been gone through.
    proof fn lemma_all_rows(self, display: Seq<bool>)
        requires
            display.len() == SCREEN_SIZE,
        ensures
            forall|p: int|
                0 <= p < SCREEN_SIZE ==> (self.covers_cell_before(p, self.rows, 0)
                    <==> #[trigger] self.covers_cell(p)),
            self.collides_before(display, self.rows, 0) <==> self.collides_with(display),
    {
        if self.collides_before(display, self.rows, 0) {
            let p = choose|p: int|
                0 <= p < display.len() && display[p] && #[trigger] self.covers_cell_before(
                    p,
                    self.rows,
                    0,
                );
            assert(self.covers_cell(p));
        }
        if self.collides_with(display) {
            let p = choose|p: int|
                0 <= p < display.len() && display[p] && #[trigger] self.covers_cell(p);
            assert(self.covers_cell_before(p, self.rows, 0));
        }
    }
}

/// The column and the row of cell `cell` of the row-major pixel sequence.
pub fn cell_coordinates(cell: usize) -> (r: (usize, usize))
    ensures
        r.0 == cell % SCREEN_WIDTH,
        r.1 == cell / SCREEN_WIDTH,
        cell == r.0 + SCREEN_WIDTH * r.1,
        r.0 < SCREEN_WIDTH,
        cell < SCREEN_SIZE ==> r.1 < SCREEN_HEIGHT,
{
    (cell % SCREEN_WIDTH, cell / SCREEN_WIDTH)
}

/// Testing a row byte against the mask of a column reads that column's
/// pixel.
proof fn lemma_mask_reads_pixel(row_byte: u8, col: u8)
    requires
        col < 8,
    ensures
        (row_byte & (0x80u8 >> col) != 0) == sprite_bit(row_byte, col as int),
{
    assert({
        &&& col == 0 ==> (row_byte & (0x80u8 >> col) != 0) == ((row_byte / 128) % 2 == 1)
        &&& col == 1 ==> (row_byte & (0x80u8 >> col) != 0) == ((row_byte / 64) % 2 == 1)
        &&& col == 2 ==> (row_byte & (0x80u8 >> col) != 0) == ((row_byte / 32) % 2 == 1)
        &&& col == 3 ==> (row_byte & (0x80u8 >> col) != 0) == ((row_byte / 16) % 2 == 1)
        &&& col == 4 ==> (row_byte & (0x80u8 >> col) != 0) == ((row_byte / 8) % 2 == 1)
        &&& col == 5 ==> (row_byte & (0x80u8 >> col) != 0) == ((row_byte / 4) % 2 == 1)
        &&& col == 6 ==> (row_byte & (0x80u8 >> col) != 0) == ((row_byte / 2) % 2 == 1)
        &&& col == 7 ==> (row_byte & (0x80u8 >> col) != 0) == ((row_byte / 1) % 2 == 1)
    }) by (bit_vector);
}

/// Draws the sprite of `rows` bytes at `memory[index..]` with its top left
/// corner at column `x0` of row `y0`, flipping each cell that a set pixel
/// lands on, and says whether a lit cell went dark.
pub(crate) fn draw_sprite(
    display: &mut [bool; SCREEN_SIZE],
    memory: &[u8; RAM_SIZE],
    index: usize,
    rows: usize,
    x0: u8,
    y0: u8,
) -> (collision: bool)
    requires
        rows <= SCREEN_HEIGHT,
        rows == 0 || index + rows <= RAM_SIZE,
    ensures
        final(display)@ == (Sprite {
            memory: memory@,
            index: index as int,
            rows: rows as int,
            x0: x0 as int,
            y0: y0 as int,
        }).drawn_on(old(display)@),
        collision == (Sprite {
            memory: memory@,
            index: index as int,
            rows: rows as int,
            x0: x0 as int,
            y0: y0 as int,
        }).collides_with(old(display)@),
    no_unwind
{
    let ghost sprite = Sprite {
        memory: memory@,
        index: index as int,
        rows: rows as int,
        x0: x0 as int,
        y0: y0 as int,
    };
    let ghost before = display@;
    let mut flipped = false;
    let mut row: usize = 0;
    while row < rows
        invariant
            row <= rows <= SCREEN_HEIGHT,
            rows == 0 || index + rows <= RAM_SIZE,
            sprite == (Sprite {
                memory: memory@,
                index: index as int,
                rows: rows as int,
                x0: x0 as int,
                y0: y0 as int,
            }),
            before.len() == SCREEN_SIZE,
            forall|p: int|
                0 <= p < SCREEN_SIZE ==> display@[p] == (before[p] != sprite.covers_cell_before(
                    p,
                    row as int,
                    0,
                )),
            flipped == sprite.collides_before(before, row as int, 0),
        decreases rows - row,
    {
        let pixels: u8 = memory[index + row];
        let mut col: usize = 0;
        while col < 8
            invariant
                col <= 8,
                row < rows <= SCREEN_HEIGHT,
                index + rows <= RAM_SIZE,
                pixels == memory@[index + row],
                sprite == (Sprite {
                    memory: memory@,
                    index: index as int,
                    rows: rows as int,
                    x0: x0 as int,
                    y0: y0 as int,
                }),
                before.len() == SCREEN_SIZE,
                forall|p: int|
                    0 <= p < SCREEN_SIZE ==> display@[p] == (before[p]
                        != sprite.covers_cell_before(p, row as int, col as int)),
                flipped == sprite.collides_before(before, row as int, col as int),
            decreases 8 - col,
        {
            proof {
                sprite.lemma_next_pixel(before, row as int, col as int);
                lemma_mask_reads_pixel(pixels, col as u8);
            }
            let mask: u8 = 0x80u8 >> (col as u8);
            if pixels & mask != 0 {
                let x: usize = (x0 as usize + col) % SCREEN_WIDTH;
                let y: usize = (y0 as usize + row) % SCREEN_HEIGHT;
                let idx: usize = x + SCREEN_WIDTH * y;
                flipped = flipped || display[idx];
                display[idx] = !display[idx];
            }
            col += 1;
        }
        proof {
            sprite.lemma_next_row(before, row as int);
        }
        row += 1;
    }
    proof {
        sprite.lemma_all_rows(before);
        assert(display@ =~= sprite.drawn_on(before));
    }
    flipped
}

} // verus!
