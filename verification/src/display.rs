//! Drawing a sprite pixel by pixel: the steps that lead from the
//! framebuffer before a draw to the framebuffer after it.

use crate::semantics::{
    pixel_index, sprite_bit, sprite_col, sprite_row, MachineState, SCREEN_HEIGHT, SCREEN_WIDTH,
};
use vstd::prelude::*;

verus! {

/// Whether `p` is the index of a framebuffer cell.
pub open spec fn in_frame(p: int) -> bool {
    0 <= p < SCREEN_WIDTH * SCREEN_HEIGHT
}

/// The cell on which a sprite pixel falls lies in the framebuffer, and the
/// sprite row and column of that cell are those of the pixel.
pub proof fn lemma_pixel_index(vx: u8, vy: u8, row: int, col: int)
    requires
        0 <= row < SCREEN_HEIGHT,
        0 <= col < SCREEN_WIDTH,
    ensures
        in_frame(pixel_index(vx, vy, row, col)),
        sprite_row(vy, pixel_index(vx, vy, row, col)) == row,
        sprite_col(vx, pixel_index(vx, vy, row, col)) == col,
{
}

/// No other cell has the sprite row and column of a given sprite pixel.
pub proof fn lemma_pixel_index_unique(vx: u8, vy: u8, row: int, col: int, p: int)
    requires
        in_frame(p),
        sprite_row(vy, p) == row,
        sprite_col(vx, p) == col,
    ensures
        p == pixel_index(vx, vy, row, col),
{
}

impl MachineState {
    /// Whether the sprite's pixel on cell `p` is set and comes before
    /// `(row, col)` in the row-major order in which the sprite is drawn.
    pub open spec fn sprite_pixel_before(
        self,
        vx: u8,
        vy: u8,
        rows: int,
        row: int,
        col: int,
        p: int,
    ) -> bool {
        &&& self.sprite_pixel(vx, vy, rows, p)
        &&& (sprite_row(vy, p) < row || (sprite_row(vy, p) == row && sprite_col(vx, p) < col))
    }

    /// The framebuffer `pixels` and the collision flag `collision` are what
    /// drawing the sprite's pixels before `(row, col)` makes of this state.
    pub open spec fn draw_progress(
        self,
        pixels: Seq<bool>,
        collision: bool,
        vx: u8,
        vy: u8,
        rows: int,
        row: int,
        col: int,
    ) -> bool {
        &&& pixels.len() == SCREEN_WIDTH * SCREEN_HEIGHT
        &&& forall|p: int|
            in_frame(p) ==> #[trigger] pixels[p] == (self.pixels[p]
                != self.sprite_pixel_before(vx, vy, rows, row, col, p))
        &&& collision <==> exists|p: int|
            in_frame(p) && self.pixels[p]
                && #[trigger] self.sprite_pixel_before(vx, vy, rows, row, col, p)
    }

    /// Drawing the sprite pixel `(row, col)` takes the progress from
    /// `(row, col)` to `(row, col + 1)`.
    pub proof fn lemma_draw_progress_step(
        self,
        pixels: Seq<bool>,
        collision: bool,
        vx: u8,
        vy: u8,
        rows: int,
        row: int,
        col: int,
    )
        requires
            self.pixels.len() == SCREEN_WIDTH * SCREEN_HEIGHT,
            self.reg_i + rows <= self.memory.len(),
            0 <= row < rows <= SCREEN_HEIGHT,
            0 <= col < 8,
            self.draw_progress(pixels, collision, vx, vy, rows, row, col),
        ensures
            ({
                let idx = pixel_index(vx, vy, row, col);
                let bit = sprite_bit(self.memory[self.reg_i + row], col);
                &&& in_frame(idx)
                &&& pixels[idx] == self.pixels[idx]
                &&& self.draw_progress(
                    pixels.update(idx, pixels[idx] != bit),
                    collision || (pixels[idx] && bit),
                    vx,
                    vy,
                    rows,
                    row,
                    col + 1,
                )
            }),
    {
        let idx = pixel_index(vx, vy, row, col);
        let bit = sprite_bit(self.memory[self.reg_i + row], col);
        let after = pixels.update(idx, pixels[idx] != bit);
        lemma_pixel_index(vx, vy, row, col);
        assert(!self.sprite_pixel_before(vx, vy, rows, row, col, idx));
        assert(self.sprite_pixel_before(vx, vy, rows, row, col + 1, idx) == bit);
        // every other cell is before `(row, col + 1)` exactly if it was
        // before `(row, col)`
        assert forall|p: int| in_frame(p) && p != idx implies self.sprite_pixel_before(
            vx,
            vy,
            rows,
            row,
            col + 1,
            p,
        ) == self.sprite_pixel_before(vx, vy, rows, row, col, p) by {
            if sprite_row(vy, p) == row && sprite_col(vx, p) == col {
                lemma_pixel_index_unique(vx, vy, row, col, p);
            }
        }
        assert forall|p: int| in_frame(p) implies #[trigger] after[p] == (self.pixels[p]
            != self.sprite_pixel_before(vx, vy, rows, row, col + 1, p)) by {
            assert(pixels[p] == (self.pixels[p] != self.sprite_pixel_before(
                vx,
                vy,
                rows,
                row,
                col,
                p,
            )));
        }
        if collision {
            let p = choose|p: int|
                in_frame(p) && self.pixels[p] && #[trigger] self.sprite_pixel_before(
                    vx,
                    vy,
                    rows,
                    row,
                    col,
                    p,
                );
            assert(self.sprite_pixel_before(vx, vy, rows, row, col + 1, p));
        } else if pixels[idx] && bit {
            assert(self.sprite_pixel_before(vx, vy, rows, row, col + 1, idx));
        } else {
            assert forall|p: int| in_frame(p) && self.pixels[p] implies !self.sprite_pixel_before(
                vx,
                vy,
                rows,
                row,
                col + 1,
                p,
            ) by {
                assert(!self.sprite_pixel_before(vx, vy, rows, row, col, p));
            }
        }
    }

    /// The end of one sprite row is the start of the next.
    pub proof fn lemma_draw_progress_next_row(
        self,
        pixels: Seq<bool>,
        collision: bool,
        vx: u8,
        vy: u8,
        rows: int,
        row: int,
    )
        requires
            self.draw_progress(pixels, collision, vx, vy, rows, row, 8),
        ensures
            self.draw_progress(pixels, collision, vx, vy, rows, row + 1, 0),
    {
        assert forall|p: int|
            self.sprite_pixel_before(vx, vy, rows, row + 1, 0, p) == self.sprite_pixel_before(
                vx,
                vy,
                rows,
                row,
                8,
                p,
            ) by {}
        assert forall|p: int| in_frame(p) implies #[trigger] pixels[p] == (self.pixels[p]
            != self.sprite_pixel_before(vx, vy, rows, row + 1, 0, p)) by {
            assert(pixels[p] == (self.pixels[p] != self.sprite_pixel_before(
                vx,
                vy,
                rows,
                row,
                8,
                p,
            )));
        }
        if collision {
            let p = choose|p: int|
                in_frame(p) && self.pixels[p] && #[trigger] self.sprite_pixel_before(
                    vx,
                    vy,
                    rows,
                    row,
                    8,
                    p,
                );
            assert(self.sprite_pixel_before(vx, vy, rows, row + 1, 0, p));
        } else {
            assert forall|p: int| in_frame(p) && self.pixels[p] implies !self.sprite_pixel_before(
                vx,
                vy,
                rows,
                row + 1,
                0,
                p,
            ) by {
                assert(!self.sprite_pixel_before(vx, vy, rows, row, 8, p));
            }
        }
    }

    /// Once every row has been drawn, the framebuffer and the flag are those
    /// of the whole sprite.
    pub proof fn lemma_draw_progress_done(
        self,
        pixels: Seq<bool>,
        collision: bool,
        vx: u8,
        vy: u8,
        rows: int,
    )
        requires
            self.draw_progress(pixels, collision, vx, vy, rows, rows, 0),
        ensures
            pixels == self.drawn_pixels(vx, vy, rows),
            collision == self.sprite_collides(vx, vy, rows),
    {
        assert forall|p: int|
            self.sprite_pixel_before(vx, vy, rows, rows, 0, p) == self.sprite_pixel(
                vx,
                vy,
                rows,
                p,
            ) by {}
        assert forall|p: int| in_frame(p) implies pixels[p] == self.drawn_pixels(
            vx,
            vy,
            rows,
        )[p] by {
            assert(pixels[p] == (self.pixels[p] != self.sprite_pixel_before(
                vx,
                vy,
                rows,
                rows,
                0,
                p,
            )));
        }
        assert(pixels =~= self.drawn_pixels(vx, vy, rows));
        if collision {
            let p = choose|p: int|
                in_frame(p) && self.pixels[p] && #[trigger] self.sprite_pixel_before(
                    vx,
                    vy,
                    rows,
                    rows,
                    0,
                    p,
                );
            assert(self.sprite_pixel(vx, vy, rows, p));
        } else {
            assert forall|p: int| in_frame(p) && self.pixels[p] implies !self.sprite_pixel(
                vx,
                vy,
                rows,
                p,
            ) by {
                assert(!self.sprite_pixel_before(vx, vy, rows, rows, 0, p));
            }
        }
    }
}

} // verus!
