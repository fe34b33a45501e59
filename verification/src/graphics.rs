//! The 64x32 monochrome framebuffer.
//!
//! A sprite draw XORs each bit of each sprite byte into the grid, one
//! row per byte and one column per bit, wrapping around both edges, and
//! reports whether any pixel was erased (the collision flag). Row-major
//! layout: the pixel at column `x`, row `y` is element `y * 64 + x`.

use vstd::prelude::*;

use vstd::arithmetic::div_mod::{
    lemma_fundamental_div_mod,
    lemma_fundamental_div_mod_converse,
    lemma_mod_add_multiples_vanish,
    lemma_mod_bound,
    lemma_small_mod,
    lemma_sub_mod_noop_right,
};

verus! {

/// Pixels per row.
pub const FRAME_WIDTH: usize = 64;

/// Rows of pixels.
pub const FRAME_HEIGHT: usize = 32;

/// Total pixel count of the grid.
pub const PIXELS: usize = 64 * 32;

/// Bit `c` (counting the most significant bit as column 0) of a sprite
/// row byte.
pub open spec fn sprite_bit(b: u8, c: int) -> bool {
    (b >> ((7 - c) as u8)) & 1 == 1
}

/// Whether the order in which a draw walks the sprite (row by row, then
/// column by column) visits cell `(rr, cc)` strictly before cell
/// `(r, c)`.
pub open spec fn cell_before(rr: int, cc: int, r: int, c: int) -> bool {
    rr < r || (rr == r && cc < c)
}

/// Whether pixel `p` receives a set sprite bit from one of the cells a
/// draw at `(x, y)` has walked so far: every cell of the first `r` rows,
/// plus the first `c` cells of row `r`. The candidate cell of `p` is
/// unique because sprite rows and columns wrap exactly once around the
/// 32-row, 64-column grid.
pub open spec fn draw_hit_upto(bytes: Seq<u8>, x: int, y: int, p: int, r: int, c: int) -> bool {
    let px = p % 64;
    let py = p / 64;
    let rr = (py - y) % 32;
    let cc = (px - x) % 64;
    &&& rr < bytes.len()
    &&& cc < 8
    &&& sprite_bit(bytes[rr], cc)
    &&& cell_before(rr, cc, r, c)
}

/// Whether pixel `p` receives a set sprite bit from a whole draw of
/// `bytes` at `(x, y)`.
pub open spec fn draw_hit(bytes: Seq<u8>, x: int, y: int, p: int) -> bool {
    draw_hit_upto(bytes, x, y, p, bytes.len() as int, 0)
}

/// The framebuffer contents after drawing `bytes` at `(x, y)`: every hit
/// pixel is toggled, every other pixel keeps its state.
pub open spec fn draw_result(disp: Seq<bool>, bytes: Seq<u8>, x: int, y: int) -> Seq<bool> {
    Seq::new(disp.len(), |p: int| disp[p] != draw_hit(bytes, x, y, p))
}

/// Whether drawing `bytes` at `(x, y)` erases some pixel: a set sprite
/// bit lands on a pixel that was already set.
pub open spec fn draw_collision(disp: Seq<bool>, bytes: Seq<u8>, x: int, y: int) -> bool {
    exists|p: int| 0 <= p < disp.len() && disp[p] && draw_hit(bytes, x, y, p)
}

/// For a base and an offset both below the modulus, wrapping the sum and
/// then subtracting the base recovers the offset.
proof fn lemma_wrap_round_trip(base: int, off: int, m: int)
    requires
        0 <= base < m,
        0 <= off < m,
    ensures
        0 <= (base + off) % m < m,
        ((base + off) % m - base) % m == off,
{
    if base + off < m {
        lemma_small_mod((base + off) as nat, m as nat);
        lemma_small_mod(off as nat, m as nat);
    } else {
        lemma_mod_add_multiples_vanish(base + off - m, m);
        lemma_small_mod((base + off - m) as nat, m as nat);
        assert((base + off) % m == base + off - m);
        lemma_mod_add_multiples_vanish(off - m, m);
        lemma_small_mod(off as nat, m as nat);
    }
}

/// A pixel coordinate below the modulus that wraps back to a given
/// offset is exactly the wrapped sum of base and offset.
proof fn lemma_wrap_unique(base: int, off: int, q: int, m: int)
    requires
        0 <= base < m,
        0 <= off < m,
        0 <= q < m,
        (q - base) % m == off,
    ensures
        q == (base + off) % m,
{
    if q >= base {
        lemma_small_mod((q - base) as nat, m as nat);
        assert(q == base + off);
        lemma_small_mod(q as nat, m as nat);
    } else {
        lemma_mod_add_multiples_vanish(q - base, m);
        lemma_small_mod((q - base + m) as nat, m as nat);
        assert(q == base + off - m);
        lemma_mod_add_multiples_vanish(base + off - m, m);
        lemma_small_mod((base + off - m) as nat, m as nat);
    }
}

/// A pixel whose wrapped sprite row and column are `(r, c)` is exactly
/// the pixel the draw loop touches for cell `(r, c)`: the mapping from
/// cells to pixels is injective.
proof fn lemma_cell_unique(x0: int, y0: int, r: int, c: int, p: int)
    requires
        0 <= x0 < 64,
        0 <= y0 < 32,
        0 <= r < 32,
        0 <= c < 64,
        0 <= p < 2048,
        (p / 64 - y0) % 32 == r,
        (p % 64 - x0) % 64 == c,
    ensures
        p == ((y0 + r) % 32) * 64 + ((x0 + c) % 64),
{
    lemma_mod_bound(p, 64);
    lemma_fundamental_div_mod(p, 64);
    assert(0 <= p / 64 < 32);
    lemma_wrap_unique(y0, r, p / 64, 32);
    lemma_wrap_unique(x0, c, p % 64, 64);
}

/// Reducing the draw origin modulo the grid size leaves every hit
/// unchanged: drawing is insensitive to whole wraps of its coordinates.
proof fn lemma_hit_normalize(bytes: Seq<u8>, x: int, y: int, p: int, r: int, c: int)
    requires
        0 <= x,
        0 <= y,
    ensures
        draw_hit_upto(bytes, x % 64, y % 32, p, r, c) == draw_hit_upto(bytes, x, y, p, r, c),
{
    lemma_sub_mod_noop_right(p % 64, x, 64);
    lemma_sub_mod_noop_right(p / 64, y, 32);
}

/// The monochrome pixel grid. Its view is the sequence of all 2048
/// pixel states in row-major order; `true` is a lit pixel.
pub struct Graphics {
    display: Vec<bool>,
}

impl View for Graphics {
    type V = Seq<bool>;

    closed spec fn view(&self) -> Seq<bool> {
        self.display@
    }
}

impl Graphics {
    /// The grid always holds exactly 64 x 32 pixels.
    pub open spec fn wf(&self) -> bool {
        self@.len() == PIXELS
    }

    /// A fresh framebuffer with every pixel unset.
    pub fn new() -> (g: Graphics)
        ensures
            g.wf(),
            g@.len() == PIXELS,
            forall|i: int| 0 <= i < PIXELS ==> !g@[i],
    {
        let mut display: Vec<bool> = Vec::new();
        let mut i: usize = 0;
        while i < PIXELS
            invariant
                i <= PIXELS,
                display@.len() == i,
                forall|j: int| 0 <= j < i ==> !display@[j],
            decreases PIXELS - i,
        {
            display.push(false);
            i = i + 1;
        }
        Graphics { display }
    }

    /// Resets every pixel to unset.
    pub fn clear(&mut self)
        requires
            old(self).wf(),
        ensures
            final(self).wf(),
            forall|i: int| 0 <= i < PIXELS ==> !final(self)@[i],
    {
        let mut i: usize = 0;
        while i < PIXELS
            invariant
                self.display@.len() == PIXELS,
                i <= PIXELS,
                forall|j: int| 0 <= j < i ==> !self.display@[j],
            decreases PIXELS - i,
        {
            self.display[i] = false;
            i = i + 1;
        }
    }

    /// The current pixel grid as a fresh row-major vector of booleans.
    pub fn snapshot(&self) -> (r: Vec<bool>)
        requires
            self.wf(),
        ensures
            r@ == self@,
    {
        let mut r: Vec<bool> = Vec::new();
        let mut i: usize = 0;
        while i < PIXELS
            invariant
                self.wf(),
                i <= PIXELS,
                r@ == self@.subrange(0, i as int),
            decreases PIXELS - i,
        {
            r.push(self.display[i]);
            proof {
                assert(r@ =~= self@.subrange(0, i + 1));
            }
            i = i + 1;
        }
        proof {
            assert(r@ =~= self@);
        }
        r
    }

    /// XOR-draws a sprite, one row per byte and one column per bit,
    /// wrapping around both edges of the grid, and reports whether any
    /// pixel transitioned from set to unset.
    pub fn draw(&mut self, bytes: Vec<u8>, x_coordinate: usize, y_coordinate: usize) -> (collision:
        bool)
        requires
            old(self).wf(),
            bytes@.len() <= FRAME_HEIGHT,
        ensures
            final(self).wf(),
            final(self)@ == draw_result(old(self)@, bytes@, x_coordinate as int, y_coordinate as int),
            collision == draw_collision(old(self)@, bytes@, x_coordinate as int, y_coordinate as int),
    {
        let ghost d0 = self.display@;
        let ghost xg = x_coordinate as int;
        let ghost yg = y_coordinate as int;
        let x0 = x_coordinate % FRAME_WIDTH;
        let y0 = y_coordinate % FRAME_HEIGHT;
        let mut collision = false;
        let mut r: usize = 0;
        while r < bytes.len()
            invariant
                self.display@.len() == PIXELS,
                d0.len() == PIXELS,
                d0 == old(self)@,
                bytes@.len() <= FRAME_HEIGHT,
                x0 == xg % 64,
                y0 == yg % 32,
                x0 < 64,
                y0 < 32,
                r <= bytes@.len(),
                self.display@ == Seq::new(
                    PIXELS as nat,
                    |p: int| d0[p] != draw_hit_upto(bytes@, x0 as int, y0 as int, p, r as int, 0),
                ),
                collision == exists|p: int|
                    0 <= p < PIXELS && d0[p] && draw_hit_upto(
                        bytes@,
                        x0 as int,
                        y0 as int,
                        p,
                        r as int,
                        0,
                    ),
            decreases bytes@.len() - r,
        {
            let py = (y0 + r) % FRAME_HEIGHT;
            let byte = bytes[r];
            let mut c: usize = 0;
            while c < 8
                invariant
                    self.display@.len() == PIXELS,
                    d0.len() == PIXELS,
                    bytes@.len() <= FRAME_HEIGHT,
                    x0 < 64,
                    y0 < 32,
                    r < bytes@.len(),
                    byte == bytes@[r as int],
                    py == (y0 + r) % 32,
                    c <= 8,
                    self.display@ == Seq::new(
                        PIXELS as nat,
                        |p: int| d0[p] != draw_hit_upto(
                            bytes@,
                            x0 as int,
                            y0 as int,
                            p,
                            r as int,
                            c as int,
                        ),
                    ),
                    collision == exists|p: int|
                        0 <= p < PIXELS && d0[p] && draw_hit_upto(
                            bytes@,
                            x0 as int,
                            y0 as int,
                            p,
                            r as int,
                            c as int,
                        ),
                decreases 8 - c,
            {
                let px = (x0 + c) % FRAME_WIDTH;
                let idx = py * FRAME_WIDTH + px;
                let shift: u8 = (7 - c) as u8;
                let bit = ((byte >> shift) & 1) == 1;
                proof {
                    lemma_wrap_round_trip(y0 as int, r as int, 32);
                    lemma_wrap_round_trip(x0 as int, c as int, 64);
                    lemma_fundamental_div_mod_converse(idx as int, 64, py as int, px as int);
                    assert(idx as int / 64 == py && idx as int % 64 == px);
                    assert(bit == sprite_bit(bytes@[r as int], c as int));
                }
                let ghost prev = self.display@;
                let ghost prev_collision = collision;
                if bit {
                    if self.display[idx] {
                        collision = true;
                    }
                    let cur = self.display[idx];
                    self.display[idx] = !cur;
                }
                proof {
                    assert forall|p: int| 0 <= p < PIXELS implies self.display@[p] == (d0[p]
                        != draw_hit_upto(
                        bytes@,
                        x0 as int,
                        y0 as int,
                        p,
                        r as int,
                        c + 1,
                    )) by {
                        if p == idx as int {
                            assert(prev[p] == (d0[p] != draw_hit_upto(
                                bytes@,
                                x0 as int,
                                y0 as int,
                                p,
                                r as int,
                                c as int,
                            )));
                        } else {
                            assert(self.display@[p] == prev[p]);
                            assert(prev[p] == (d0[p] != draw_hit_upto(
                                bytes@,
                                x0 as int,
                                y0 as int,
                                p,
                                r as int,
                                c as int,
                            )));
                            // The cell (r, c) flips pixel idx alone: any other
                            // pixel sees the same hits before and after it.
                            if draw_hit_upto(bytes@, x0 as int, y0 as int, p, r as int, c + 1)
                                != draw_hit_upto(
                                bytes@,
                                x0 as int,
                                y0 as int,
                                p,
                                r as int,
                                c as int,
                            ) {
                                lemma_cell_unique(x0 as int, y0 as int, r as int, c as int, p);
                                assert(false);
                            }
                        }
                    }
                    assert(self.display@ =~= Seq::new(
                        PIXELS as nat,
                        |p: int| d0[p] != draw_hit_upto(
                            bytes@,
                            x0 as int,
                            y0 as int,
                            p,
                            r as int,
                            c + 1,
                        ),
                    ));
                    // The collision flag accounts for exactly the cells walked
                    // so far.
                    if bit && prev[idx as int] {
                        assert(!draw_hit_upto(
                            bytes@,
                            x0 as int,
                            y0 as int,
                            idx as int,
                            r as int,
                            c as int,
                        ));
                        assert(d0[idx as int]);
                        assert(draw_hit_upto(
                            bytes@,
                            x0 as int,
                            y0 as int,
                            idx as int,
                            r as int,
                            c + 1,
                        ));
                    }
                    if collision {
                        if prev_collision {
                            let w = choose|p: int|
                                0 <= p < PIXELS && d0[p] && draw_hit_upto(
                                    bytes@,
                                    x0 as int,
                                    y0 as int,
                                    p,
                                    r as int,
                                    c as int,
                                );
                            assert(d0[w] && draw_hit_upto(
                                bytes@,
                                x0 as int,
                                y0 as int,
                                w,
                                r as int,
                                c + 1,
                            ));
                        }
                    } else {
                        assert forall|p: int|
                            0 <= p < PIXELS && d0[p] implies !draw_hit_upto(
                            bytes@,
                            x0 as int,
                            y0 as int,
                            p,
                            r as int,
                            c + 1,
                        ) by {
                            if draw_hit_upto(bytes@, x0 as int, y0 as int, p, r as int, c + 1)
                                && !draw_hit_upto(bytes@, x0 as int, y0 as int, p, r as int, c as int) {
                                lemma_cell_unique(x0 as int, y0 as int, r as int, c as int, p);
                            }
                        }
                    }
                }
                c = c + 1;
            }
            proof {
                // A row's eight cells walked is the same set of cells as the
                // next row with none walked.
                assert forall|p: int| 0 <= p < PIXELS implies draw_hit_upto(
                    bytes@,
                    x0 as int,
                    y0 as int,
                    p,
                    r as int,
                    8,
                ) == draw_hit_upto(bytes@, x0 as int, y0 as int, p, r + 1, 0) by {}
                assert(self.display@ =~= Seq::new(
                    PIXELS as nat,
                    |p: int| d0[p] != draw_hit_upto(bytes@, x0 as int, y0 as int, p, r + 1, 0),
                ));
            }
            r = r + 1;
        }
        proof {
            assert forall|p: int| 0 <= p < PIXELS implies draw_hit_upto(
                bytes@,
                x0 as int,
                y0 as int,
                p,
                bytes@.len() as int,
                0,
            ) == draw_hit(bytes@, xg, yg, p) by {
                lemma_hit_normalize(bytes@, xg, yg, p, bytes@.len() as int, 0);
            }
            assert(self.display@ =~= draw_result(d0, bytes@, xg, yg));
        }
        collision
    }
}

/// Drawing the identical sprite at the identical position twice restores
/// the framebuffer to its pre-draw state, and the second draw reports a
/// collision exactly where the first one lit a previously unset pixel
/// covered by a set sprite bit.
pub proof fn lemma_draw_twice_restores(disp: Seq<bool>, bytes: Seq<u8>, x: int, y: int)
    ensures
        draw_result(draw_result(disp, bytes, x, y), bytes, x, y) =~= disp,
        draw_collision(draw_result(disp, bytes, x, y), bytes, x, y) == exists|p: int|
            0 <= p < disp.len() && !disp[p] && draw_hit(bytes, x, y, p),
{
    let once = draw_result(disp, bytes, x, y);
    assert forall|p: int| 0 <= p < disp.len() implies draw_result(once, bytes, x, y)[p]
        == disp[p] by {}
    assert(draw_collision(once, bytes, x, y) == exists|p: int|
        0 <= p < disp.len() && !disp[p] && draw_hit(bytes, x, y, p)) by {
        if draw_collision(once, bytes, x, y) {
            let w = choose|p: int| 0 <= p < once.len() && once[p] && draw_hit(bytes, x, y, p);
            assert(!disp[w] && draw_hit(bytes, x, y, w));
        }
        if exists|p: int| 0 <= p < disp.len() && !disp[p] && draw_hit(bytes, x, y, p) {
            let w = choose|p: int| 0 <= p < disp.len() && !disp[p] && draw_hit(bytes, x, y, p);
            assert(once[w] && draw_hit(bytes, x, y, w));
        }
    }
}

/// A sprite drawn at the right edge wraps: with `x = 63`, bit column 1
/// of sprite row `r` lands on pixel column 0 of grid row
/// `(y + r) % 32`, not off the screen.
pub proof fn lemma_draw_wraps_right_edge(disp: Seq<bool>, bytes: Seq<u8>, y: int, r: int)
    requires
        disp.len() == PIXELS,
        0 <= y < 32,
        0 <= r < bytes.len(),
        bytes.len() <= 32,
    ensures
        draw_result(disp, bytes, 63, y)[((y + r) % 32) * 64] == (disp[((y + r) % 32) * 64]
            != sprite_bit(bytes[r], 1)),
{
    let p = ((y + r) % 32) * 64;
    lemma_wrap_round_trip(y, r, 32);
    lemma_fundamental_div_mod_converse(p, 64, (y + r) % 32, 0);
    assert(p / 64 == (y + r) % 32 && p % 64 == 0);
    assert((p / 64 - y) % 32 == r);
    assert((0 - 63) % 64 == 1) by {
        lemma_mod_add_multiples_vanish(-63, 64);
        lemma_small_mod(1nat, 64nat);
    }
    assert(draw_hit(bytes, 63, y, p) == sprite_bit(bytes[r], 1));
}

} // verus!
