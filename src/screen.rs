use vstd::prelude::*;

verus! {

/// Width of the framebuffer in pixels.
pub const SCREEN_WIDTH: usize = 64;

/// Height of the framebuffer in pixels.
pub const SCREEN_HEIGHT: usize = 32;

/// Number of pixels in the framebuffer, stored row by row.
pub const SCREEN_PIXELS: usize = 2048;

/// What the run loop does next: stop, or go on with the next instruction.
#[derive(PartialEq, Eq, Structural, Clone, Copy, Debug)]
pub enum MainLoopAction {
    Interrupt,
    Continue,
}

/// Column of the pixel stored at index `p`.
pub open spec fn pixel_col(p: int) -> int {
    p % 64
}

/// Row of the pixel stored at index `p`.
pub open spec fn pixel_row(p: int) -> int {
    p / 64
}

/// Bit `col` of a sprite row, counted from the most significant bit.
pub open spec fn sprite_bit(row: u8, col: int) -> bool {
    (row >> ((7 - col) as u8)) & 1u8 == 1u8
}

/// Horizontal distance, wrapping around the screen, from a sprite placed at
/// column `vx` to pixel `p`.
pub open spec fn col_offset(vx: u8, p: int) -> int {
    (pixel_col(p) - vx) % 64
}

/// Vertical distance, wrapping around the screen, from a sprite placed at
/// row `vy` to pixel `p`.
pub open spec fn row_offset(vy: u8, p: int) -> int {
    (pixel_row(p) - vy) % 32
}

/// Whether the sprite rows `sprite`, placed at `(vx, vy)`, have a set bit
/// over pixel `p`.
pub open spec fn sprite_pixel(sprite: Seq<u8>, vx: u8, vy: u8, p: int) -> bool {
    &&& col_offset(vx, p) < 8
    &&& row_offset(vy, p) < sprite.len()
    &&& sprite_bit(sprite[row_offset(vy, p)], col_offset(vx, p))
}

/// The pixels after XOR-ing the sprite onto `pixels` at `(vx, vy)`.
pub open spec fn drawn(pixels: Seq<bool>, sprite: Seq<u8>, vx: u8, vy: u8) -> Seq<bool> {
    Seq::new(pixels.len(), |p: int| pixels[p] != sprite_pixel(sprite, vx, vy, p))
}

/// Whether drawing the sprite turns off a pixel that was on.
pub open spec fn collides(pixels: Seq<bool>, sprite: Seq<u8>, vx: u8, vy: u8) -> bool {
    exists|p: int| 0 <= p < pixels.len() && pixels[p] && #[trigger] sprite_pixel(sprite, vx, vy, p)
}

/// The coordinates `(x, y)` of the lit pixels among the first `n`, in
/// storage order.
pub open spec fn lit_prefix(pixels: Seq<bool>, n: int) -> Seq<(usize, usize)>
    decreases n,
{
    if n <= 0 {
        seq![]
    } else {
        let before = lit_prefix(pixels, n - 1);
        if pixels[n - 1] {
            before.push(((pixel_col(n - 1)) as usize, (pixel_row(n - 1)) as usize))
        } else {
            before
        }
    }
}

/// Row `i`, column `j` of a sprite placed at `(vx, vy)` lands on column
/// `(vx + j) mod 64`, row `(vy + i) mod 32`, wrapping around both edges of
/// the screen, and drawing flips that pixel exactly when bit `j` of row `i`
/// is set.
pub proof fn lemma_sprite_wraps(pixels: Seq<bool>, sprite: Seq<u8>, vx: u8, vy: u8, i: int, j: int)
    requires
        pixels.len() == SCREEN_PIXELS,
        sprite.len() <= 16,
        0 <= i < sprite.len(),
        0 <= j < 8,
    ensures
        ({
            let p = ((vy + i) % 32) * 64 + (vx + j) % 64;
            &&& 0 <= p < SCREEN_PIXELS
            &&& pixel_col(p) == (vx + j) % 64
            &&& pixel_row(p) == (vy + i) % 32
            &&& drawn(pixels, sprite, vx, vy)[p] == (pixels[p] != sprite_bit(sprite[i], j))
        }),
{
    let p = ((vy + i) % 32) * 64 + (vx + j) % 64;
    assert(pixel_col(p) == (vx + j) % 64) by (nonlinear_arith)
        requires
            p == ((vy + i) % 32) * 64 + (vx + j) % 64,
            0 <= (vx + j) % 64 < 64,
    ;
    assert(pixel_row(p) == (vy + i) % 32) by (nonlinear_arith)
        requires
            p == ((vy + i) % 32) * 64 + (vx + j) % 64,
            0 <= (vx + j) % 64 < 64,
    ;
    assert(col_offset(vx, p) == j);
    assert(row_offset(vy, p) == i);
}

/// The 64x32 monochrome framebuffer.
pub struct Framebuffer {
    pixels: Vec<bool>,
}

impl View for Framebuffer {
    type V = Seq<bool>;

    closed spec fn view(&self) -> Seq<bool> {
        self.pixels@
    }
}

impl Framebuffer {
    pub open spec fn wf(&self) -> bool {
        self@.len() == SCREEN_PIXELS
    }

    /// A framebuffer with every pixel off.
    pub fn new() -> (r: Framebuffer)
        ensures
            r.wf(),
            r@ == Seq::new(SCREEN_PIXELS as nat, |p: int| false),
    {
        let mut pixels: Vec<bool> = Vec::new();
        let mut p: usize = 0;
        while p < SCREEN_PIXELS
            invariant
                p <= SCREEN_PIXELS,
                pixels@ == Seq::new(p as nat, |q: int| false),
            decreases SCREEN_PIXELS - p,
        {
            pixels.push(false);
            p += 1;
            assert(pixels@ =~= Seq::new(p as nat, |q: int| false));
        }
        Framebuffer { pixels }
    }

    /// Turns every pixel off.
    pub fn clear(&mut self)
        requires
            old(self).wf(),
        ensures
            final(self).wf(),
            final(self)@ == Seq::new(SCREEN_PIXELS as nat, |p: int| false),
    {
        let mut p: usize = 0;
        while p < SCREEN_PIXELS
            invariant
                p <= SCREEN_PIXELS,
                self@.len() == SCREEN_PIXELS,
                forall|q: int| 0 <= q < p ==> !self@[q],
            decreases SCREEN_PIXELS - p,
        {
            self.pixels.set(p, false);
            p += 1;
        }
        assert(self@ =~= Seq::new(SCREEN_PIXELS as nat, |p: int| false));
    }

    /// Whether the pixel at column `x`, row `y` is on.
    pub fn pixel(&self, x: usize, y: usize) -> (r: bool)
        requires
            self.wf(),
            x < SCREEN_WIDTH,
            y < SCREEN_HEIGHT,
        ensures
            r == self@[y * 64 + x],
    {
        self.pixels[y * SCREEN_WIDTH + x]
    }

    /// Whether the sprite rows `sprite`, placed at `(vx, vy)`, have a set bit
    /// over pixel `p`; `left` and `top` are `vx` and `vy` wrapped onto the screen.
    fn sprite_pixel_at(sprite: &[u8], left: usize, top: usize, vx: u8, vy: u8, p: usize) -> (r: bool)
        requires
            left == vx as int % 64,
            top == vy as int % 32,
            p < SCREEN_PIXELS,
        ensures
            r == sprite_pixel(sprite@, vx, vy, p as int),
    {
        let col = p % SCREEN_WIDTH;
        let row = p / SCREEN_WIDTH;
        let dx = (col + SCREEN_WIDTH - left) % SCREEN_WIDTH;
        let dy = (row + SCREEN_HEIGHT - top) % SCREEN_HEIGHT;
        assert(dx == col_offset(vx, p as int));
        assert(dy == row_offset(vy, p as int));
        if dx < 8 && dy < sprite.len() {
            (sprite[dy] >> (7 - dx as u8)) & 1u8 == 1u8
        } else {
            false
        }
    }

    /// XORs the sprite rows `sprite` onto the framebuffer with its top-left
    /// corner at `(vx, vy)`, wrapping around both edges. Returns whether a
    /// pixel that was on was turned off.
    pub fn draw_sprite(&mut self, sprite: &[u8], vx: u8, vy: u8) -> (collision: bool)
        requires
            old(self).wf(),
            sprite@.len() <= 16,
        ensures
            final(self).wf(),
            final(self)@ == drawn(old(self)@, sprite@, vx, vy),
            collision == collides(old(self)@, sprite@, vx, vy),
    {
        let ghost before = self@;
        let left: usize = vx as usize % SCREEN_WIDTH;
        let top: usize = vy as usize % SCREEN_HEIGHT;
        let mut collision = false;
        let mut p: usize = 0;
        while p < SCREEN_PIXELS
            invariant
                p <= SCREEN_PIXELS,
                before.len() == SCREEN_PIXELS,
                self@.len() == SCREEN_PIXELS,
                left == vx as int % 64,
                top == vy as int % 32,
                sprite@.len() <= 16,
                forall|q: int| 0 <= q < p ==> self@[q] == drawn(before, sprite@, vx, vy)[q],
                forall|q: int| p <= q < SCREEN_PIXELS ==> self@[q] == before[q],
                collision == exists|q: int|
                    0 <= q < p && before[q] && #[trigger] sprite_pixel(sprite@, vx, vy, q),
            decreases SCREEN_PIXELS - p,
        {
            let hit = Self::sprite_pixel_at(sprite, left, top, vx, vy, p);
            if hit {
                let on = self.pixels[p];
                if on {
                    collision = true;
                }
                self.pixels.set(p, !on);
            }
            assert(collision == exists|q: int|
                0 <= q < p + 1 && before[q] && #[trigger] sprite_pixel(sprite@, vx, vy, q)) by {
                if before[p as int] && hit {
                    assert(sprite_pixel(sprite@, vx, vy, p as int));
                }
            }
            p += 1;
        }
        assert(self@ =~= drawn(before, sprite@, vx, vy));
        collision
    }

    /// The coordinates `(x, y)` of the pixels that are on, row by row.
    pub fn lit_points(&self) -> (r: Vec<(usize, usize)>)
        requires
            self.wf(),
        ensures
            r@ == lit_prefix(self@, SCREEN_PIXELS as int),
    {
        let mut r: Vec<(usize, usize)> = Vec::new();
        let mut p: usize = 0;
        while p < SCREEN_PIXELS
            invariant
                p <= SCREEN_PIXELS,
                self@.len() == SCREEN_PIXELS,
                r@ == lit_prefix(self@, p as int),
            decreases SCREEN_PIXELS - p,
        {
            if self.pixels[p] {
                r.push((p % SCREEN_WIDTH, p / SCREEN_WIDTH));
            }
            p += 1;
        }
        r
    }
}

} // verus!
