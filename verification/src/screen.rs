//! The monochrome framebuffer that sprites are drawn on.
use vstd::prelude::*;

verus! {

/// Pixels per row.
pub const WIDTH: usize = 64;

/// Rows of pixels.
pub const HEIGHT: usize = 32;

/// A screen with every pixel off.
pub open spec fn dark() -> Seq<bool> {
    Seq::new(2048, |p: int| false)
}

/// Where the pixel in column `x` of row `y` stands in a screen's view.
pub open spec fn pixel_index(x: int, y: int) -> int {
    y * 64 + x
}

/// Whether a sprite row has the bit for `column` set; column 0 is the
/// leftmost pixel and the byte's most significant bit.
pub open spec fn sprite_bit(byte: u8, column: int) -> bool {
    0 <= column < 8 && byte & (0x80u8 >> (column as u8)) != 0
}

/// The column of a sprite that lands on screen column `px` when the sprite's
/// left edge is at `x`, wrapping at the right edge of the screen.
pub open spec fn sprite_column(x: int, px: int) -> int {
    (px - x) % 64
}

/// Whether the sprite row `byte`, drawn on screen row `row` with its left
/// edge at column `x` modulo the screen's width, has a set bit on pixel `p`.
pub open spec fn row_covers(x: int, row: int, byte: u8, p: int) -> bool {
    p / 64 == row && sprite_bit(byte, sprite_column(x, p % 64))
}

/// The screen after one sprite row is drawn: each covered pixel is flipped.
pub open spec fn blit_row(g: Seq<bool>, x: int, row: int, byte: u8) -> Seq<bool> {
    Seq::new(g.len(), |p: int| g[p] != row_covers(x, row, byte, p))
}

/// Whether drawing one sprite row turns off a pixel that was on.
pub open spec fn row_collides(g: Seq<bool>, x: int, row: int, byte: u8) -> bool {
    exists|p: int| 0 <= p < g.len() && g[p] && #[trigger] row_covers(x, row, byte, p)
}

/// The screen row that row `r` of a sprite drawn at row `y` falls on,
/// wrapping at the bottom edge of the screen.
pub open spec fn screen_row(y: int, r: int) -> int {
    (y + r) % 32
}

/// The screen after a sprite is drawn at `(x, y)`: its rows are drawn one
/// below the other, first row first.
pub open spec fn blit(g: Seq<bool>, x: int, y: int, rows: Seq<u8>) -> Seq<bool>
    decreases rows.len(),
{
    if rows.len() == 0 {
        g
    } else {
        blit_row(
            blit(g, x, y, rows.drop_last()),
            x,
            screen_row(y, rows.len() - 1),
            rows.last(),
        )
    }
}

/// Whether drawing a sprite at `(x, y)` turns off a pixel that was on when
/// its row was drawn.
pub open spec fn collides(g: Seq<bool>, x: int, y: int, rows: Seq<u8>) -> bool
    decreases rows.len(),
{
    if rows.len() == 0 {
        false
    } else {
        collides(g, x, y, rows.drop_last()) || row_collides(
            blit(g, x, y, rows.drop_last()),
            x,
            screen_row(y, rows.len() - 1),
            rows.last(),
        )
    }
}

/// Drawing keeps the number of pixels.
pub proof fn lemma_blit_len(g: Seq<bool>, x: int, y: int, rows: Seq<u8>)
    ensures
        blit(g, x, y, rows).len() == g.len(),
    decreases rows.len(),
{
    if rows.len() > 0 {
        lemma_blit_len(g, x, y, rows.drop_last());
    }
}

/// The row of a sprite that lands on screen row `py` when the sprite's top
/// edge is at `y`, wrapping at the bottom edge of the screen.
pub open spec fn sprite_row(y: int, py: int) -> int {
    (py - y) % 32
}

/// Whether a sprite drawn at `(x, y)` has a set bit on pixel `p`. This is
/// for sprites of at most 32 rows, which do not wrap onto themselves.
pub open spec fn sprite_covers(x: int, y: int, rows: Seq<u8>, p: int) -> bool {
    let r = sprite_row(y, p / 64);
    r < rows.len() && sprite_bit(rows[r], sprite_column(x, p % 64))
}

/// A sprite row lands on exactly one screen row.
pub proof fn lemma_sprite_row(y: int, r: int, py: int)
    requires
        0 <= r < 32,
        0 <= py < 32,
    ensures
        sprite_row(y, py) == r <==> py == screen_row(y, r),
{
}

/// Drawing a sprite of at most 32 rows flips exactly the pixels under its
/// set bits, and collides exactly if one of those pixels was on.
pub proof fn lemma_blit_pixels(g: Seq<bool>, x: int, y: int, rows: Seq<u8>)
    requires
        g.len() == 2048,
        rows.len() <= 32,
    ensures
        blit(g, x, y, rows) == Seq::new(2048, |p: int| g[p] != sprite_covers(x, y, rows, p)),
        collides(g, x, y, rows) <==> exists|p: int|
            0 <= p < 2048 && g[p] && #[trigger] sprite_covers(x, y, rows, p),
    decreases rows.len(),
{
    if rows.len() == 0 {
        assert(blit(g, x, y, rows) =~= Seq::new(
            2048,
            |p: int| g[p] != sprite_covers(x, y, rows, p),
        ));
    } else {
        let n = rows.len() as int;
        let head = rows.drop_last();
        let h = blit(g, x, y, head);
        let row = screen_row(y, n - 1);
        lemma_blit_pixels(g, x, y, head);
        assert forall|p: int| 0 <= p < 2048 implies (sprite_covers(x, y, rows, p) == (
        sprite_covers(x, y, head, p) || row_covers(x, row, rows.last(), p))) && !(sprite_covers(
            x,
            y,
            head,
            p,
        ) && row_covers(x, row, rows.last(), p)) by {
            lemma_sprite_row(y, n - 1, p / 64);
        }
        assert(blit(g, x, y, rows) =~= Seq::new(
            2048,
            |p: int| g[p] != sprite_covers(x, y, rows, p),
        ));
        if collides(g, x, y, head) {
            let w = choose|p: int| 0 <= p < 2048 && g[p] && #[trigger] sprite_covers(x, y, head, p);
            assert(sprite_covers(x, y, rows, w));
        }
        if row_collides(h, x, row, rows.last()) {
            let w = choose|p: int|
                0 <= p < h.len() && h[p] && #[trigger] row_covers(x, row, rows.last(), p);
            assert(!sprite_covers(x, y, head, w));
            assert(g[w] && sprite_covers(x, y, rows, w));
        }
        if exists|p: int| 0 <= p < 2048 && g[p] && #[trigger] sprite_covers(x, y, rows, p) {
            let w = choose|p: int| 0 <= p < 2048 && g[p] && #[trigger] sprite_covers(x, y, rows, p);
            if sprite_covers(x, y, head, w) {
                assert(collides(g, x, y, head));
            } else {
                assert(h[w] && row_covers(x, row, rows.last(), w));
                assert(row_collides(h, x, row, rows.last()));
            }
        }
    }
}

/// A sprite column lands on exactly one screen column.
pub proof fn lemma_sprite_column(x: int, c: int, px: int)
    requires
        0 <= c < 64,
        0 <= px < 64,
    ensures
        sprite_column(x, px) == c <==> px == (x + c) % 64,
{
}

/// Drawing one more row of a sprite: the screen and the collision after the
/// first `r + 1` rows, from those after the first `r`.
pub proof fn lemma_blit_next_row(g: Seq<bool>, x: int, y: int, rows: Seq<u8>, r: int)
    requires
        0 <= r < rows.len(),
    ensures
        blit(g, x, y, rows.take(r + 1)) == blit_row(
            blit(g, x, y, rows.take(r)),
            x,
            screen_row(y, r),
            rows[r],
        ),
        collides(g, x, y, rows.take(r + 1)) == (collides(g, x, y, rows.take(r)) || row_collides(
            blit(g, x, y, rows.take(r)),
            x,
            screen_row(y, r),
            rows[r],
        )),
{
    assert(rows.take(r + 1).drop_last() == rows.take(r));
    assert(rows.take(r + 1).last() == rows[r]);
}

/// Whether pixel `p` is covered by one of the first `c` columns of a sprite
/// row.
spec fn covered_before(x: int, row: int, byte: u8, c: int, p: int) -> bool {
    row_covers(x, row, byte, p) && sprite_column(x, p % 64) < c
}

/// Computes the screen row for row `r` of a sprite drawn at row `y`.
fn wrapped_row(y: u8, r: usize) -> (row: usize)
    ensures
        row == screen_row(y as int, r as int),
{
    (y as usize % HEIGHT + r % HEIGHT) % HEIGHT
}

/// A grid of 64 by 32 pixels, each on or off.
pub struct Screen {
    pixels: [bool; 2048],
}

impl View for Screen {
    type V = Seq<bool>;

    /// The pixels row by row, the top row first and each row left to right.
    closed spec fn view(&self) -> Seq<bool> {
        self.pixels@
    }
}

impl Screen {
    /// A screen always holds 2048 pixels.
    pub broadcast proof fn lemma_len(&self)
        ensures
            #[trigger] self@.len() == 2048,
    {
    }

    /// A screen with every pixel off.
    pub fn new() -> (screen: Screen)
        ensures
            screen@ == dark(),
    {
        Screen { pixels: [false; 2048] }
    }

    /// Turns every pixel off.
    pub fn clear(&mut self)
        ensures
            final(self)@ == dark(),
    {
        self.pixels = [false; 2048];
    }

    /// Whether the pixel in column `x` of row `y` is on.
    pub fn pixel(&self, x: u8, y: u8) -> (on: bool)
        requires
            x < 64,
            y < 32,
        ensures
            on == self@[pixel_index(x as int, y as int)],
    {
        self.pixels[y as usize * WIDTH + x as usize]
    }

    /// Draws one sprite row on screen row `row`.
    fn xor_row(&mut self, x: u8, row: usize, byte: u8) -> (hit: bool)
        requires
            row < 32,
        ensures
            final(self)@ == blit_row(old(self)@, x as int, row as int, byte),
            hit == row_collides(old(self)@, x as int, row as int, byte),
    {
        let ghost g = self.pixels@;
        let ghost xi = x as int;
        let ghost ri = row as int;
        let mut hit: bool = false;
        let mut c: u8 = 0;
        while c < 8
            invariant
                c <= 8,
                row < 32,
                xi == x,
                ri == row,
                g == old(self).pixels@,
                forall|p: int|
                    0 <= p < 2048 ==> self.pixels@[p] == (g[p] != #[trigger] covered_before(
                        xi,
                        ri,
                        byte,
                        c as int,
                        p,
                    )),
                hit == exists|p: int|
                    0 <= p < 2048 && g[p] && #[trigger] covered_before(xi, ri, byte, c as int, p),
            decreases 8 - c,
        {
            let ghost before = self.pixels@;
            let ghost hit_before = hit;
            let px: usize = (x as usize + c as usize) % WIDTH;
            let q: usize = row * WIDTH + px;
            let bit: bool = byte & (0x80u8 >> c) != 0;
            proof {
                lemma_sprite_column(xi, c as int, px as int);
                assert(q as int / 64 == ri && q as int % 64 == px);
                assert(!covered_before(xi, ri, byte, c as int, q as int));
                assert(before[q as int] == g[q as int]);
                assert(covered_before(xi, ri, byte, c + 1, q as int) == bit);
            }
            if bit {
                if self.pixels[q] {
                    hit = true;
                }
                self.pixels[q] = !self.pixels[q];
            }
            proof {
                assert forall|p: int| 0 <= p < 2048 && p != q implies covered_before(
                    xi,
                    ri,
                    byte,
                    c + 1,
                    p,
                ) == covered_before(xi, ri, byte, c as int, p) by {
                    lemma_sprite_column(xi, c as int, p % 64);
                }
                assert forall|p: int| 0 <= p < 2048 implies self.pixels@[p] == (g[p]
                    != #[trigger] covered_before(xi, ri, byte, c + 1, p)) by {
                    assert(before[p] == (g[p] != covered_before(xi, ri, byte, c as int, p)));
                }
                if hit {
                    if hit_before {
                        let w = choose|p: int|
                            0 <= p < 2048 && g[p] && #[trigger] covered_before(
                                xi,
                                ri,
                                byte,
                                c as int,
                                p,
                            );
                        assert(covered_before(xi, ri, byte, c + 1, w));
                    } else {
                        assert(g[q as int] && covered_before(xi, ri, byte, c + 1, q as int));
                    }
                } else {
                    assert forall|p: int| 0 <= p < 2048 && g[p] implies !#[trigger] covered_before(
                        xi,
                        ri,
                        byte,
                        c + 1,
                        p,
                    ) by {
                        assert(!covered_before(xi, ri, byte, c as int, p));
                    }
                }
            }
            c += 1;
        }
        proof {
            assert forall|p: int| 0 <= p < 2048 implies covered_before(xi, ri, byte, 8, p)
                == row_covers(xi, ri, byte, p) by {}
            assert(self.pixels@ =~= blit_row(g, xi, ri, byte));
            if hit {
                let w = choose|p: int|
                    0 <= p < 2048 && g[p] && #[trigger] covered_before(xi, ri, byte, 8, p);
                assert(row_covers(xi, ri, byte, w));
            } else {
                assert forall|p: int| 0 <= p < 2048 && g[p] implies !#[trigger] row_covers(
                    xi,
                    ri,
                    byte,
                    p,
                ) by {
                    assert(!covered_before(xi, ri, byte, 8, p));
                }
            }
        }
        hit
    }

    /// Draws a sprite with its top left corner at column `x` of row `y`, both
    /// taken modulo the screen's size: each set bit of each row flips one
    /// pixel, and what runs over an edge comes back in at the opposite edge.
    /// Tells whether any pixel went from on to off.
    pub fn xor_blit(&mut self, x: u8, y: u8, rows: &[u8]) -> (collision: bool)
        ensures
            final(self)@ == blit(old(self)@, x as int, y as int, rows@),
            collision == collides(old(self)@, x as int, y as int, rows@),
    {
        let mut collision: bool = false;
        let mut r: usize = 0;
        while r < rows.len()
            invariant
                r <= rows@.len(),
                self.pixels@ == blit(old(self).pixels@, x as int, y as int, rows@.take(r as int)),
                collision == collides(old(self).pixels@, x as int, y as int, rows@.take(r as int)),
            decreases rows@.len() - r,
        {
            let row: usize = wrapped_row(y, r);
            proof {
                lemma_blit_next_row(old(self).pixels@, x as int, y as int, rows@, r as int);
            }
            let hit: bool = self.xor_row(x, row, rows[r]);
            collision = collision || hit;
            r += 1;
        }
        assert(rows@.take(r as int) == rows@);
        collision
    }
}

} // verus!
