//! The monochrome framebuffer and the XOR sprite blit with collision
//! detection.

use vstd::prelude::*;

use crate::num::bit_msb;

verus! {

/// Width of the standard screen, in pixels.
pub const WIDTH: u16 = 64;

/// Height of the standard screen, in pixels.
pub const HEIGHT: u16 = 32;

/// Width of the extended screen, in pixels.
pub const EXT_WIDTH: u16 = 128;

/// Height of the extended screen, in pixels.
pub const EXT_HEIGHT: u16 = 64;

/// Width of a sprite, in pixels: one byte per row.
pub const PIXELS_WIDE: u16 = 8;

/// Whether the sprite `sprites`, drawn with its top-left corner at
/// `(x, y)` (each taken modulo the screen's size), lights pixel `i` of a
/// row-major `w`-wide, `h`-high screen. The sprite is clipped at the right
/// and bottom edges, never wrapped.
pub open spec fn sprite_pixel(sprites: Seq<u8>, w: int, h: int, x: u8, y: u8, i: int) -> bool {
    let x0 = x as int % w;
    let y0 = y as int % h;
    let cx = i % w;
    let cy = i / w;
    &&& x0 <= cx < x0 + PIXELS_WIDE
    &&& y0 <= cy < y0 + sprites.len()
    &&& bit_msb(sprites[cy - y0], (cx - x0) as u8)
}

/// The screen `buf` after XOR-ing the sprite into it.
pub open spec fn drawn(buf: Seq<bool>, w: int, h: int, x: u8, y: u8, sprites: Seq<u8>) -> Seq<bool> {
    Seq::new(buf.len(), |i: int| buf[i] != sprite_pixel(sprites, w, h, x, y, i))
}

/// Whether drawing the sprite turns off a pixel that was on.
pub open spec fn collides(buf: Seq<bool>, w: int, h: int, x: u8, y: u8, sprites: Seq<u8>) -> bool {
    exists|i: int| 0 <= i < buf.len() && buf[i] && sprite_pixel(sprites, w, h, x, y, i)
}

/// Drawing the same sprite twice at the same place gives back the screen
/// it started from.
pub proof fn lemma_draw_twice_restores(buf: Seq<bool>, w: int, h: int, x: u8, y: u8, sprites: Seq<u8>)
    ensures
        drawn(drawn(buf, w, h, x, y, sprites), w, h, x, y, sprites) == buf,
{
    assert(drawn(drawn(buf, w, h, x, y, sprites), w, h, x, y, sprites) =~= buf);
}

/// On a blank screen a sprite collides with nothing, and drawing it a second
/// time at the same place collides exactly when it lit some pixel.
pub proof fn lemma_draw_on_blank(buf: Seq<bool>, w: int, h: int, x: u8, y: u8, sprites: Seq<u8>)
    requires
        forall|i: int| 0 <= i < buf.len() ==> !buf[i],
    ensures
        !collides(buf, w, h, x, y, sprites),
        collides(drawn(buf, w, h, x, y, sprites), w, h, x, y, sprites)
            == exists|i: int| 0 <= i < buf.len() && sprite_pixel(sprites, w, h, x, y, i),
{
    let b2 = drawn(buf, w, h, x, y, sprites);
    if exists|i: int| 0 <= i < buf.len() && sprite_pixel(sprites, w, h, x, y, i) {
        let i = choose|i: int| 0 <= i < buf.len() && sprite_pixel(sprites, w, h, x, y, i);
        assert(b2[i]);
    }
}

/// A sprite whose corner sits on the last column lights only pixels of that
/// column, each from the sprite's leftmost bit: the rest is clipped.
pub proof fn lemma_right_edge_clips(sprites: Seq<u8>, w: int, h: int, x: u8, y: u8, i: int)
    requires
        w > 0,
        h > 0,
        0 <= i,
        x as int % w == w - 1,
        sprite_pixel(sprites, w, h, x, y, i),
    ensures
        i % w == w - 1,
        bit_msb(sprites[i / w - y as int % h], 0),
{
}

/// The framebuffer: `width * height` pixels, row-major, each on or off.
pub struct Display {
    width: u16,
    height: u16,
    vram: Vec<bool>,
}

impl View for Display {
    type V = Seq<bool>;

    closed spec fn view(&self) -> Seq<bool> {
        self.vram@
    }
}

impl Display {
    pub closed spec fn spec_width(&self) -> u16 {
        self.width
    }

    pub closed spec fn spec_height(&self) -> u16 {
        self.height
    }

    pub open spec fn wf(&self) -> bool {
        &&& (self.spec_width() == WIDTH && self.spec_height() == HEIGHT)
            || (self.spec_width() == EXT_WIDTH && self.spec_height() == EXT_HEIGHT)
        &&& self@.len() == self.spec_width() as int * self.spec_height() as int
    }

    fn blank(width: u16, height: u16) -> (r: Self)
        requires
            (width == WIDTH && height == HEIGHT) || (width == EXT_WIDTH && height == EXT_HEIGHT),
        ensures
            r.wf(),
            r.spec_width() == width,
            r.spec_height() == height,
            forall|i: int| 0 <= i < r@.len() ==> !r@[i],
    {
        let size = width as usize * height as usize;
        let mut vram: Vec<bool> = Vec::with_capacity(size);
        let mut k: usize = 0;
        while k < size
            invariant
                k <= size,
                vram@.len() == k,
                forall|i: int| 0 <= i < k ==> !vram@[i],
            decreases size - k,
        {
            vram.push(false);
            k += 1;
        }
        Self { width, height, vram }
    }

    /// A blank standard-size (64 by 32) screen.
    pub fn new() -> (r: Self)
        ensures
            r.wf(),
            r.spec_width() == WIDTH,
            r.spec_height() == HEIGHT,
            forall|i: int| 0 <= i < r@.len() ==> !r@[i],
    {
        Self::blank(WIDTH, HEIGHT)
    }

    /// A blank extended-size (128 by 64) screen.
    pub fn new_extended() -> (r: Self)
        ensures
            r.wf(),
            r.spec_width() == EXT_WIDTH,
            r.spec_height() == EXT_HEIGHT,
            forall|i: int| 0 <= i < r@.len() ==> !r@[i],
    {
        Self::blank(EXT_WIDTH, EXT_HEIGHT)
    }

    /// Width in pixels.
    pub fn width(&self) -> (r: u16)
        ensures
            r == self.spec_width(),
    {
        self.width
    }

    /// Height in pixels.
    pub fn height(&self) -> (r: u16)
        ensures
            r == self.spec_height(),
    {
        self.height
    }

    /// Turns every pixel off.
    pub fn reset(&mut self)
        requires
            old(self).wf(),
        ensures
            final(self).wf(),
            final(self).spec_width() == old(self).spec_width(),
            final(self).spec_height() == old(self).spec_height(),
            final(self)@.len() == old(self)@.len(),
            forall|i: int| 0 <= i < final(self)@.len() ==> !final(self)@[i],
    {
        let n = self.vram.len();
        let mut k: usize = 0;
        while k < n
            invariant
                k <= n,
                n == self.vram@.len(),
                self.wf(),
                self.width == old(self).width,
                self.height == old(self).height,
                forall|i: int| 0 <= i < k ==> !self.vram@[i],
            decreases n - k,
        {
            self.vram.set(k, false);
            k += 1;
        }
    }

    /// Turns every pixel off.
    pub fn clear_screen(&mut self)
        requires
            old(self).wf(),
        ensures
            final(self).wf(),
            final(self).spec_width() == old(self).spec_width(),
            final(self).spec_height() == old(self).spec_height(),
            final(self)@.len() == old(self)@.len(),
            forall|i: int| 0 <= i < final(self)@.len() ==> !final(self)@[i],
    {
        self.reset();
    }

    /// The pixels, row-major.
    pub fn get_buf(&self) -> (r: &[bool])
        ensures
            r@ == self@,
    {
        self.vram.as_slice()
    }

    /// XORs the sprite `sprites` (one byte per row, most significant bit
    /// leftmost) into the screen with its top-left corner at `origin`,
    /// each taken modulo the screen's size; the sprite is clipped at the
    /// right and bottom edges. Returns whether a pixel that was on was
    /// turned off.
    pub fn draw(&mut self, origin: (u8, u8), sprites: &[u8]) -> (collision: bool)
        requires
            old(self).wf(),
        ensures
            final(self).wf(),
            final(self).spec_width() == old(self).spec_width(),
            final(self).spec_height() == old(self).spec_height(),
            final(self)@ == drawn(
                old(self)@,
                old(self).spec_width() as int,
                old(self).spec_height() as int,
                origin.0,
                origin.1,
                sprites@,
            ),
            collision == collides(
                old(self)@,
                old(self).spec_width() as int,
                old(self).spec_height() as int,
                origin.0,
                origin.1,
                sprites@,
            ),
    {
        let (x, y) = origin;
        let ghost w = self.width as int;
        let ghost h = self.height as int;
        let ghost before = self.vram@;
        let width = self.width as usize;
        let height = self.height as usize;
        let x0 = x as usize % width;
        let y0 = y as usize % height;
        let n = self.vram.len();
        let mut collision = false;
        let mut i: usize = 0;
        while i < n
            invariant
                i <= n,
                n == before.len(),
                self.wf(),
                self.width as int == w,
                self.height as int == h,
                width as int == w,
                height as int == h,
                x0 as int == x as int % w,
                y0 as int == y as int % h,
                w > 0,
                h > 0,
                self.vram@.len() == n,
                forall|j: int| 0 <= j < i ==> self.vram@[j] == (before[j] != sprite_pixel(sprites@, w, h, x, y, j)),
                forall|j: int| i <= j < n ==> self.vram@[j] == before[j],
                collision == exists|j: int| 0 <= j < i && before[j] && sprite_pixel(sprites@, w, h, x, y, j),
            decreases n - i,
        {
            let cx = i % width;
            let cy = i / width;
            let mut lit = false;
            if x0 <= cx && cx < x0 + 8 && y0 <= cy && cy - y0 < sprites.len() {
                let b = sprites[cy - y0];
                let k = (cx - x0) as u8;
                lit = (b >> (7 - k)) & 1u8 == 1u8;
            }
            assert(lit == sprite_pixel(sprites@, w, h, x, y, i as int));
            let old_px = self.vram[i];
            if old_px && lit {
                collision = true;
            }
            self.vram.set(i, old_px != lit);
            proof {
                let ii = i as int;
                if old_px && lit {
                    assert(0 <= ii < ii + 1 && before[ii] && sprite_pixel(sprites@, w, h, x, y, ii));
                } else if exists|j: int| 0 <= j < ii + 1 && before[j] && sprite_pixel(sprites@, w, h, x, y, j) {
                    let j = choose|j: int| 0 <= j < ii + 1 && before[j] && sprite_pixel(sprites@, w, h, x, y, j);
                    assert(j != ii);
                }
            }
            i += 1;
        }
        assert(self.vram@ =~= drawn(before, w, h, x, y, sprites@));
        collision
    }
}

} // verus!
