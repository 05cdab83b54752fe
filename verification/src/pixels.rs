//! Raw 8-bit image buffers: rows of RGB or RGBA pixels, each row starting
//! `rowstride` bytes after the one above it.
use vstd::prelude::*;

verus! {

/// A decoded image. `pixels` need not be padded after the last row.
#[derive(Debug)]
pub struct Pixbuf {
    pub width: u32,
    pub height: u32,
    pub rowstride: usize,
    pub has_alpha: bool,
    pub pixels: Vec<u8>,
}

impl Pixbuf {
    /// Bytes per pixel: 4 with an alpha channel, else 3.
    pub open spec fn bpp_spec(&self) -> nat {
        if self.has_alpha {
            4
        } else {
            3
        }
    }

    /// Every pixel of the image lies inside the buffer, and rows do not
    /// overlap. The sizes fit the signed 32-bit range of the windowing
    /// toolkit.
    pub open spec fn wf(&self) -> bool {
        &&& self.width <= i32::MAX
        &&& self.height <= i32::MAX
        &&& self.width * self.bpp_spec() <= self.rowstride
        &&& self.height > 0 ==> (self.height - 1) * self.rowstride + self.width
            * self.bpp_spec() <= self.pixels@.len()
    }

    /// Offset of the first byte of pixel `(x, y)`.
    pub open spec fn offset_spec(&self, x: int, y: int) -> int {
        y * self.rowstride + x * self.bpp_spec()
    }

    /// Channel `c` (0 red, 1 green, 2 blue, 3 alpha) of pixel `(x, y)`.
    pub open spec fn channel(&self, x: int, y: int, c: int) -> u8 {
        self.pixels@[self.offset_spec(x, y) + c]
    }

    /// A pixel inside the image has all its bytes inside the buffer.
    pub proof fn lemma_offset_in_bounds(&self, x: int, y: int)
        requires
            self.wf(),
            0 <= x < self.width,
            0 <= y < self.height,
        ensures
            0 <= self.offset_spec(x, y),
            self.offset_spec(x, y) + self.bpp_spec() <= self.pixels@.len(),
            0 <= y * self.rowstride,
            0 <= x * self.bpp_spec(),
    {
        let rs = self.rowstride as int;
        let b = self.bpp_spec() as int;
        let w = self.width as int;
        let h = self.height as int;
        assert(y * rs <= (h - 1) * rs) by (nonlinear_arith)
            requires
                y <= h - 1,
                rs >= 0,
        ;
        assert(x * b + b <= w * b) by (nonlinear_arith)
            requires
                x + 1 <= w,
                b >= 0,
        ;
        assert(0 <= y * rs) by (nonlinear_arith)
            requires
                y >= 0,
                rs >= 0,
        ;
        assert(0 <= x * b) by (nonlinear_arith)
            requires
                x >= 0,
                b >= 0,
        ;
    }

    /// Bytes per pixel.
    pub fn bpp(&self) -> (r: usize)
        ensures
            r == self.bpp_spec(),
    {
        if self.has_alpha {
            4
        } else {
            3
        }
    }

    /// Offset of the first byte of pixel `(x, y)`.
    pub fn offset(&self, x: u32, y: u32) -> (r: usize)
        requires
            self.wf(),
            x < self.width,
            y < self.height,
        ensures
            r == self.offset_spec(x as int, y as int),
            r + self.bpp_spec() <= self.pixels@.len() <= usize::MAX,
    {
        let len: usize = self.pixels.len();
        proof {
            self.lemma_offset_in_bounds(x as int, y as int);
        }
        let row: usize = y as usize * self.rowstride;
        let col: usize = x as usize * self.bpp();
        row + col
    }
}

} // verus!
