//! An owned RGBA pixel buffer for host-side visualisation.
//!
//! The buffer holds `width * height` pixels of four bytes each, in row-major
//! order.  `put` plots one opaque pixel and silently discards out-of-bounds
//! coordinates — for the wave renderer that is normal operation, not an
//! error.

use vstd::prelude::*;

verus! {

/// Byte offset of the pixel at column `x`, row `y` in a row-major RGBA
/// buffer of the given width.
pub open spec fn pixel_index(x: int, y: int, width: int) -> int {
    4 * (y * width + x)
}

/// A `width` by `height` RGBA image, four bytes per pixel.
pub struct ImageBuffer {
    /// The raw RGBA bytes, row-major, four per pixel.
    pub bytes: Vec<u8>,
    /// Width in pixels.
    pub width: usize,
    /// Height in pixels.
    pub height: usize,
}

impl View for ImageBuffer {
    type V = Seq<u8>;

    open spec fn view(&self) -> Seq<u8> {
        self.bytes@
    }
}

impl ImageBuffer {
    /// Well-formed: the byte store covers exactly `width * height` pixels.
    pub open spec fn wf(&self) -> bool {
        self@.len() == self.width * self.height * 4
    }

    /// Whether column `x`, row `y` lies inside the image.
    pub open spec fn contains(&self, x: int, y: int) -> bool {
        0 <= x < self.width && 0 <= y < self.height
    }

    /// A fresh image with every byte zero.
    pub fn new(width: usize, height: usize) -> (r: Self)
        requires
            width * height * 4 <= usize::MAX,
        ensures
            r.wf(),
            r.width == width,
            r.height == height,
            forall|j: int| 0 <= j < r@.len() ==> r@[j] == 0u8,
    {
        proof {
            assert(width * height <= width * height * 4) by (nonlinear_arith);
        }
        let n = width * height * 4;
        let mut bytes: Vec<u8> = Vec::new();
        let mut k: usize = 0;
        while k < n
            invariant
                k <= n,
                bytes@.len() == k,
                forall|j: int| 0 <= j < k ==> bytes@[j] == 0u8,
            decreases n - k,
        {
            bytes.push(0u8);
            k = k + 1;
        }
        ImageBuffer { bytes, width, height }
    }

    /// Plot the opaque colour `(r, g, b)` at column `x`, row `y`.  Inside the
    /// image the pixel's four bytes become `r`, `g`, `b`, `255` and every
    /// other byte keeps its value; outside, the image is left unchanged.
    pub fn put(&mut self, x: i32, y: i32, r: u8, g: u8, b: u8)
        requires
            old(self).wf(),
        ensures
            final(self).wf(),
            final(self).width == old(self).width,
            final(self).height == old(self).height,
            !old(self).contains(x as int, y as int) ==> *final(self) == *old(self),
            old(self).contains(x as int, y as int) ==> final(self)@ == old(self)@
                .update(pixel_index(x as int, y as int, old(self).width as int), r)
                .update(pixel_index(x as int, y as int, old(self).width as int) + 1, g)
                .update(pixel_index(x as int, y as int, old(self).width as int) + 2, b)
                .update(pixel_index(x as int, y as int, old(self).width as int) + 3, 255u8),
    {
        if x < 0 || y < 0 {
            return;
        }
        let ux = x as usize;
        let uy = y as usize;
        if ux >= self.width || uy >= self.height {
            return;
        }
        let len = self.bytes.len();
        proof {
            assert(uy * self.width + ux < self.width * self.height) by (nonlinear_arith)
                requires
                    ux < self.width,
                    uy < self.height,
            ;
            assert(4 * (uy * self.width + ux) + 3 < self.width * self.height * 4)
                by (nonlinear_arith)
                requires
                    uy * self.width + ux < self.width * self.height,
            ;
        }
        let base = 4 * (uy * self.width + ux);
        self.bytes[base] = r;
        self.bytes[base + 1] = g;
        self.bytes[base + 2] = b;
        self.bytes[base + 3] = 255;
        proof {
            assert(pixel_index(x as int, y as int, self.width as int)
                == 4 * (uy * self.width + ux)) by (nonlinear_arith)
                requires
                    ux == x as int,
                    uy == y as int,
            ;
        }
    }

    /// Reset every byte of the image to zero.
    pub fn clear(&mut self)
        requires
            old(self).wf(),
        ensures
            final(self).wf(),
            final(self).width == old(self).width,
            final(self).height == old(self).height,
            final(self)@.len() == old(self)@.len(),
            forall|j: int| 0 <= j < final(self)@.len() ==> final(self)@[j] == 0u8,
    {
        let n = self.bytes.len();
        let mut k: usize = 0;
        while k < n
            invariant
                k <= n,
                self.bytes@.len() == n,
                self.width == old(self).width,
                self.height == old(self).height,
                forall|j: int| 0 <= j < k ==> self.bytes@[j] == 0u8,
            decreases n - k,
        {
            self.bytes[k] = 0;
            k = k + 1;
        }
    }
}

/// Screen column of field index `i` in a domain of `size` cells rendered
/// `width` pixels wide: `i * width / size`, computed without overflow.
pub fn column_of(i: usize, size: usize, width: usize) -> (x: usize)
    requires
        i < size,
    ensures
        x == i as int * width as int / size as int,
        x <= width,
{
    proof {
        assert(i as int * width as int <= u64::MAX as int * u64::MAX as int) by (nonlinear_arith)
            requires
                i <= u64::MAX && width <= u64::MAX,
        ;
    }
    let wide: u128 = (i as u128) * (width as u128);
    let q: u128 = wide / (size as u128);
    proof {
        assert(i * width <= size * width) by (nonlinear_arith)
            requires
                i < size,
        ;
        vstd::arithmetic::div_mod::lemma_div_is_ordered(
            i as int * width as int,
            size as int * width as int,
            size as int,
        );
        vstd::arithmetic::div_mod::lemma_div_multiples_vanish(width as int, size as int);
    }
    q as usize
}

} // verus!
