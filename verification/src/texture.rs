//! Byte-level raster sampling behind image-backed textures.
//!
//! An `ImageTexture` stores a decoded raster as a flat byte buffer of
//! three-byte pixels in row-major order. Sampling clamps the requested
//! pixel coordinates to the raster bounds and reads the pixel's byte
//! triple; an empty raster yields no triple, so the caller can substitute
//! a fixed fallback color instead of failing mid-render.

use vstd::prelude::*;

verus! {

/// A decoded raster image held as rows of three-byte pixels.
pub struct ImageTexture {
    pub width: u32,
    pub height: u32,
    pub bytes_per_scanline: u32,
    pub bytes_per_pixel: u32,
    pub image: Vec<u8>,
}

impl ImageTexture {
    /// The buffer holds exactly `height` scanlines of `3 * width` bytes,
    /// and the whole buffer size fits the index arithmetic's type.
    pub open spec fn wf(&self) -> bool {
        &&& self.bytes_per_pixel == 3
        &&& self.bytes_per_scanline == 3 * self.width
        &&& self.image@.len() == self.height * self.bytes_per_scanline
        &&& self.height * self.bytes_per_scanline <= u32::MAX
    }

    /// The requested coordinate, clamped to the last valid pixel of an axis.
    pub open spec fn clamped(c: u32, bound: u32) -> int
        recommends
            bound > 0,
    {
        if c >= bound {
            bound - 1
        } else {
            c as int
        }
    }

    /// Byte offset of the first channel of the clamped pixel `(i, j)`.
    pub open spec fn pixel_start(&self, i: u32, j: u32) -> int {
        Self::clamped(j, self.height) * self.bytes_per_scanline + Self::clamped(i, self.width) * 3
    }

    pub fn new(width: u32, height: u32, image: Vec<u8>) -> (r: Self)
        requires
            3 * width <= u32::MAX,
            3 * width * height <= u32::MAX,
            image@.len() == 3 * width * height,
        ensures
            r.wf(),
            r.width == width,
            r.height == height,
            r.image@ == image@,
    {
        let bytes_per_pixel: u32 = 3;
        let bytes_per_scanline: u32 = bytes_per_pixel * width;
        proof {
            assert(3 * width * height == height * (3 * width)) by (nonlinear_arith);
        }
        ImageTexture { width, height, bytes_per_scanline, bytes_per_pixel, image }
    }

    /// Byte triple of the pixel nearest to `(i, j)`, or nothing when the
    /// raster is empty.
    pub fn lookup(&self, i: u32, j: u32) -> (r: Option<(u8, u8, u8)>)
        requires
            self.wf(),
        ensures
            self.image@.len() == 0 ==> r is None,
            self.image@.len() > 0 ==> r == Some(
                (
                    self.image@[self.pixel_start(i, j)],
                    self.image@[self.pixel_start(i, j) + 1],
                    self.image@[self.pixel_start(i, j) + 2],
                ),
            ),
    {
        if self.image.is_empty() {
            return None;
        }
        proof {
            assert(self.width > 0 && self.height > 0) by (nonlinear_arith)
                requires
                    self.image@.len() == self.height * self.bytes_per_scanline,
                    self.bytes_per_scanline == 3 * self.width,
                    self.image@.len() > 0,
            ;
        }
        let mut ci = i;
        let mut cj = j;
        if ci >= self.width {
            ci = self.width - 1;
        }
        if cj >= self.height {
            cj = self.height - 1;
        }
        proof {
            assert(cj * self.bytes_per_scanline + ci * 3 + 2 < self.height
                * self.bytes_per_scanline) by (nonlinear_arith)
                requires
                    cj < self.height,
                    ci < self.width,
                    self.bytes_per_scanline == 3 * self.width,
            ;
        }
        let pixel_index = (cj * self.bytes_per_scanline + ci * self.bytes_per_pixel) as usize;
        Some((self.image[pixel_index], self.image[pixel_index + 1], self.image[pixel_index + 2]))
    }
}

} // verus!
