//! The pixel-texture model of a shared GPU texture.
//!
//! A shared texture is one GPU memory block addressed by two APIs at once.
//! The model keeps what the bridge logic reads of it: a handle identity, the
//! dimensions, and the packed 32-bit pixels in row-major order. The handle
//! identity never changes after allocation, so a caller can tell a kept
//! texture from a reallocated one.

use vstd::prelude::*;

verus! {

/// Largest width or height the model accepts for one texture.
pub const MAX_TEXTURE_DIM: u32 = 0xFFFF;

/// One texture: a handle identity, dimensions, and row-major packed pixels.
pub struct PixelTexture {
    /// Handle identity; stable from allocation to destruction.
    pub id: u64,
    /// Width in pixels.
    pub width: u32,
    /// Height in pixels.
    pub height: u32,
    /// Row-major packed 32-bit pixels, `width * height` of them.
    pub pixels: Vec<u32>,
}

impl PixelTexture {
    /// The texture's dimensions are in range and the pixel buffer covers
    /// exactly `width * height` pixels.
    pub open spec fn wf(self) -> bool {
        &&& 1 <= self.width <= MAX_TEXTURE_DIM
        &&& 1 <= self.height <= MAX_TEXTURE_DIM
        &&& self.pixels.len() == self.width * self.height
    }

    /// Allocate a texture of the given dimensions with every pixel set to
    /// `fill`.
    pub fn new_filled(id: u64, width: u32, height: u32, fill: u32) -> (r: PixelTexture)
        requires
            1 <= width <= MAX_TEXTURE_DIM,
            1 <= height <= MAX_TEXTURE_DIM,
        ensures
            r.wf(),
            r.id == id,
            r.width == width,
            r.height == height,
            r.pixels@ == Seq::new((width * height) as nat, |i: int| fill),
    {
        proof {
            assert(width * height <= MAX_TEXTURE_DIM * MAX_TEXTURE_DIM) by (nonlinear_arith)
                requires
                    1 <= width <= MAX_TEXTURE_DIM,
                    1 <= height <= MAX_TEXTURE_DIM,
            ;
        }
        let total: usize = (width as usize) * (height as usize);
        let mut pixels: Vec<u32> = Vec::new();
        let mut i: usize = 0;
        while i < total
            invariant
                i <= total,
                total == width * height,
                pixels@ == Seq::new(i as nat, |j: int| fill),
            decreases total - i,
        {
            pixels.push(fill);
            i = i + 1;
            proof {
                assert(pixels@ =~= Seq::new(i as nat, |j: int| fill));
            }
        }
        proof {
            assert(pixels@ =~= Seq::new((width * height) as nat, |j: int| fill));
        }
        PixelTexture { id, width, height, pixels }
    }

    /// A fresh pixel buffer with the same contents as `src`.
    pub fn copy_pixels(src: &Vec<u32>) -> (r: Vec<u32>)
        ensures
            r@ == src@,
    {
        let mut out: Vec<u32> = Vec::new();
        let mut i: usize = 0;
        while i < src.len()
            invariant
                i <= src.len(),
                out@ == src@.subrange(0, i as int),
            decreases src.len() - i,
        {
            out.push(src[i]);
            i = i + 1;
            proof {
                assert(out@ =~= src@.subrange(0, i as int));
            }
        }
        proof {
            assert(out@ =~= src@);
        }
        out
    }

    /// The texture's dimensions as a pair.
    pub fn dimensions(&self) -> (r: (u32, u32))
        ensures
            r == (self.width, self.height),
    {
        (self.width, self.height)
    }
}

/// The input and output textures of one buffering slot.
pub struct TexturePair {
    /// Receives the host's frame.
    pub input: PixelTexture,
    /// Receives the backend's result.
    pub output: PixelTexture,
}

impl TexturePair {
    /// Both textures are well formed and share the slot's dimensions.
    pub open spec fn wf(self) -> bool {
        &&& self.input.wf()
        &&& self.output.wf()
        &&& self.input.width == self.output.width
        &&& self.input.height == self.output.height
    }

    /// The slot's dimensions.
    pub open spec fn dims(self) -> (u32, u32) {
        (self.input.width, self.input.height)
    }
}

} // verus!
