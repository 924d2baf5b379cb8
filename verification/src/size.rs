//! Physical pixel sizes of surfaces and render targets.

use vstd::prelude::*;

verus! {

/// Physical pixel dimensions of a surface or of a two-dimensional texture.
#[derive(Clone, Copy, Debug, PartialEq, Eq, Structural)]
pub struct PixelSize {
    pub width: u32,
    pub height: u32,
}

impl PixelSize {
    /// Number of texels of a target of this size.
    pub open spec fn area(self) -> nat {
        self.width as nat * self.height as nat
    }

    /// Bytes that a target of this size takes at `texel_bytes` bytes per texel.
    pub open spec fn byte_len(self, texel_bytes: nat) -> nat {
        self.area() * texel_bytes
    }

    /// A target of this size can be held in memory at `texel_bytes` bytes per
    /// texel: its texel count fits `u32` and its byte length fits `isize`.
    pub open spec fn allocatable(self, texel_bytes: nat) -> bool {
        &&& self.area() <= u32::MAX
        &&& self.byte_len(texel_bytes) <= isize::MAX
    }

    pub fn new(width: u32, height: u32) -> (size: PixelSize)
        ensures
            size == (PixelSize { width, height }),
    {
        PixelSize { width, height }
    }

    /// Decides `allocatable`.
    pub fn is_allocatable(&self, texel_bytes: u8) -> (ok: bool)
        ensures
            ok == self.allocatable(texel_bytes as nat),
    {
        let w: u64 = self.width as u64;
        let h: u64 = self.height as u64;
        assert(w * h <= 0xFFFF_FFFF * 0xFFFF_FFFF) by (nonlinear_arith)
            requires
                w <= 0xFFFF_FFFF,
                h <= 0xFFFF_FFFF,
        ;
        let area: u64 = w * h;
        if area > u32::MAX as u64 {
            return false;
        }
        let t: u64 = texel_bytes as u64;
        assert(area * t <= 0xFFFF_FFFF * 0xFF) by (nonlinear_arith)
            requires
                area <= 0xFFFF_FFFF,
                t <= 0xFF,
        ;
        let bytes: u64 = area * t;
        bytes <= isize::MAX as u64
    }
}

} // verus!
