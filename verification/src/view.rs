//! Per-view records of the prepass.

use vstd::prelude::*;
use crate::size::PixelSize;
use crate::texture::{TextureHandle, TextureModel};

verus! {

/// Identity of a view: a camera with its render targets.
#[derive(Clone, Copy, Debug, PartialEq, Eq, Structural)]
pub struct ViewId(pub u64);

/// What a view records about its prepass target: which texture it is, and the
/// size that the view last saw it at.
#[derive(Clone, Copy, Debug, PartialEq, Eq, Structural)]
pub struct ViewPrepassTextures {
    pub normals_depth: TextureHandle,
    pub size: PixelSize,
}

impl ViewPrepassTextures {
    /// The record names the texture at its current size.
    pub open spec fn matches(self, texture: TextureModel) -> bool {
        &&& self.normals_depth == texture.handle
        &&& self.size == texture.size
    }

    pub fn new(normals_depth: TextureHandle, size: PixelSize) -> (record: ViewPrepassTextures)
        ensures
            record == (ViewPrepassTextures { normals_depth, size }),
    {
        ViewPrepassTextures { normals_depth, size }
    }
}

/// A sub-rectangle of the render target, in physical pixels.
#[derive(Clone, Copy, Debug, PartialEq, Eq, Structural)]
pub struct Viewport {
    pub x: u32,
    pub y: u32,
    pub width: u32,
    pub height: u32,
}

/// The camera of a view, as far as the prepass reads it.
#[derive(Clone, Copy, Debug, PartialEq, Eq)]
pub struct ExtractedCamera {
    /// The part of the target that the camera renders to; the whole target
    /// where it declares none.
    pub viewport: Option<Viewport>,
}

/// The depth buffer that a view shares among its passes.
#[derive(Clone, Copy, Debug, PartialEq, Eq, Structural)]
pub struct ViewDepthTexture {
    pub texture: TextureHandle,
    pub size: PixelSize,
}

} // verus!
