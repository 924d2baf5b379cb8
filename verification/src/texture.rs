//! The prepass target texture and its lifecycle.

use vstd::prelude::*;
use bevy::render::texture::Image;
use crate::image::{
    default_bytes, image_bytes, image_with_descriptor, resize_image, resized_bytes, PixelFormat,
    TargetDescriptor, USAGE_ALL, USAGE_COPY_DST, USAGE_RENDER_ATTACHMENT, USAGE_TEXTURE_BINDING,
};
use crate::size::PixelSize;

verus! {

/// Identity of a texture. Handles are plain copyable values; the texture
/// behind one changes only through the texture itself.
#[derive(Clone, Copy, Debug, PartialEq, Eq, Structural)]
pub struct TextureHandle(pub u64);

/// Why a texture could not be created or resized.
#[derive(Clone, Copy, Debug, PartialEq, Eq, Structural)]
pub enum TextureError {
    /// The requested size cannot be held in memory.
    TooLarge,
}

/// Whether the texels of the target mean anything.
#[derive(Clone, Copy, Debug, PartialEq, Eq, Structural)]
pub enum ContentState {
    /// Nothing has been written since the storage was allocated or since the
    /// frame began.
    Undefined,
    /// The prepass of the current frame has written the target.
    Written,
}

/// Bytes per texel of the prepass target: four 16-bit channels.
pub const PREPASS_TEXEL_BYTES: u8 = 8;

/// Usage of the prepass target: sampled by materials, written as a render
/// attachment, and a valid copy destination.
pub const PREPASS_USAGE: u32 = USAGE_TEXTURE_BINDING | USAGE_RENDER_ATTACHMENT | USAGE_COPY_DST;

/// The descriptor of a prepass target of the given size and sample count.
pub open spec fn prepass_descriptor(size: PixelSize, sample_count: u32) -> TargetDescriptor {
    TargetDescriptor {
        size,
        format: PixelFormat::Rgba16Float,
        mip_level_count: 1,
        sample_count,
        usage: PREPASS_USAGE,
    }
}

/// The backend keeps every usage bit of the prepass target.
pub proof fn lemma_prepass_usage_is_kept()
    ensures
        PREPASS_USAGE == 22,
        PREPASS_USAGE & USAGE_ALL == PREPASS_USAGE,
{
    assert(4u32 | 16u32 | 2u32 == 22u32) by (bit_vector);
    assert(22u32 & 31u32 == 22u32) by (bit_vector);
}

/// What a prepass texture is, apart from its texels.
pub struct TextureModel {
    pub handle: TextureHandle,
    pub size: PixelSize,
    pub sample_count: u32,
    pub content: ContentState,
    /// How many times storage has been allocated for the texture.
    pub allocations: nat,
}

impl TextureModel {
    /// A texture fresh from `PrepassTexture::create`.
    pub open spec fn created(
        handle: TextureHandle,
        size: PixelSize,
        sample_count: u32,
    ) -> TextureModel {
        TextureModel { handle, size, sample_count, content: ContentState::Undefined, allocations: 1 }
    }

    /// The texture after `PrepassTexture::resize`: unchanged for its own size,
    /// else reallocated once at the new size with undefined contents.
    pub open spec fn resized(self, new_size: PixelSize) -> TextureModel {
        if new_size == self.size {
            self
        } else {
            TextureModel {
                size: new_size,
                content: ContentState::Undefined,
                allocations: self.allocations + 1,
                ..self
            }
        }
    }

    /// The texture with its contents in the given state.
    pub open spec fn with_content(self, content: ContentState) -> TextureModel {
        TextureModel { content, ..self }
    }

    /// Bytes of storage behind the texture.
    pub open spec fn byte_len(self) -> nat {
        self.size.byte_len(PREPASS_TEXEL_BYTES as nat)
    }
}

/// Resizing is idempotent: a second resize to the same size changes nothing,
/// and neither does a resize to the size that the texture has.
pub proof fn lemma_resize_is_idempotent(texture: TextureModel, size: PixelSize)
    ensures
        texture.resized(size).resized(size) == texture.resized(size),
        texture.resized(size).size == size,
        size == texture.size ==> texture.resized(size) == texture,
{
}

/// The texture that the prepass writes and that materials sample, together
/// with the image that backs it.
pub struct PrepassTexture {
    handle: TextureHandle,
    size: PixelSize,
    sample_count: u32,
    content: ContentState,
    allocations: Ghost<nat>,
    image: Image,
}

impl View for PrepassTexture {
    type V = TextureModel;

    closed spec fn view(&self) -> TextureModel {
        TextureModel {
            handle: self.handle,
            size: self.size,
            sample_count: self.sample_count,
            content: self.content,
            allocations: self.allocations@,
        }
    }
}

impl PrepassTexture {
    /// The backing image, as a specification value.
    pub closed spec fn image_spec(&self) -> Image {
        self.image
    }

    /// The backing image is laid out as the descriptor of the texture says,
    /// and has storage for every texel.
    pub open spec fn wf(&self) -> bool {
        &&& self@.size.allocatable(PREPASS_TEXEL_BYTES as nat)
        &&& self@.allocations >= 1
        &&& prepass_descriptor(self@.size, self@.sample_count).describes(self.image_spec())
        &&& image_bytes(self.image_spec()).len() == self@.byte_len()
    }

    /// Allocates the prepass target for a surface of the given size. The
    /// pixel buffer of the backing image is that of the default image, cut
    /// or zero-extended to the size of the target.
    ///
    /// Fails exactly when a target of that size cannot be held in memory.
    pub fn create(handle: TextureHandle, surface_size: PixelSize, sample_count: u32) -> (r: Result<
        PrepassTexture,
        TextureError,
    >)
        ensures
            match r {
                Ok(texture) => {
                    &&& surface_size.allocatable(PREPASS_TEXEL_BYTES as nat)
                    &&& texture.wf()
                    &&& texture@ == TextureModel::created(handle, surface_size, sample_count)
                    &&& image_bytes(texture.image_spec()) == resized_bytes(
                        default_bytes(),
                        texture@.byte_len(),
                    )
                },
                Err(e) => {
                    &&& e == TextureError::TooLarge
                    &&& !surface_size.allocatable(PREPASS_TEXEL_BYTES as nat)
                },
            },
    {
        if !surface_size.is_allocatable(PREPASS_TEXEL_BYTES) {
            return Err(TextureError::TooLarge);
        }
        let descriptor = TargetDescriptor {
            size: surface_size,
            format: PixelFormat::Rgba16Float,
            mip_level_count: 1,
            sample_count,
            usage: PREPASS_USAGE,
        };
        let mut image = image_with_descriptor(&descriptor);
        resize_image(&mut image, surface_size);
        Ok(
            PrepassTexture {
                handle,
                size: surface_size,
                sample_count,
                content: ContentState::Undefined,
                allocations: Ghost(1),
                image,
            },
        )
    }

    /// Reallocates the storage for a new size. The old contents mean nothing
    /// any more: the pixel buffer of the backing image is cut or
    /// zero-extended to the new size.
    ///
    /// Resizing to the current size changes nothing. Fails, and changes
    /// nothing, exactly when a target of the new size cannot be held in memory.
    pub fn resize(&mut self, new_size: PixelSize) -> (r: Result<(), TextureError>)
        requires
            old(self).wf(),
        ensures
            final(self).wf(),
            match r {
                Ok(()) => {
                    &&& new_size.allocatable(PREPASS_TEXEL_BYTES as nat)
                    &&& final(self)@ == old(self)@.resized(new_size)
                    &&& new_size == old(self)@.size ==> *final(self) == *old(self)
                    &&& new_size != old(self)@.size ==> image_bytes(final(self).image_spec())
                        == resized_bytes(
                        image_bytes(old(self).image_spec()),
                        final(self)@.byte_len(),
                    )
                },
                Err(e) => {
                    &&& e == TextureError::TooLarge
                    &&& !new_size.allocatable(PREPASS_TEXEL_BYTES as nat)
                    &&& *final(self) == *old(self)
                },
            },
    {
        if new_size.width == self.size.width && new_size.height == self.size.height {
            return Ok(());
        }
        if !new_size.is_allocatable(PREPASS_TEXEL_BYTES) {
            return Err(TextureError::TooLarge);
        }
        resize_image(&mut self.image, new_size);
        self.size = new_size;
        self.content = ContentState::Undefined;
        self.allocations = Ghost((self.allocations@ + 1) as nat);
        Ok(())
    }

    pub fn handle(&self) -> (handle: TextureHandle)
        ensures
            handle == self@.handle,
    {
        self.handle
    }

    pub fn size(&self) -> (size: PixelSize)
        ensures
            size == self@.size,
    {
        self.size
    }

    pub fn sample_count(&self) -> (n: u32)
        ensures
            n == self@.sample_count,
    {
        self.sample_count
    }

    pub fn content(&self) -> (content: ContentState)
        ensures
            content == self@.content,
    {
        self.content
    }

    /// What the texture was made with, at its current size.
    pub fn descriptor(&self) -> (descriptor: TargetDescriptor)
        ensures
            descriptor == prepass_descriptor(self@.size, self@.sample_count),
    {
        TargetDescriptor {
            size: self.size,
            format: PixelFormat::Rgba16Float,
            mip_level_count: 1,
            sample_count: self.sample_count,
            usage: PREPASS_USAGE,
        }
    }

    /// The image that backs the texture.
    pub fn image(&self) -> (image: &Image)
        ensures
            *image == self.image_spec(),
    {
        &self.image
    }

    /// Marks the contents undefined, as they are when a frame begins.
    pub fn begin_frame(&mut self)
        ensures
            final(self)@ == old(self)@.with_content(ContentState::Undefined),
            final(self).image_spec() == old(self).image_spec(),
    {
        self.content = ContentState::Undefined;
    }

    /// Records that the prepass of this frame has written the target.
    pub fn mark_written(&mut self)
        ensures
            final(self)@ == old(self)@.with_content(ContentState::Written),
            final(self).image_spec() == old(self).image_spec(),
    {
        self.content = ContentState::Written;
    }

    /// Whether materials may sample the target now.
    pub fn is_sampleable(&self) -> (ok: bool)
        ensures
            ok == (self@.content == ContentState::Written),
    {
        match self.content {
            ContentState::Written => true,
            ContentState::Undefined => false,
        }
    }
}

} // verus!
