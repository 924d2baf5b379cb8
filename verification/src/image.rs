//! The CPU-side image that backs the prepass target, as `bevy` keeps it.
//!
//! `bevy`'s `Image` is opaque to the verifier. What the library needs of it is
//! named by two specification functions, one for its pixel buffer and one for
//! its texture descriptor, and the two operations that the library performs
//! on it are wrapped with contracts over those names. The contracts in this
//! file are taken from the source of `bevy_render` and are not proved.

use vstd::prelude::*;
use bevy::render::render_resource::{
    Extent3d, TextureDescriptor, TextureDimension, TextureFormat, TextureUsages,
};
use bevy::render::texture::Image;
use crate::size::PixelSize;

verus! {

#[verifier::external_type_specification]
#[verifier::external_body]
pub struct ExImage(bevy::render::texture::Image);

/// The pixel buffer of an image, byte by byte.
pub uninterp spec fn image_bytes(image: Image) -> Seq<u8>;

/// The texture descriptor of an image, as far as the library reads it: width,
/// height, layer count, sample count, usage bits, and the bytes per texel of
/// its format as `bevy` reports them (zero for a format whose texel size
/// `bevy` does not know).
pub uninterp spec fn image_descriptor(image: Image) -> (u32, u32, u32, u32, u32, nat);

/// Width, height and layer count of an image.
pub open spec fn image_extent(image: Image) -> (u32, u32, u32) {
    (image_descriptor(image).0, image_descriptor(image).1, image_descriptor(image).2)
}

/// Bytes per texel of an image.
pub open spec fn image_texel_bytes(image: Image) -> nat {
    image_descriptor(image).5
}

/// Texel formats of the targets that this library describes.
#[derive(Clone, Copy, Debug, PartialEq, Eq, Structural)]
pub enum PixelFormat {
    /// Four channels of 16-bit floating point.
    Rgba16Float,
}

impl PixelFormat {
    pub open spec fn texel_bytes(self) -> nat {
        match self {
            PixelFormat::Rgba16Float => 8,
        }
    }

    pub fn texel_size(&self) -> (n: u8)
        ensures
            n == self.texel_bytes(),
    {
        match self {
            PixelFormat::Rgba16Float => 8,
        }
    }
}

/// The texture may be the destination of a copy.
pub const USAGE_COPY_DST: u32 = 2;

/// The texture may be bound for sampling.
pub const USAGE_TEXTURE_BINDING: u32 = 4;

/// The texture may be an output attachment of a render pass.
pub const USAGE_RENDER_ATTACHMENT: u32 = 16;

/// Every usage bit that the backend defines. It drops all others.
pub const USAGE_ALL: u32 = 31;

/// What a two-dimensional render target is made with.
#[derive(Clone, Copy, Debug, PartialEq, Eq, Structural)]
pub struct TargetDescriptor {
    pub size: PixelSize,
    pub format: PixelFormat,
    pub mip_level_count: u32,
    pub sample_count: u32,
    pub usage: u32,
}

impl TargetDescriptor {
    /// The image is laid out as the descriptor says: a single layer of its
    /// size, with its sample count, its format, and those of its usage bits
    /// that the backend defines.
    pub open spec fn describes(self, image: Image) -> bool {
        image_descriptor(image) == (
            self.size.width,
            self.size.height,
            1u32,
            self.sample_count,
            self.usage & USAGE_ALL,
            self.format.texel_bytes(),
        )
    }
}

/// The pixel buffer of `Image::default()`: one opaque white texel of four bytes.
pub open spec fn default_bytes() -> Seq<u8> {
    Seq::new(4, |i: int| 255u8)
}

/// What `Vec::resize(len, 0)` makes of a buffer: cut to `len`, or extended to
/// `len` with zeros.
pub open spec fn resized_bytes(bytes: Seq<u8>, len: nat) -> Seq<u8> {
    if len <= bytes.len() {
        bytes.take(len as int)
    } else {
        bytes + Seq::new((len - bytes.len()) as nat, |i: int| 0u8)
    }
}

/// An `Image` literal with the given descriptor and, for the rest, the fields
/// of `Image::default()`.
///
/// Trusted: the texture descriptor of the image carries the size with one
/// layer, the sample count, the format, and the usage bits that
/// `TextureUsages::from_bits_truncate` keeps; `bevy` reports a texel size of
/// eight bytes for `Rgba16Float`; the pixel buffer is that of the default
/// image, which does not yet match the size.
#[verifier::external_body]
pub(crate) fn image_with_descriptor(descriptor: &TargetDescriptor) -> (image: Image)
    ensures
        descriptor.describes(image),
        image_bytes(image) == default_bytes(),
{
    let PixelSize { width, height } = descriptor.size;
    let size = Extent3d { width, height, ..Default::default() };
    let format = match descriptor.format {
        PixelFormat::Rgba16Float => TextureFormat::Rgba16Float,
    };
    let usage = TextureUsages::from_bits_truncate(descriptor.usage);
    let (mip_level_count, sample_count) = (descriptor.mip_level_count, descriptor.sample_count);
    let dimension = TextureDimension::D2;
    let texture_descriptor =
        TextureDescriptor { label: None, size, dimension, format, mip_level_count, sample_count, usage };
    Image { texture_descriptor, ..Default::default() }
}

/// `Image::resize` to a two-dimensional size of one layer.
///
/// Trusted: the descriptor takes the new size and keeps the rest; the pixel
/// buffer is cut or zero-extended to texel count times texel size. `bevy`
/// multiplies the extent in `u32` and panics for a format whose texel size it
/// does not know, and `Vec` cannot hold more than `isize::MAX` bytes: the
/// preconditions leave those inputs out.
#[verifier::external_body]
pub(crate) fn resize_image(image: &mut Image, size: PixelSize)
    requires
        image_texel_bytes(*old(image)) > 0,
        size.allocatable(image_texel_bytes(*old(image))),
    ensures
        image_descriptor(*final(image)) == (
            size.width,
            size.height,
            1u32,
            image_descriptor(*old(image)).3,
            image_descriptor(*old(image)).4,
            image_descriptor(*old(image)).5,
        ),
        image_bytes(*final(image)) == resized_bytes(
            image_bytes(*old(image)),
            size.byte_len(image_texel_bytes(*old(image))),
        ),
{
    image.resize(Extent3d { width: size.width, height: size.height, ..Default::default() });
}

} // verus!
