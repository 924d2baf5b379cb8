use bevy::render::render_resource::{TextureDimension, TextureFormat, TextureUsages};
use prepass::image::{
    PixelFormat, TargetDescriptor, USAGE_COPY_DST, USAGE_RENDER_ATTACHMENT, USAGE_TEXTURE_BINDING,
};
use prepass::size::PixelSize;
use prepass::texture::{
    ContentState, PrepassTexture, TextureError, TextureHandle, PREPASS_TEXEL_BYTES, PREPASS_USAGE,
};

#[test]
fn pixel_size_keeps_its_dimensions() {
    let size = PixelSize::new(800, 600);
    assert_eq!(size.width, 800);
    assert_eq!(size.height, 600);
    assert_eq!(size, PixelSize { width: 800, height: 600 });
}

#[test]
fn sizes_are_allocatable_up_to_the_texel_count_of_u32() {
    assert!(PixelSize::new(0, 0).is_allocatable(8));
    assert!(PixelSize::new(1920, 1080).is_allocatable(8));
    assert!(PixelSize::new(65535, 65535).is_allocatable(8));
    assert!(PixelSize::new(65536, 65535).is_allocatable(8));
    assert!(!PixelSize::new(65536, 65536).is_allocatable(8));
    assert!(!PixelSize::new(u32::MAX, 2).is_allocatable(1));
    assert!(PixelSize::new(u32::MAX, 1).is_allocatable(255));
}

#[test]
fn create_allocates_eight_bytes_per_texel() {
    let texture = PrepassTexture::create(TextureHandle(7), PixelSize::new(800, 600), 1).unwrap();
    assert_eq!(texture.handle(), TextureHandle(7));
    assert_eq!(texture.size(), PixelSize { width: 800, height: 600 });
    assert_eq!(texture.sample_count(), 1);
    assert_eq!(texture.content(), ContentState::Undefined);
    assert_eq!(PREPASS_TEXEL_BYTES, 8);
    assert_eq!(texture.image().data.len(), 800 * 600 * 8);
    assert_eq!(texture.image().texture_descriptor.size.width, 800);
    assert_eq!(texture.image().texture_descriptor.size.height, 600);
    assert_eq!(texture.image().texture_descriptor.size.depth_or_array_layers, 1);
}

#[test]
fn create_hands_the_descriptor_to_the_image() {
    let texture = PrepassTexture::create(TextureHandle(1), PixelSize::new(4, 2), 4).unwrap();
    let descriptor = texture.descriptor();
    assert_eq!(
        descriptor,
        TargetDescriptor {
            size: PixelSize { width: 4, height: 2 },
            format: PixelFormat::Rgba16Float,
            mip_level_count: 1,
            sample_count: 4,
            usage: 22,
        }
    );
    assert_eq!(PREPASS_USAGE, USAGE_COPY_DST | USAGE_TEXTURE_BINDING | USAGE_RENDER_ATTACHMENT);
    assert_eq!(PixelFormat::Rgba16Float.texel_size(), 8);
    let made = &texture.image().texture_descriptor;
    assert_eq!(made.format, TextureFormat::Rgba16Float);
    assert_eq!(made.dimension, TextureDimension::D2);
    assert_eq!(made.mip_level_count, 1);
    assert_eq!(made.sample_count, 4);
    assert_eq!(
        made.usage,
        TextureUsages::TEXTURE_BINDING | TextureUsages::RENDER_ATTACHMENT | TextureUsages::COPY_DST
    );
    assert_eq!(made.usage.bits(), PREPASS_USAGE);
}

#[test]
fn usage_bits_are_those_of_the_backend() {
    assert_eq!(USAGE_COPY_DST, TextureUsages::COPY_DST.bits());
    assert_eq!(USAGE_TEXTURE_BINDING, TextureUsages::TEXTURE_BINDING.bits());
    assert_eq!(USAGE_RENDER_ATTACHMENT, TextureUsages::RENDER_ATTACHMENT.bits());
}

#[test]
fn a_fresh_image_starts_with_the_default_texel_and_zeros() {
    let texture = PrepassTexture::create(TextureHandle(0), PixelSize::new(2, 1), 1).unwrap();
    let expected: Vec<u8> = vec![255, 255, 255, 255, 0, 0, 0, 0, 0, 0, 0, 0, 0, 0, 0, 0];
    assert_eq!(texture.image().data, expected);
}

#[test]
fn create_of_an_empty_surface_allocates_nothing() {
    let texture = PrepassTexture::create(TextureHandle(0), PixelSize::new(0, 600), 1).unwrap();
    assert_eq!(texture.size(), PixelSize { width: 0, height: 600 });
    assert_eq!(texture.image().data.len(), 0);
}

#[test]
fn create_rejects_a_size_whose_texel_count_overflows() {
    let r = PrepassTexture::create(TextureHandle(0), PixelSize::new(65536, 65536), 1);
    assert!(matches!(r, Err(TextureError::TooLarge)));
}

#[test]
fn resize_reallocates_at_the_new_size() {
    let mut texture = PrepassTexture::create(TextureHandle(3), PixelSize::new(800, 600), 1).unwrap();
    texture.mark_written();
    assert_eq!(texture.resize(PixelSize::new(1920, 1080)), Ok(()));
    assert_eq!(texture.size(), PixelSize { width: 1920, height: 1080 });
    assert_eq!(texture.handle(), TextureHandle(3));
    assert_eq!(texture.sample_count(), 1);
    assert_eq!(texture.content(), ContentState::Undefined);
    assert_eq!(texture.image().data.len(), 1920 * 1080 * 8);
    assert_eq!(texture.image().texture_descriptor.size.width, 1920);
    assert_eq!(texture.image().texture_descriptor.size.height, 1080);
    assert_eq!(texture.image().texture_descriptor.size.depth_or_array_layers, 1);
    assert_eq!(texture.image().texture_descriptor.format, TextureFormat::Rgba16Float);
}

#[test]
fn resize_to_a_smaller_size_cuts_the_buffer() {
    let mut texture = PrepassTexture::create(TextureHandle(3), PixelSize::new(2, 2), 1).unwrap();
    assert_eq!(texture.image().data.len(), 32);
    assert_eq!(texture.resize(PixelSize::new(1, 1)), Ok(()));
    let expected: Vec<u8> = vec![255, 255, 255, 255, 0, 0, 0, 0];
    assert_eq!(texture.image().data, expected);
}

#[test]
fn resize_to_the_current_size_changes_nothing() {
    let mut texture = PrepassTexture::create(TextureHandle(3), PixelSize::new(640, 480), 1).unwrap();
    texture.mark_written();
    let before = texture.image().data.clone();
    assert_eq!(texture.resize(PixelSize::new(640, 480)), Ok(()));
    assert_eq!(texture.size(), PixelSize { width: 640, height: 480 });
    assert_eq!(texture.content(), ContentState::Written);
    assert_eq!(texture.image().data, before);
    assert_eq!(texture.resize(PixelSize::new(640, 480)), Ok(()));
    assert_eq!(texture.content(), ContentState::Written);
}

#[test]
fn resize_is_idempotent() {
    let mut once = PrepassTexture::create(TextureHandle(3), PixelSize::new(8, 8), 1).unwrap();
    let mut twice = PrepassTexture::create(TextureHandle(3), PixelSize::new(8, 8), 1).unwrap();
    once.resize(PixelSize::new(16, 4)).unwrap();
    twice.resize(PixelSize::new(16, 4)).unwrap();
    twice.resize(PixelSize::new(16, 4)).unwrap();
    assert_eq!(once.size(), twice.size());
    assert_eq!(once.content(), twice.content());
    assert_eq!(once.image().data, twice.image().data);
}

#[test]
fn resize_rejects_a_size_that_cannot_be_held_and_keeps_the_texture() {
    let mut texture = PrepassTexture::create(TextureHandle(3), PixelSize::new(800, 600), 1).unwrap();
    texture.mark_written();
    assert_eq!(texture.resize(PixelSize::new(u32::MAX, u32::MAX)), Err(TextureError::TooLarge));
    assert_eq!(texture.size(), PixelSize { width: 800, height: 600 });
    assert_eq!(texture.content(), ContentState::Written);
    assert_eq!(texture.image().data.len(), 800 * 600 * 8);
    assert_eq!(texture.image().texture_descriptor.size.width, 800);
}

#[test]
fn contents_are_sampleable_only_after_the_prepass_wrote_them() {
    let mut texture = PrepassTexture::create(TextureHandle(3), PixelSize::new(8, 8), 1).unwrap();
    assert!(!texture.is_sampleable());
    texture.mark_written();
    assert!(texture.is_sampleable());
    assert_eq!(texture.content(), ContentState::Written);
    texture.begin_frame();
    assert!(!texture.is_sampleable());
    assert_eq!(texture.content(), ContentState::Undefined);
    texture.mark_written();
    texture.resize(PixelSize::new(4, 4)).unwrap();
    assert!(!texture.is_sampleable());
}
