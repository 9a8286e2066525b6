use vstd::prelude::*;

verus! {

/// Size of a texture in texels: a two-dimensional texture has one layer.
#[derive(Clone, Copy, Debug, PartialEq, Eq, Structural)]
pub struct TextureExtent {
    pub width: u32,
    pub height: u32,
    pub depth_or_array_layers: u32,
}

/// Where the bytes of an image stand in the buffer handed to a texture upload.
#[derive(Clone, Copy, Debug, PartialEq, Eq, Structural)]
pub struct UploadLayout {
    pub offset: u64,
    pub bytes_per_row: Option<u32>,
    pub rows_per_image: Option<u32>,
}

/// Bytes per texel of an 8-bit RGBA image.
pub const BYTES_PER_RGBA_TEXEL: u32 = 4;

/// The extent of the single-layer texture that holds a `width` x `height` image.
pub fn texture_extent(width: u32, height: u32) -> (e: TextureExtent)
    ensures
        e.width == width,
        e.height == height,
        e.depth_or_array_layers == 1,
{
    TextureExtent { width, height, depth_or_array_layers: 1 }
}

/// The layout of a tightly packed RGBA image of `width` x `height` texels,
/// whose bytes start at the beginning of the buffer.
pub fn rgba_upload_layout(width: u32, height: u32) -> (l: UploadLayout)
    requires
        BYTES_PER_RGBA_TEXEL * width <= u32::MAX,
    ensures
        l.offset == 0,
        l.bytes_per_row == Some((BYTES_PER_RGBA_TEXEL * width) as u32),
        l.rows_per_image == Some(height),
{
    UploadLayout {
        offset: 0,
        bytes_per_row: Some(BYTES_PER_RGBA_TEXEL * width),
        rows_per_image: Some(height),
    }
}

} // verus!
