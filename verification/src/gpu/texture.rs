//! Texture formats and the layout of texture data.
use vstd::prelude::*;

verus! {

broadcast use vstd::layout::layout_of_primitives;

/// The texture formats the renderer makes textures in.
#[derive(Clone, Copy, Debug, PartialEq, Eq, Structural)]
pub enum TextureFormat {
    /// One 32-bit depth value per texel.
    Depth32Float,
    /// One byte per texel.
    R8Unorm,
    /// Four bytes per texel.
    Rgba8Unorm,
    /// Four bytes per texel, sRGB encoded.
    Rgba8UnormSrgb,
    /// Four bytes per texel in blue-green-red order, sRGB encoded.
    Bgra8UnormSrgb,
}

/// The size of a `T` in bytes.
pub fn size_of<T>() -> (size: u32)
    ensures
        size == vstd::layout::size_of::<T>() as u32,
{
    std::mem::size_of::<T>() as u32
}

/// The bytes per texel of the formats whose rows the renderer can lay out.
pub open spec fn texel_size(format: TextureFormat) -> Option<nat> {
    match format {
        TextureFormat::Depth32Float => Some(4),
        TextureFormat::R8Unorm => Some(1),
        TextureFormat::Rgba8Unorm => Some(4),
        _ => None,
    }
}

/// The bytes of one row of `width` texels of `format`.
pub fn get_bytes_per_row(format: TextureFormat, width: u32) -> (bytes: Option<u32>)
    requires
        texel_size(format) is Some,
        texel_size(format).unwrap() * width <= u32::MAX,
    ensures
        bytes == Some((texel_size(format).unwrap() * width) as u32),
{
    let bytes = match format {
        TextureFormat::Depth32Float => size_of::<u32>() * width,
        TextureFormat::R8Unorm => size_of::<u8>() * width,
        _ => 4 * size_of::<u8>() * width,
    };
    Some(bytes)
}

/// Whether a texture of `width` by `height` must be made anew to hold a
/// picture of `new_width` by `new_height`.
pub fn size_differs(width: u32, height: u32, new_width: u32, new_height: u32) -> (differs: bool)
    ensures
        differs == (width != new_width || height != new_height),
{
    !(width == new_width && height == new_height)
}

/// The sizes of the luma plane and of each chroma plane of a YUV 4:2:0
/// picture of `width` by `height`: the chroma planes have half the width
/// and half the height, rounded down.
pub fn yuv420_plane_sizes(width: u32, height: u32) -> (sizes: ((u32, u32), (u32, u32)))
    ensures
        sizes == ((width, height), ((width / 2) as u32, (height / 2) as u32)),
{
    let uv_width = width / 2;
    let uv_height = height / 2;
    ((width, height), (uv_width, uv_height))
}

} // verus!
