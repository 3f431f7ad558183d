//! Textures of the software backend.

use crate::wgpu::{checked_times, times, word};
use vstd::prelude::*;

verus! {

/// The formats of texels that the backend stores.
#[derive(Clone, Copy, Debug, PartialEq, Eq, Structural, Hash)]
pub enum TextureFormat {
    R8Unorm,
    R8Snorm,
    R8Uint,
    R8Sint,
    Stencil8,
    R16Uint,
    R16Sint,
    R16Unorm,
    R16Snorm,
    R16Float,
    Rg8Unorm,
    Rg8Snorm,
    Rg8Uint,
    Rg8Sint,
    Depth16Unorm,
    R32Uint,
    R32Sint,
    R32Float,
    Rg16Uint,
    Rg16Sint,
    Rg16Unorm,
    Rg16Snorm,
    Rg16Float,
    Rgba8Unorm,
    Rgba8UnormSrgb,
    Rgba8Snorm,
    Rgba8Uint,
    Rgba8Sint,
    Bgra8Unorm,
    Bgra8UnormSrgb,
    Rgb9e5Ufloat,
    Rgb10a2Uint,
    Rgb10a2Unorm,
    Rg11b10Float,
    Depth24Plus,
    Depth24PlusStencil8,
    Depth32Float,
    Rg32Uint,
    Rg32Sint,
    Rg32Float,
    Rgba16Uint,
    Rgba16Sint,
    Rgba16Unorm,
    Rgba16Snorm,
    Rgba16Float,
    Rgba32Uint,
    Rgba32Sint,
    Rgba32Float,
}

impl TextureFormat {
    /// The size of one texel in bytes.
    pub open spec fn texel_size(self) -> usize {
        match self {
            TextureFormat::R8Unorm
            | TextureFormat::R8Snorm
            | TextureFormat::R8Uint
            | TextureFormat::R8Sint
            | TextureFormat::Stencil8 => 1,
            TextureFormat::R16Uint
            | TextureFormat::R16Sint
            | TextureFormat::R16Unorm
            | TextureFormat::R16Snorm
            | TextureFormat::R16Float
            | TextureFormat::Rg8Unorm
            | TextureFormat::Rg8Snorm
            | TextureFormat::Rg8Uint
            | TextureFormat::Rg8Sint
            | TextureFormat::Depth16Unorm => 2,
            TextureFormat::R32Uint
            | TextureFormat::R32Sint
            | TextureFormat::R32Float
            | TextureFormat::Rg16Uint
            | TextureFormat::Rg16Sint
            | TextureFormat::Rg16Unorm
            | TextureFormat::Rg16Snorm
            | TextureFormat::Rg16Float
            | TextureFormat::Rgba8Unorm
            | TextureFormat::Rgba8UnormSrgb
            | TextureFormat::Rgba8Snorm
            | TextureFormat::Rgba8Uint
            | TextureFormat::Rgba8Sint
            | TextureFormat::Bgra8Unorm
            | TextureFormat::Bgra8UnormSrgb
            | TextureFormat::Rgb9e5Ufloat
            | TextureFormat::Rgb10a2Uint
            | TextureFormat::Rgb10a2Unorm
            | TextureFormat::Rg11b10Float
            | TextureFormat::Depth24Plus
            | TextureFormat::Depth24PlusStencil8
            | TextureFormat::Depth32Float => 4,
            TextureFormat::Rg32Uint
            | TextureFormat::Rg32Sint
            | TextureFormat::Rg32Float
            | TextureFormat::Rgba16Uint
            | TextureFormat::Rgba16Sint
            | TextureFormat::Rgba16Unorm
            | TextureFormat::Rgba16Snorm
            | TextureFormat::Rgba16Float => 8,
            TextureFormat::Rgba32Uint
            | TextureFormat::Rgba32Sint
            | TextureFormat::Rgba32Float => 16,
        }
    }

    /// The size of one texel in bytes.
    pub fn pixel_width(self) -> (width: usize)
        ensures
            width == self.texel_size(),
    {
        match self {
            TextureFormat::R8Unorm
            | TextureFormat::R8Snorm
            | TextureFormat::R8Uint
            | TextureFormat::R8Sint
            | TextureFormat::Stencil8 => 1,
            TextureFormat::R16Uint
            | TextureFormat::R16Sint
            | TextureFormat::R16Unorm
            | TextureFormat::R16Snorm
            | TextureFormat::R16Float
            | TextureFormat::Rg8Unorm
            | TextureFormat::Rg8Snorm
            | TextureFormat::Rg8Uint
            | TextureFormat::Rg8Sint
            | TextureFormat::Depth16Unorm => 2,
            TextureFormat::R32Uint
            | TextureFormat::R32Sint
            | TextureFormat::R32Float
            | TextureFormat::Rg16Uint
            | TextureFormat::Rg16Sint
            | TextureFormat::Rg16Unorm
            | TextureFormat::Rg16Snorm
            | TextureFormat::Rg16Float
            | TextureFormat::Rgba8Unorm
            | TextureFormat::Rgba8UnormSrgb
            | TextureFormat::Rgba8Snorm
            | TextureFormat::Rgba8Uint
            | TextureFormat::Rgba8Sint
            | TextureFormat::Bgra8Unorm
            | TextureFormat::Bgra8UnormSrgb
            | TextureFormat::Rgb9e5Ufloat
            | TextureFormat::Rgb10a2Uint
            | TextureFormat::Rgb10a2Unorm
            | TextureFormat::Rg11b10Float
            | TextureFormat::Depth24Plus
            | TextureFormat::Depth24PlusStencil8
            | TextureFormat::Depth32Float => 4,
            TextureFormat::Rg32Uint
            | TextureFormat::Rg32Sint
            | TextureFormat::Rg32Float
            | TextureFormat::Rgba16Uint
            | TextureFormat::Rgba16Sint
            | TextureFormat::Rgba16Unorm
            | TextureFormat::Rgba16Snorm
            | TextureFormat::Rgba16Float => 8,
            TextureFormat::Rgba32Uint
            | TextureFormat::Rgba32Sint
            | TextureFormat::Rgba32Float => 16,
        }
    }
}

/// How many dimensions a texture has.
#[derive(Clone, Copy, Debug, PartialEq, Eq, Structural, Hash)]
pub enum TextureDimension {
    D1,
    D2,
    D3,
}

/// The extent of a texture in texels.
#[derive(Clone, Copy, Debug, PartialEq, Eq, Structural, Hash)]
pub struct Extent3d {
    pub width: u32,
    pub height: u32,
    pub depth_or_array_layers: u32,
}

/// What a texture is to be created from.
#[derive(Clone, Copy, Debug, PartialEq, Eq, Structural, Hash)]
pub struct TextureDescriptor {
    pub size: Extent3d,
    pub dimension: TextureDimension,
    pub format: TextureFormat,
}

/// A texture: its shape, and its texels in a block of bytes.
#[derive(Debug)]
pub struct Texture {
    pub size: Extent3d,
    pub dimension: TextureDimension,
    pub pixel_size: usize,
    pub data: Vec<u8>,
}

/// The dimension of a texture made to `desc`: three where it has more
/// than one layer, else the dimension asked for.
pub open spec fn stored_dimension(desc: TextureDescriptor) -> TextureDimension {
    if desc.size.depth_or_array_layers > 1 {
        TextureDimension::D3
    } else {
        desc.dimension
    }
}

/// The number of bytes of a texture made to `desc`; `None` where it does
/// not fit a word.
pub open spec fn byte_len(desc: TextureDescriptor) -> Option<usize> {
    times(
        times(
            times(Some(desc.format.texel_size()), word(desc.size.width as int)),
            word(desc.size.height as int),
        ),
        word(desc.size.depth_or_array_layers as int),
    )
}

impl TextureDescriptor {
    /// The number of bytes of a texture made to the descriptor; `None`
    /// where the texture is larger than a block of memory can be.
    pub fn byte_len(&self) -> (len: Option<usize>)
        ensures
            len == match byte_len(*self) {
                Some(len) => if len <= isize::MAX {
                    Some(len)
                } else {
                    None
                },
                None => None,
            },
    {
        let len = checked_times(
            checked_times(
                checked_times(Some(self.format.pixel_width()), Some(self.size.width as usize)),
                Some(self.size.height as usize),
            ),
            Some(self.size.depth_or_array_layers as usize),
        );
        match len {
            Some(len) => {
                if len <= isize::MAX as usize {
                    Some(len)
                } else {
                    None
                }
            },
            None => None,
        }
    }

    /// The dimension of a texture made to the descriptor.
    pub fn stored_dimension(&self) -> (dimension: TextureDimension)
        ensures
            dimension == stored_dimension(*self),
    {
        if self.size.depth_or_array_layers > 1 {
            TextureDimension::D3
        } else {
            self.dimension
        }
    }
}

impl Texture {
    /// A texture made to `desc`, with every byte zero; `None` where the
    /// texture is larger than a block of memory can be.
    pub fn new(desc: &TextureDescriptor) -> (texture: Option<Texture>)
        ensures
            match texture {
                Some(texture) => {
                    &&& byte_len(*desc) == Some(texture.data@.len() as usize)
                    &&& texture.data@.len() <= isize::MAX
                    &&& forall|i: int| 0 <= i < texture.data@.len() ==> texture.data@[i] == 0
                    &&& texture.size == desc.size
                    &&& texture.dimension == stored_dimension(*desc)
                    &&& texture.pixel_size == desc.format.texel_size()
                },
                None => match byte_len(*desc) {
                    Some(len) => len > isize::MAX,
                    None => true,
                },
            },
    {
        match desc.byte_len() {
            Some(len) => {
                let data: Vec<u8> = vec![0u8; len];
                Some(
                    Texture {
                        size: desc.size,
                        dimension: desc.stored_dimension(),
                        pixel_size: desc.format.pixel_width(),
                        data,
                    },
                )
            },
            None => None,
        }
    }
}

} // verus!
