use vstd::prelude::*;
use crate::text::str_eq;

verus! {

/// A set of shader stages, as the visibility of a binding.
#[derive(Clone, Copy, Debug, PartialEq, Eq)]
pub struct ShaderStages {
    pub vertex: bool,
    pub fragment: bool,
    pub compute: bool,
    pub task: bool,
    pub mesh: bool,
}

impl ShaderStages {
    /// No stage.
    pub open spec fn spec_none() -> ShaderStages {
        ShaderStages { vertex: false, fragment: false, compute: false, task: false, mesh: false }
    }

    /// The stages of either set.
    pub open spec fn spec_union(self, other: ShaderStages) -> ShaderStages {
        ShaderStages {
            vertex: self.vertex || other.vertex,
            fragment: self.fragment || other.fragment,
            compute: self.compute || other.compute,
            task: self.task || other.task,
            mesh: self.mesh || other.mesh,
        }
    }

    /// The set that a visibility token names, if it names one.
    pub open spec fn of_token(token: Seq<char>) -> Option<ShaderStages> {
        if token == "FRAGMENT"@ {
            Some(ShaderStages { fragment: true, ..Self::spec_none() })
        } else if token == "COMPUTE"@ {
            Some(ShaderStages { compute: true, ..Self::spec_none() })
        } else if token == "MESH"@ {
            Some(ShaderStages { mesh: true, ..Self::spec_none() })
        } else if token == "VERTEX"@ {
            Some(ShaderStages { vertex: true, ..Self::spec_none() })
        } else if token == "NONE"@ {
            Some(Self::spec_none())
        } else if token == "TASK"@ {
            Some(ShaderStages { task: true, ..Self::spec_none() })
        } else if token == "VERTEX_FRAGMENT"@ {
            Some(ShaderStages { vertex: true, fragment: true, ..Self::spec_none() })
        } else {
            None
        }
    }

    /// No stage.
    pub fn none() -> (stages: ShaderStages)
        ensures
            stages == Self::spec_none(),
    {
        ShaderStages { vertex: false, fragment: false, compute: false, task: false, mesh: false }
    }

    /// The stages of either set.
    pub fn union(self, other: ShaderStages) -> (stages: ShaderStages)
        ensures
            stages == self.spec_union(other),
    {
        ShaderStages {
            vertex: self.vertex || other.vertex,
            fragment: self.fragment || other.fragment,
            compute: self.compute || other.compute,
            task: self.task || other.task,
            mesh: self.mesh || other.mesh,
        }
    }

    /// The set that a visibility token names, if it names one.
    pub fn from_token(token: &str) -> (found: Option<ShaderStages>)
        ensures
            found == Self::of_token(token@),
    {
        let none = Self::none();
        if str_eq(token, "FRAGMENT") {
            Some(ShaderStages { fragment: true, ..none })
        } else if str_eq(token, "COMPUTE") {
            Some(ShaderStages { compute: true, ..none })
        } else if str_eq(token, "MESH") {
            Some(ShaderStages { mesh: true, ..none })
        } else if str_eq(token, "VERTEX") {
            Some(ShaderStages { vertex: true, ..none })
        } else if str_eq(token, "NONE") {
            Some(none)
        } else if str_eq(token, "TASK") {
            Some(ShaderStages { task: true, ..none })
        } else if str_eq(token, "VERTEX_FRAGMENT") {
            Some(ShaderStages { vertex: true, fragment: true, ..none })
        } else {
            None
        }
    }
}

/// How a buffer is bound.
#[derive(Clone, Copy, Debug, PartialEq, Eq)]
pub enum BufferBindingType {
    Uniform,
    Storage { read_only: bool },
}

impl BufferBindingType {
    /// The kind that a buffer `type` token names, if it names one.
    pub open spec fn of_token(token: Seq<char>) -> Option<BufferBindingType> {
        if token == "UNIFORM"@ {
            Some(BufferBindingType::Uniform)
        } else if token == "STORAGE"@ {
            Some(BufferBindingType::Storage { read_only: false })
        } else if token == "READ_ONLY_STORAGE"@ {
            Some(BufferBindingType::Storage { read_only: true })
        } else {
            None
        }
    }

    /// The kind that a buffer `type` token names, if it names one.
    pub fn from_token(token: &str) -> (found: Option<BufferBindingType>)
        ensures
            found == Self::of_token(token@),
    {
        if str_eq(token, "UNIFORM") {
            Some(BufferBindingType::Uniform)
        } else if str_eq(token, "STORAGE") {
            Some(BufferBindingType::Storage { read_only: false })
        } else if str_eq(token, "READ_ONLY_STORAGE") {
            Some(BufferBindingType::Storage { read_only: true })
        } else {
            None
        }
    }
}

/// How a sampler is bound.
#[derive(Clone, Copy, Debug, PartialEq, Eq)]
pub enum SamplerBindingType {
    Filtering,
    Comparison,
    NonFiltering,
}

impl SamplerBindingType {
    /// The value that a `sampler` token of a document names, if it names one.
    pub open spec fn of_token(token: Seq<char>) -> Option<SamplerBindingType> {
        if token == "FILTERING"@ {
            Some(SamplerBindingType::Filtering)
        } else if token == "COMPARISON"@ {
            Some(SamplerBindingType::Comparison)
        } else if token == "NONFILTERING"@ {
            Some(SamplerBindingType::NonFiltering)
        } else {
            None
        }
    }

    /// The value that a `sampler` token of a document names, if it names one.
    pub fn from_token(token: &str) -> (found: Option<SamplerBindingType>)
        ensures
            found == Self::of_token(token@),
    {
        if str_eq(token, "FILTERING") {
            Some(SamplerBindingType::Filtering)
        } else if str_eq(token, "COMPARISON") {
            Some(SamplerBindingType::Comparison)
        } else if str_eq(token, "NONFILTERING") {
            Some(SamplerBindingType::NonFiltering)
        } else {
            None
        }
    }
}

/// What a shader reads from a texture.
#[derive(Clone, Copy, Debug, PartialEq, Eq)]
pub enum TextureSampleType {
    Float { filterable: bool },
    Depth,
    Sint,
    Uint,
}

/// The names of the texture sample types. `Float` is completed by the
/// `filterable` flag of the same texture description.
#[derive(Clone, Copy, Debug, PartialEq, Eq)]
pub enum SampleKind {
    Float,
    Depth,
    Sint,
    Uint,
}

impl SampleKind {
    /// The kind that a `sampler_type` token names, if it names one.
    pub open spec fn of_token(token: Seq<char>) -> Option<SampleKind> {
        if token == "FLOAT"@ {
            Some(SampleKind::Float)
        } else if token == "DEPTH"@ {
            Some(SampleKind::Depth)
        } else if token == "SINT"@ {
            Some(SampleKind::Sint)
        } else if token == "UINT"@ {
            Some(SampleKind::Uint)
        } else {
            None
        }
    }

    /// The kind that a `sampler_type` token names, if it names one.
    pub fn from_token(token: &str) -> (found: Option<SampleKind>)
        ensures
            found == Self::of_token(token@),
    {
        if str_eq(token, "FLOAT") {
            Some(SampleKind::Float)
        } else if str_eq(token, "DEPTH") {
            Some(SampleKind::Depth)
        } else if str_eq(token, "SINT") {
            Some(SampleKind::Sint)
        } else if str_eq(token, "UINT") {
            Some(SampleKind::Uint)
        } else {
            None
        }
    }
}

/// The shape under which a texture is viewed.
#[derive(Clone, Copy, Debug, PartialEq, Eq)]
pub enum TextureViewDimension {
    D1,
    D2,
    D2Array,
    Cube,
    CubeArray,
    D3,
}

impl TextureViewDimension {
    /// The value that a `view_dimension` token of a document names, if it names one.
    pub open spec fn of_token(token: Seq<char>) -> Option<TextureViewDimension> {
        if token == "D1"@ {
            Some(TextureViewDimension::D1)
        } else if token == "D2"@ {
            Some(TextureViewDimension::D2)
        } else if token == "D2ARRAY"@ {
            Some(TextureViewDimension::D2Array)
        } else if token == "CUBE"@ {
            Some(TextureViewDimension::Cube)
        } else if token == "CUBEARRAY"@ {
            Some(TextureViewDimension::CubeArray)
        } else if token == "D3"@ {
            Some(TextureViewDimension::D3)
        } else {
            None
        }
    }

    /// The value that a `view_dimension` token of a document names, if it names one.
    pub fn from_token(token: &str) -> (found: Option<TextureViewDimension>)
        ensures
            found == Self::of_token(token@),
    {
        if str_eq(token, "D1") {
            Some(TextureViewDimension::D1)
        } else if str_eq(token, "D2") {
            Some(TextureViewDimension::D2)
        } else if str_eq(token, "D2ARRAY") {
            Some(TextureViewDimension::D2Array)
        } else if str_eq(token, "CUBE") {
            Some(TextureViewDimension::Cube)
        } else if str_eq(token, "CUBEARRAY") {
            Some(TextureViewDimension::CubeArray)
        } else if str_eq(token, "D3") {
            Some(TextureViewDimension::D3)
        } else {
            None
        }
    }
}

/// What a shader may do with a storage texture.
#[derive(Clone, Copy, Debug, PartialEq, Eq)]
pub enum StorageTextureAccess {
    Atomic,
    ReadOnly,
    ReadWrite,
    WriteOnly,
}

impl StorageTextureAccess {
    /// The value that a `access` token of a document names, if it names one.
    pub open spec fn of_token(token: Seq<char>) -> Option<StorageTextureAccess> {
        if token == "ATOMIC"@ {
            Some(StorageTextureAccess::Atomic)
        } else if token == "READ_ONLY"@ {
            Some(StorageTextureAccess::ReadOnly)
        } else if token == "READ_WRITE"@ {
            Some(StorageTextureAccess::ReadWrite)
        } else if token == "WRITE_ONLY"@ {
            Some(StorageTextureAccess::WriteOnly)
        } else {
            None
        }
    }

    /// The value that a `access` token of a document names, if it names one.
    pub fn from_token(token: &str) -> (found: Option<StorageTextureAccess>)
        ensures
            found == Self::of_token(token@),
    {
        if str_eq(token, "ATOMIC") {
            Some(StorageTextureAccess::Atomic)
        } else if str_eq(token, "READ_ONLY") {
            Some(StorageTextureAccess::ReadOnly)
        } else if str_eq(token, "READ_WRITE") {
            Some(StorageTextureAccess::ReadWrite)
        } else if str_eq(token, "WRITE_ONLY") {
            Some(StorageTextureAccess::WriteOnly)
        } else {
            None
        }
    }
}

/// The block size of an ASTC format.
#[derive(Clone, Copy, Debug, PartialEq, Eq)]
pub enum AstcBlock {
    B4x4,
    B5x4,
    B5x5,
    B6x5,
    B6x6,
    B8x5,
    B8x6,
    B8x8,
    B10x5,
    B10x6,
    B10x8,
    B10x10,
    B12x10,
    B12x12,
}

impl AstcBlock {
    /// The value that a block token of a document names, if it names one.
    pub open spec fn of_token(token: Seq<char>) -> Option<AstcBlock> {
        if token == "B4X4"@ {
            Some(AstcBlock::B4x4)
        } else if token == "B5X4"@ {
            Some(AstcBlock::B5x4)
        } else if token == "B5X5"@ {
            Some(AstcBlock::B5x5)
        } else if token == "B6X5"@ {
            Some(AstcBlock::B6x5)
        } else if token == "B6X6"@ {
            Some(AstcBlock::B6x6)
        } else if token == "B8X5"@ {
            Some(AstcBlock::B8x5)
        } else if token == "B8X6"@ {
            Some(AstcBlock::B8x6)
        } else if token == "B8X8"@ {
            Some(AstcBlock::B8x8)
        } else if token == "B10X5"@ {
            Some(AstcBlock::B10x5)
        } else if token == "B10X6"@ {
            Some(AstcBlock::B10x6)
        } else if token == "B10X8"@ {
            Some(AstcBlock::B10x8)
        } else if token == "B10X10"@ {
            Some(AstcBlock::B10x10)
        } else if token == "B12X10"@ {
            Some(AstcBlock::B12x10)
        } else if token == "B12X12"@ {
            Some(AstcBlock::B12x12)
        } else {
            None
        }
    }

    /// The value that a block token of a document names, if it names one.
    pub fn from_token(token: &str) -> (found: Option<AstcBlock>)
        ensures
            found == Self::of_token(token@),
    {
        if str_eq(token, "B4X4") {
            Some(AstcBlock::B4x4)
        } else if str_eq(token, "B5X4") {
            Some(AstcBlock::B5x4)
        } else if str_eq(token, "B5X5") {
            Some(AstcBlock::B5x5)
        } else if str_eq(token, "B6X5") {
            Some(AstcBlock::B6x5)
        } else if str_eq(token, "B6X6") {
            Some(AstcBlock::B6x6)
        } else if str_eq(token, "B8X5") {
            Some(AstcBlock::B8x5)
        } else if str_eq(token, "B8X6") {
            Some(AstcBlock::B8x6)
        } else if str_eq(token, "B8X8") {
            Some(AstcBlock::B8x8)
        } else if str_eq(token, "B10X5") {
            Some(AstcBlock::B10x5)
        } else if str_eq(token, "B10X6") {
            Some(AstcBlock::B10x6)
        } else if str_eq(token, "B10X8") {
            Some(AstcBlock::B10x8)
        } else if str_eq(token, "B10X10") {
            Some(AstcBlock::B10x10)
        } else if str_eq(token, "B12X10") {
            Some(AstcBlock::B12x10)
        } else if str_eq(token, "B12X12") {
            Some(AstcBlock::B12x12)
        } else {
            None
        }
    }
}

/// The channel kind of an ASTC format.
#[derive(Clone, Copy, Debug, PartialEq, Eq)]
pub enum AstcChannel {
    Hdr,
    Unorm,
    UnormSrgb,
}

impl AstcChannel {
    /// The value that a `channel` token of a document names, if it names one.
    pub open spec fn of_token(token: Seq<char>) -> Option<AstcChannel> {
        if token == "HDR"@ {
            Some(AstcChannel::Hdr)
        } else if token == "UNORM"@ {
            Some(AstcChannel::Unorm)
        } else if token == "UNORM_SRGB"@ {
            Some(AstcChannel::UnormSrgb)
        } else {
            None
        }
    }

    /// The value that a `channel` token of a document names, if it names one.
    pub fn from_token(token: &str) -> (found: Option<AstcChannel>)
        ensures
            found == Self::of_token(token@),
    {
        if str_eq(token, "HDR") {
            Some(AstcChannel::Hdr)
        } else if str_eq(token, "UNORM") {
            Some(AstcChannel::Unorm)
        } else if str_eq(token, "UNORM_SRGB") {
            Some(AstcChannel::UnormSrgb)
        } else {
            None
        }
    }
}

/// The pixel format of a texture.
#[derive(Clone, Copy, Debug, PartialEq, Eq)]
pub enum TextureFormat {
    R8Unorm,
    R8Snorm,
    R8Uint,
    R8Sint,
    R16Uint,
    R16Sint,
    R16Unorm,
    R16Snorm,
    R16Float,
    Rg8Unorm,
    Rg8Snorm,
    Rg8Uint,
    Rg8Sint,
    R32Uint,
    R32Sint,
    R32Float,
    Rg16Uint,
    Rg16Sint,
    Rg16Unorm,
    Rg16Snorm,
    Rg16Float,
    Rgba8Unorm,
    Rgba8UnormSrgb,
    Rgba8Snorm,
    Rgba8Uint,
    Rgba8Sint,
    Bgra8Unorm,
    Bgra8UnormSrgb,
    Rgb9e5Ufloat,
    Rgb10a2Uint,
    Rgb10a2Unorm,
    Rg11b10Ufloat,
    R64Uint,
    Rg32Uint,
    Rg32Sint,
    Rg32Float,
    Rgba16Uint,
    Rgba16Sint,
    Rgba16Unorm,
    Rgba16Snorm,
    Rgba16Float,
    Rgba32Uint,
    Rgba32Sint,
    Rgba32Float,
    Stencil8,
    Depth16Unorm,
    Depth24Plus,
    Depth24PlusStencil8,
    Depth32Float,
    Depth32FloatStencil8,
    NV12,
    Bc1RgbaUnorm,
    Bc1RgbaUnormSrgb,
    Bc2RgbaUnorm,
    Bc2RgbaUnormSrgb,
    Bc3RgbaUnorm,
    Bc3RgbaUnormSrgb,
    Bc4RUnorm,
    Bc4RSnorm,
    Bc5RgUnorm,
    Bc5RgSnorm,
    Bc6hRgbUfloat,
    Bc6hRgbFloat,
    Bc7RgbaUnorm,
    Bc7RgbaUnormSrgb,
    Etc2Rgb8Unorm,
    Etc2Rgb8UnormSrgb,
    Etc2Rgb8A1Unorm,
    Etc2Rgb8A1UnormSrgb,
    Etc2Rgba8Unorm,
    Etc2Rgba8UnormSrgb,
    EacR11Unorm,
    EacR11Snorm,
    EacRg11Unorm,
    EacRg11Snorm,
    Astc { block: AstcBlock, channel: AstcChannel },
}

impl TextureFormat {
    /// The format that a `format` token names by itself, if it names one.
    /// The family name `ASTC` is no such token: it names no single format.
    pub open spec fn of_token(token: Seq<char>) -> Option<TextureFormat> {
        if token == "R8UNORM"@ {
            Some(TextureFormat::R8Unorm)
        } else if token == "R8SNORM"@ {
            Some(TextureFormat::R8Snorm)
        } else if token == "R8UINT"@ {
            Some(TextureFormat::R8Uint)
        } else if token == "R8SINT"@ {
            Some(TextureFormat::R8Sint)
        } else if token == "R16UINT"@ {
            Some(TextureFormat::R16Uint)
        } else if token == "R16SINT"@ {
            Some(TextureFormat::R16Sint)
        } else if token == "R16UNORM"@ {
            Some(TextureFormat::R16Unorm)
        } else if token == "R16SNORM"@ {
            Some(TextureFormat::R16Snorm)
        } else if token == "R16FLOAT"@ {
            Some(TextureFormat::R16Float)
        } else if token == "RG8UNORM"@ {
            Some(TextureFormat::Rg8Unorm)
        } else if token == "RG8SNORM"@ {
            Some(TextureFormat::Rg8Snorm)
        } else if token == "RG8UINT"@ {
            Some(TextureFormat::Rg8Uint)
        } else if token == "RG8SINT"@ {
            Some(TextureFormat::Rg8Sint)
        } else if token == "R32UINT"@ {
            Some(TextureFormat::R32Uint)
        } else if token == "R32SINT"@ {
            Some(TextureFormat::R32Sint)
        } else if token == "R32FLOAT"@ {
            Some(TextureFormat::R32Float)
        } else if token == "RG16UINT"@ {
            Some(TextureFormat::Rg16Uint)
        } else if token == "RG16SINT"@ {
            Some(TextureFormat::Rg16Sint)
        } else if token == "RG16UNORM"@ {
            Some(TextureFormat::Rg16Unorm)
        } else if token == "RG16SNORM"@ {
            Some(TextureFormat::Rg16Snorm)
        } else if token == "RG16FLOAT"@ {
            Some(TextureFormat::Rg16Float)
        } else if token == "RGBA8UNORM"@ {
            Some(TextureFormat::Rgba8Unorm)
        } else if token == "RGBA8UNORMSRGB"@ {
            Some(TextureFormat::Rgba8UnormSrgb)
        } else if token == "RGBA8SNORM"@ {
            Some(TextureFormat::Rgba8Snorm)
        } else if token == "RGBA8UINT"@ {
            Some(TextureFormat::Rgba8Uint)
        } else if token == "RGBA8SINT"@ {
            Some(TextureFormat::Rgba8Sint)
        } else if token == "BGRA8UNORM"@ {
            Some(TextureFormat::Bgra8Unorm)
        } else if token == "BGRA8UNORMSRGB"@ {
            Some(TextureFormat::Bgra8UnormSrgb)
        } else if token == "RGB9E5UFLOAT"@ {
            Some(TextureFormat::Rgb9e5Ufloat)
        } else if token == "RGB10A2UINT"@ {
            Some(TextureFormat::Rgb10a2Uint)
        } else if token == "RGB10A2UNORM"@ {
            Some(TextureFormat::Rgb10a2Unorm)
        } else if token == "RG11B10UFLOAT"@ {
            Some(TextureFormat::Rg11b10Ufloat)
        } else if token == "R64UINT"@ {
            Some(TextureFormat::R64Uint)
        } else if token == "RG32UINT"@ {
            Some(TextureFormat::Rg32Uint)
        } else if token == "RG32SINT"@ {
            Some(TextureFormat::Rg32Sint)
        } else if token == "RG32FLOAT"@ {
            Some(TextureFormat::Rg32Float)
        } else if token == "RGBA16UINT"@ {
            Some(TextureFormat::Rgba16Uint)
        } else if token == "RGBA16SINT"@ {
            Some(TextureFormat::Rgba16Sint)
        } else if token == "RGBA16UNORM"@ {
            Some(TextureFormat::Rgba16Unorm)
        } else if token == "RGBA16SNORM"@ {
            Some(TextureFormat::Rgba16Snorm)
        } else if token == "RGBA16FLOAT"@ {
            Some(TextureFormat::Rgba16Float)
        } else if token == "RGBA32UINT"@ {
            Some(TextureFormat::Rgba32Uint)
        } else if token == "RGBA32SINT"@ {
            Some(TextureFormat::Rgba32Sint)
        } else if token == "RGBA32FLOAT"@ {
            Some(TextureFormat::Rgba32Float)
        } else if token == "STENCIL8"@ {
            Some(TextureFormat::Stencil8)
        } else if token == "DEPTH16UNORM"@ {
            Some(TextureFormat::Depth16Unorm)
        } else if token == "DEPTH24PLUS"@ {
            Some(TextureFormat::Depth24Plus)
        } else if token == "DEPTH24PLUSSTENCIL8"@ {
            Some(TextureFormat::Depth24PlusStencil8)
        } else if token == "DEPTH32FLOAT"@ {
            Some(TextureFormat::Depth32Float)
        } else if token == "DEPTH32FLOATSTENCIL8"@ {
            Some(TextureFormat::Depth32FloatStencil8)
        } else if token == "NV12"@ {
            Some(TextureFormat::NV12)
        } else if token == "BC1RGBAUNORM"@ {
            Some(TextureFormat::Bc1RgbaUnorm)
        } else if token == "BC1RGBAUNORMSRGB"@ {
            Some(TextureFormat::Bc1RgbaUnormSrgb)
        } else if token == "BC2RGBAUNORM"@ {
            Some(TextureFormat::Bc2RgbaUnorm)
        } else if token == "BC2RGBAUNORMSRGB"@ {
            Some(TextureFormat::Bc2RgbaUnormSrgb)
        } else if token == "BC3RGBAUNORM"@ {
            Some(TextureFormat::Bc3RgbaUnorm)
        } else if token == "BC3RGBAUNORMSRGB"@ {
            Some(TextureFormat::Bc3RgbaUnormSrgb)
        } else if token == "BC4RUNORM"@ {
            Some(TextureFormat::Bc4RUnorm)
        } else if token == "BC4RSNORM"@ {
            Some(TextureFormat::Bc4RSnorm)
        } else if token == "BC5RGUNORM"@ {
            Some(TextureFormat::Bc5RgUnorm)
        } else if token == "BC5RGSNORM"@ {
            Some(TextureFormat::Bc5RgSnorm)
        } else if token == "BC6HRGBUFLOAT"@ {
            Some(TextureFormat::Bc6hRgbUfloat)
        } else if token == "BC6HRGBFLOAT"@ {
            Some(TextureFormat::Bc6hRgbFloat)
        } else if token == "BC7RGBAUNORM"@ {
            Some(TextureFormat::Bc7RgbaUnorm)
        } else if token == "BC7RGBAUNORMSRGB"@ {
            Some(TextureFormat::Bc7RgbaUnormSrgb)
        } else if token == "ETC2RGB8UNORM"@ {
            Some(TextureFormat::Etc2Rgb8Unorm)
        } else if token == "ETC2RGB8UNORMSRGB"@ {
            Some(TextureFormat::Etc2Rgb8UnormSrgb)
        } else if token == "ETC2RGB8A1UNORM"@ {
            Some(TextureFormat::Etc2Rgb8A1Unorm)
        } else if token == "ETC2RGB8A1UNORMSRGB"@ {
            Some(TextureFormat::Etc2Rgb8A1UnormSrgb)
        } else if token == "ETC2RGBA8UNORM"@ {
            Some(TextureFormat::Etc2Rgba8Unorm)
        } else if token == "ETC2RGBA8UNORMSRGB"@ {
            Some(TextureFormat::Etc2Rgba8UnormSrgb)
        } else if token == "EACR11UNORM"@ {
            Some(TextureFormat::EacR11Unorm)
        } else if token == "EACR11SNORM"@ {
            Some(TextureFormat::EacR11Snorm)
        } else if token == "EACRG11UNORM"@ {
            Some(TextureFormat::EacRg11Unorm)
        } else if token == "EACRG11SNORM"@ {
            Some(TextureFormat::EacRg11Snorm)
        } else {
            None
        }
    }

    /// The format that a `format` token names by itself, if it names one.
    pub fn from_token(token: &str) -> (found: Option<TextureFormat>)
        ensures
            found == Self::of_token(token@),
    {
        if str_eq(token, "R8UNORM") {
            Some(TextureFormat::R8Unorm)
        } else if str_eq(token, "R8SNORM") {
            Some(TextureFormat::R8Snorm)
        } else if str_eq(token, "R8UINT") {
            Some(TextureFormat::R8Uint)
        } else if str_eq(token, "R8SINT") {
            Some(TextureFormat::R8Sint)
        } else if str_eq(token, "R16UINT") {
            Some(TextureFormat::R16Uint)
        } else if str_eq(token, "R16SINT") {
            Some(TextureFormat::R16Sint)
        } else if str_eq(token, "R16UNORM") {
            Some(TextureFormat::R16Unorm)
        } else if str_eq(token, "R16SNORM") {
            Some(TextureFormat::R16Snorm)
        } else if str_eq(token, "R16FLOAT") {
            Some(TextureFormat::R16Float)
        } else if str_eq(token, "RG8UNORM") {
            Some(TextureFormat::Rg8Unorm)
        } else if str_eq(token, "RG8SNORM") {
            Some(TextureFormat::Rg8Snorm)
        } else if str_eq(token, "RG8UINT") {
            Some(TextureFormat::Rg8Uint)
        } else if str_eq(token, "RG8SINT") {
            Some(TextureFormat::Rg8Sint)
        } else if str_eq(token, "R32UINT") {
            Some(TextureFormat::R32Uint)
        } else if str_eq(token, "R32SINT") {
            Some(TextureFormat::R32Sint)
        } else if str_eq(token, "R32FLOAT") {
            Some(TextureFormat::R32Float)
        } else if str_eq(token, "RG16UINT") {
            Some(TextureFormat::Rg16Uint)
        } else if str_eq(token, "RG16SINT") {
            Some(TextureFormat::Rg16Sint)
        } else if str_eq(token, "RG16UNORM") {
            Some(TextureFormat::Rg16Unorm)
        } else if str_eq(token, "RG16SNORM") {
            Some(TextureFormat::Rg16Snorm)
        } else if str_eq(token, "RG16FLOAT") {
            Some(TextureFormat::Rg16Float)
        } else if str_eq(token, "RGBA8UNORM") {
            Some(TextureFormat::Rgba8Unorm)
        } else if str_eq(token, "RGBA8UNORMSRGB") {
            Some(TextureFormat::Rgba8UnormSrgb)
        } else if str_eq(token, "RGBA8SNORM") {
            Some(TextureFormat::Rgba8Snorm)
        } else if str_eq(token, "RGBA8UINT") {
            Some(TextureFormat::Rgba8Uint)
        } else if str_eq(token, "RGBA8SINT") {
            Some(TextureFormat::Rgba8Sint)
        } else if str_eq(token, "BGRA8UNORM") {
            Some(TextureFormat::Bgra8Unorm)
        } else if str_eq(token, "BGRA8UNORMSRGB") {
            Some(TextureFormat::Bgra8UnormSrgb)
        } else if str_eq(token, "RGB9E5UFLOAT") {
            Some(TextureFormat::Rgb9e5Ufloat)
        } else if str_eq(token, "RGB10A2UINT") {
            Some(TextureFormat::Rgb10a2Uint)
        } else if str_eq(token, "RGB10A2UNORM") {
            Some(TextureFormat::Rgb10a2Unorm)
        } else if str_eq(token, "RG11B10UFLOAT") {
            Some(TextureFormat::Rg11b10Ufloat)
        } else if str_eq(token, "R64UINT") {
            Some(TextureFormat::R64Uint)
        } else if str_eq(token, "RG32UINT") {
            Some(TextureFormat::Rg32Uint)
        } else if str_eq(token, "RG32SINT") {
            Some(TextureFormat::Rg32Sint)
        } else if str_eq(token, "RG32FLOAT") {
            Some(TextureFormat::Rg32Float)
        } else if str_eq(token, "RGBA16UINT") {
            Some(TextureFormat::Rgba16Uint)
        } else if str_eq(token, "RGBA16SINT") {
            Some(TextureFormat::Rgba16Sint)
        } else if str_eq(token, "RGBA16UNORM") {
            Some(TextureFormat::Rgba16Unorm)
        } else if str_eq(token, "RGBA16SNORM") {
            Some(TextureFormat::Rgba16Snorm)
        } else if str_eq(token, "RGBA16FLOAT") {
            Some(TextureFormat::Rgba16Float)
        } else if str_eq(token, "RGBA32UINT") {
            Some(TextureFormat::Rgba32Uint)
        } else if str_eq(token, "RGBA32SINT") {
            Some(TextureFormat::Rgba32Sint)
        } else if str_eq(token, "RGBA32FLOAT") {
            Some(TextureFormat::Rgba32Float)
        } else if str_eq(token, "STENCIL8") {
            Some(TextureFormat::Stencil8)
        } else if str_eq(token, "DEPTH16UNORM") {
            Some(TextureFormat::Depth16Unorm)
        } else if str_eq(token, "DEPTH24PLUS") {
            Some(TextureFormat::Depth24Plus)
        } else if str_eq(token, "DEPTH24PLUSSTENCIL8") {
            Some(TextureFormat::Depth24PlusStencil8)
        } else if str_eq(token, "DEPTH32FLOAT") {
            Some(TextureFormat::Depth32Float)
        } else if str_eq(token, "DEPTH32FLOATSTENCIL8") {
            Some(TextureFormat::Depth32FloatStencil8)
        } else if str_eq(token, "NV12") {
            Some(TextureFormat::NV12)
        } else if str_eq(token, "BC1RGBAUNORM") {
            Some(TextureFormat::Bc1RgbaUnorm)
        } else if str_eq(token, "BC1RGBAUNORMSRGB") {
            Some(TextureFormat::Bc1RgbaUnormSrgb)
        } else if str_eq(token, "BC2RGBAUNORM") {
            Some(TextureFormat::Bc2RgbaUnorm)
        } else if str_eq(token, "BC2RGBAUNORMSRGB") {
            Some(TextureFormat::Bc2RgbaUnormSrgb)
        } else if str_eq(token, "BC3RGBAUNORM") {
            Some(TextureFormat::Bc3RgbaUnorm)
        } else if str_eq(token, "BC3RGBAUNORMSRGB") {
            Some(TextureFormat::Bc3RgbaUnormSrgb)
        } else if str_eq(token, "BC4RUNORM") {
            Some(TextureFormat::Bc4RUnorm)
        } else if str_eq(token, "BC4RSNORM") {
            Some(TextureFormat::Bc4RSnorm)
        } else if str_eq(token, "BC5RGUNORM") {
            Some(TextureFormat::Bc5RgUnorm)
        } else if str_eq(token, "BC5RGSNORM") {
            Some(TextureFormat::Bc5RgSnorm)
        } else if str_eq(token, "BC6HRGBUFLOAT") {
            Some(TextureFormat::Bc6hRgbUfloat)
        } else if str_eq(token, "BC6HRGBFLOAT") {
            Some(TextureFormat::Bc6hRgbFloat)
        } else if str_eq(token, "BC7RGBAUNORM") {
            Some(TextureFormat::Bc7RgbaUnorm)
        } else if str_eq(token, "BC7RGBAUNORMSRGB") {
            Some(TextureFormat::Bc7RgbaUnormSrgb)
        } else if str_eq(token, "ETC2RGB8UNORM") {
            Some(TextureFormat::Etc2Rgb8Unorm)
        } else if str_eq(token, "ETC2RGB8UNORMSRGB") {
            Some(TextureFormat::Etc2Rgb8UnormSrgb)
        } else if str_eq(token, "ETC2RGB8A1UNORM") {
            Some(TextureFormat::Etc2Rgb8A1Unorm)
        } else if str_eq(token, "ETC2RGB8A1UNORMSRGB") {
            Some(TextureFormat::Etc2Rgb8A1UnormSrgb)
        } else if str_eq(token, "ETC2RGBA8UNORM") {
            Some(TextureFormat::Etc2Rgba8Unorm)
        } else if str_eq(token, "ETC2RGBA8UNORMSRGB") {
            Some(TextureFormat::Etc2Rgba8UnormSrgb)
        } else if str_eq(token, "EACR11UNORM") {
            Some(TextureFormat::EacR11Unorm)
        } else if str_eq(token, "EACR11SNORM") {
            Some(TextureFormat::EacR11Snorm)
        } else if str_eq(token, "EACRG11UNORM") {
            Some(TextureFormat::EacRg11Unorm)
        } else if str_eq(token, "EACRG11SNORM") {
            Some(TextureFormat::EacRg11Snorm)
        } else {
            None
        }
    }
}

/// The type of one binding of a bind group.
#[derive(Clone, Copy, Debug, PartialEq, Eq)]
pub enum BindingType {
    Buffer { ty: BufferBindingType, has_dynamic_offset: bool, min_binding_size: Option<u64> },
    Sampler(SamplerBindingType),
    Texture { sample_type: TextureSampleType, view_dimension: TextureViewDimension, multisampled: bool },
    StorageTexture { access: StorageTextureAccess, format: TextureFormat, view_dimension: TextureViewDimension },
    AccelerationStructure { vertex_return: bool },
}

/// The names of the binding types.
#[derive(Clone, Copy, Debug, PartialEq, Eq)]
pub enum BindingKind {
    Buffer,
    Sampler,
    Texture,
    StorageTexture,
    AccelerationStructure,
}

impl BindingKind {
    /// The kind that an entry's `type` token names, if it names one.
    pub open spec fn of_token(token: Seq<char>) -> Option<BindingKind> {
        if token == "BUFFER"@ {
            Some(BindingKind::Buffer)
        } else if token == "SAMPLER"@ {
            Some(BindingKind::Sampler)
        } else if token == "TEXTURE"@ {
            Some(BindingKind::Texture)
        } else if token == "STORAGE_TEXTURE"@ {
            Some(BindingKind::StorageTexture)
        } else if token == "ACCELERATION_STRUCTURE"@ {
            Some(BindingKind::AccelerationStructure)
        } else {
            None
        }
    }

    /// The kind that an entry's `type` token names, if it names one.
    pub fn from_token(token: &str) -> (found: Option<BindingKind>)
        ensures
            found == Self::of_token(token@),
    {
        if str_eq(token, "BUFFER") {
            Some(BindingKind::Buffer)
        } else if str_eq(token, "SAMPLER") {
            Some(BindingKind::Sampler)
        } else if str_eq(token, "TEXTURE") {
            Some(BindingKind::Texture)
        } else if str_eq(token, "STORAGE_TEXTURE") {
            Some(BindingKind::StorageTexture)
        } else if str_eq(token, "ACCELERATION_STRUCTURE") {
            Some(BindingKind::AccelerationStructure)
        } else {
            None
        }
    }
}

impl BindingType {
    /// The name of the type.
    pub open spec fn spec_kind(self) -> BindingKind {
        match self {
            BindingType::Buffer { .. } => BindingKind::Buffer,
            BindingType::Sampler(_) => BindingKind::Sampler,
            BindingType::Texture { .. } => BindingKind::Texture,
            BindingType::StorageTexture { .. } => BindingKind::StorageTexture,
            BindingType::AccelerationStructure { .. } => BindingKind::AccelerationStructure,
        }
    }

    /// The name of the type.
    pub fn kind(&self) -> (kind: BindingKind)
        ensures
            kind == self.spec_kind(),
    {
        match self {
            BindingType::Buffer { .. } => BindingKind::Buffer,
            BindingType::Sampler(_) => BindingKind::Sampler,
            BindingType::Texture { .. } => BindingKind::Texture,
            BindingType::StorageTexture { .. } => BindingKind::StorageTexture,
            BindingType::AccelerationStructure { .. } => BindingKind::AccelerationStructure,
        }
    }
}

} // verus!
