use vstd::prelude::*;

use crate::error::ShameToSdlError;

verus! {

// ---------------------------------------------------------------------------
// Abstract enumerations: the fields of a pipeline description, as the
// encoding front end states them.
// ---------------------------------------------------------------------------

/// How vertices of a draw call are indexed.
#[derive(Clone, Copy, Debug, PartialEq, Eq, Structural)]
pub enum Indexing {
    /// No index buffer: vertices are drawn in order.
    Incremental,
    /// An index buffer of 8 bit indices.
    BufferU8,
    /// An index buffer of 16 bit indices.
    BufferU16,
    /// An index buffer of 32 bit indices.
    BufferU32,
}

/// The format of one vertex attribute.
#[derive(Clone, Copy, Debug, PartialEq, Eq, Structural)]
pub enum VertexAttribFormat {
    F16x2,
    F16x4,
    F32,
    F32x2,
    F32x3,
    F32x4,
    F64,
    F64x2,
    F64x3,
    F64x4,
    I8x2,
    I8x4,
    I16x2,
    I16x4,
    I32,
    I32x2,
    I32x3,
    I32x4,
    U8x2,
    U8x4,
    U16x2,
    U16x4,
    U32,
    U32x2,
    U32x3,
    U32x4,
    Snorm8x2,
    Snorm8x4,
    Snorm16x2,
    Snorm16x4,
    Unorm8x2,
    Unorm8x4,
    Unorm16x2,
    Unorm16x4,
}

/// A set of shader stages.
#[derive(Clone, Copy, Debug, PartialEq, Eq, Structural)]
pub struct StageMask {
    pub vertex: bool,
    pub fragment: bool,
    pub compute: bool,
}

/// A depth or stencil compare test.
#[derive(Clone, Copy, Debug, PartialEq, Eq, Structural)]
pub enum Test {
    Never,
    Less,
    Equal,
    LessEqual,
    Greater,
    NotEqual,
    GreaterEqual,
    Always,
}

/// The format of a color or depth/stencil surface, as a description states it.
#[derive(Clone, Copy, Debug, PartialEq, Eq, Structural)]
pub enum SurfaceFormat {
    Rgba8Unorm,
    Rgba8UnormSrgb,
    Bgra8Unorm,
    Bgra8UnormSrgb,
    Rgba16Float,
    Rgb10a2Unorm,
    Rgb9e5Ufloat,
    Depth24PlusStencil8,
    Depth32Float,
}

// ---------------------------------------------------------------------------
// Backend enumerations: the values the backend's create calls take. These
// mirror the backend's own enumerations one for one; the thin outer layer
// that issues the create calls converts them by name.
// ---------------------------------------------------------------------------

/// Backend: width of the elements of an index buffer.
#[derive(Clone, Copy, Debug, PartialEq, Eq, Structural)]
pub enum IndexElementSize {
    Sixteen,
    ThirtyTwo,
}

/// Backend: format of one vertex attribute.
#[derive(Clone, Copy, Debug, PartialEq, Eq, Structural)]
pub enum VertexElementFormat {
    Int,
    Int2,
    Int3,
    Int4,
    Uint,
    Uint2,
    Uint3,
    Uint4,
    Float,
    Float2,
    Float3,
    Float4,
    Byte2,
    Byte4,
    Ubyte2,
    Ubyte4,
    Byte2Norm,
    Byte4Norm,
    Ubyte2Norm,
    Ubyte4Norm,
    Short2,
    Short4,
    Ushort2,
    Ushort4,
    Short2Norm,
    Short4Norm,
    Ushort2Norm,
    Ushort4Norm,
    Half2,
    Half4,
}

/// Backend: the single stage a graphics shader object is created for.
#[derive(Clone, Copy, Debug, PartialEq, Eq, Structural)]
pub enum ShaderStage {
    Vertex,
    Fragment,
}

/// Backend: a depth or stencil compare operator. `Invalid` is the backend's
/// disabled/default value and is never the image of a compare test.
#[derive(Clone, Copy, Debug, PartialEq, Eq, Structural)]
pub enum CompareOp {
    Invalid,
    Never,
    Less,
    Equal,
    LessOrEqual,
    Greater,
    NotEqual,
    GreaterOrEqual,
    Always,
}

/// Backend: format of a texture.
#[derive(Clone, Copy, Debug, PartialEq, Eq, Structural)]
pub enum TextureFormat {
    R8g8b8a8Unorm,
    R8g8b8a8UnormSrgb,
    B8g8r8a8Unorm,
    B8g8r8a8UnormSrgb,
    R16g16b16a16Float,
    R10g10b10a2Unorm,
    D24UnormS8Uint,
    D32Float,
}

// ---------------------------------------------------------------------------
// Mapping tables: pure, total functions from the abstract enumerations to the
// backend ones, or to a named unsupported error carrying the abstract value.
// ---------------------------------------------------------------------------

/// What [`map_index_format`] returns: `Ok(None)` for non-indexed drawing,
/// `Ok(Some(..))` for an index buffer width the backend has, and the
/// unsupported error otherwise.
pub open spec fn spec_map_index_format(i: Indexing) -> Result<
    Option<IndexElementSize>,
    ShameToSdlError,
> {
    match i {
        Indexing::Incremental => Ok(None),
        Indexing::BufferU8 => Err(ShameToSdlError::UnsupportedIndexBufferFormat(i)),
        Indexing::BufferU16 => Ok(Some(IndexElementSize::Sixteen)),
        Indexing::BufferU32 => Ok(Some(IndexElementSize::ThirtyTwo)),
    }
}

/// Maps a vertex indexing mode to the backend's index buffer element size.
pub fn map_index_format(i: Indexing) -> (r: Result<Option<IndexElementSize>, ShameToSdlError>)
    ensures
        r == spec_map_index_format(i),
{
    match i {
        Indexing::Incremental => Ok(None),
        Indexing::BufferU8 => Err(ShameToSdlError::UnsupportedIndexBufferFormat(i)),
        Indexing::BufferU16 => Ok(Some(IndexElementSize::Sixteen)),
        Indexing::BufferU32 => Ok(Some(IndexElementSize::ThirtyTwo)),
    }
}

/// What [`map_vertex_attrib_format`] returns. The 64 bit float formats have
/// no backend counterpart.
pub open spec fn spec_map_vertex_attrib_format(f: VertexAttribFormat) -> Result<
    VertexElementFormat,
    ShameToSdlError,
> {
    match f {
        VertexAttribFormat::F16x2 => Ok(VertexElementFormat::Half2),
        VertexAttribFormat::F16x4 => Ok(VertexElementFormat::Half4),
        VertexAttribFormat::F32 => Ok(VertexElementFormat::Float),
        VertexAttribFormat::F32x2 => Ok(VertexElementFormat::Float2),
        VertexAttribFormat::F32x3 => Ok(VertexElementFormat::Float3),
        VertexAttribFormat::F32x4 => Ok(VertexElementFormat::Float4),
        VertexAttribFormat::F64 => Err(ShameToSdlError::UnsupportedVertexAttribFormat(f)),
        VertexAttribFormat::F64x2 => Err(ShameToSdlError::UnsupportedVertexAttribFormat(f)),
        VertexAttribFormat::F64x3 => Err(ShameToSdlError::UnsupportedVertexAttribFormat(f)),
        VertexAttribFormat::F64x4 => Err(ShameToSdlError::UnsupportedVertexAttribFormat(f)),
        VertexAttribFormat::I8x2 => Ok(VertexElementFormat::Byte2),
        VertexAttribFormat::I8x4 => Ok(VertexElementFormat::Byte4),
        VertexAttribFormat::I16x2 => Ok(VertexElementFormat::Short2),
        VertexAttribFormat::I16x4 => Ok(VertexElementFormat::Short4),
        VertexAttribFormat::I32 => Ok(VertexElementFormat::Int),
        VertexAttribFormat::I32x2 => Ok(VertexElementFormat::Int2),
        VertexAttribFormat::I32x3 => Ok(VertexElementFormat::Int3),
        VertexAttribFormat::I32x4 => Ok(VertexElementFormat::Int4),
        VertexAttribFormat::U8x2 => Ok(VertexElementFormat::Ubyte2),
        VertexAttribFormat::U8x4 => Ok(VertexElementFormat::Ubyte4),
        VertexAttribFormat::U16x2 => Ok(VertexElementFormat::Ushort2),
        VertexAttribFormat::U16x4 => Ok(VertexElementFormat::Ushort4),
        VertexAttribFormat::U32 => Ok(VertexElementFormat::Uint),
        VertexAttribFormat::U32x2 => Ok(VertexElementFormat::Uint2),
        VertexAttribFormat::U32x3 => Ok(VertexElementFormat::Uint3),
        VertexAttribFormat::U32x4 => Ok(VertexElementFormat::Uint4),
        VertexAttribFormat::Snorm8x2 => Ok(VertexElementFormat::Byte2Norm),
        VertexAttribFormat::Snorm8x4 => Ok(VertexElementFormat::Byte4Norm),
        VertexAttribFormat::Snorm16x2 => Ok(VertexElementFormat::Short2Norm),
        VertexAttribFormat::Snorm16x4 => Ok(VertexElementFormat::Short4Norm),
        VertexAttribFormat::Unorm8x2 => Ok(VertexElementFormat::Ubyte2Norm),
        VertexAttribFormat::Unorm8x4 => Ok(VertexElementFormat::Ubyte4Norm),
        VertexAttribFormat::Unorm16x2 => Ok(VertexElementFormat::Ushort2Norm),
        VertexAttribFormat::Unorm16x4 => Ok(VertexElementFormat::Ushort4Norm),
    }
}

/// Maps a vertex attribute format to the backend's vertex element format.
pub fn map_vertex_attrib_format(f: VertexAttribFormat) -> (r: Result<
    VertexElementFormat,
    ShameToSdlError,
>)
    ensures
        r == spec_map_vertex_attrib_format(f),
{
    match f {
        VertexAttribFormat::F16x2 => Ok(VertexElementFormat::Half2),
        VertexAttribFormat::F16x4 => Ok(VertexElementFormat::Half4),
        VertexAttribFormat::F32 => Ok(VertexElementFormat::Float),
        VertexAttribFormat::F32x2 => Ok(VertexElementFormat::Float2),
        VertexAttribFormat::F32x3 => Ok(VertexElementFormat::Float3),
        VertexAttribFormat::F32x4 => Ok(VertexElementFormat::Float4),
        VertexAttribFormat::F64 => Err(ShameToSdlError::UnsupportedVertexAttribFormat(f)),
        VertexAttribFormat::F64x2 => Err(ShameToSdlError::UnsupportedVertexAttribFormat(f)),
        VertexAttribFormat::F64x3 => Err(ShameToSdlError::UnsupportedVertexAttribFormat(f)),
        VertexAttribFormat::F64x4 => Err(ShameToSdlError::UnsupportedVertexAttribFormat(f)),
        VertexAttribFormat::I8x2 => Ok(VertexElementFormat::Byte2),
        VertexAttribFormat::I8x4 => Ok(VertexElementFormat::Byte4),
        VertexAttribFormat::I16x2 => Ok(VertexElementFormat::Short2),
        VertexAttribFormat::I16x4 => Ok(VertexElementFormat::Short4),
        VertexAttribFormat::I32 => Ok(VertexElementFormat::Int),
        VertexAttribFormat::I32x2 => Ok(VertexElementFormat::Int2),
        VertexAttribFormat::I32x3 => Ok(VertexElementFormat::Int3),
        VertexAttribFormat::I32x4 => Ok(VertexElementFormat::Int4),
        VertexAttribFormat::U8x2 => Ok(VertexElementFormat::Ubyte2),
        VertexAttribFormat::U8x4 => Ok(VertexElementFormat::Ubyte4),
        VertexAttribFormat::U16x2 => Ok(VertexElementFormat::Ushort2),
        VertexAttribFormat::U16x4 => Ok(VertexElementFormat::Ushort4),
        VertexAttribFormat::U32 => Ok(VertexElementFormat::Uint),
        VertexAttribFormat::U32x2 => Ok(VertexElementFormat::Uint2),
        VertexAttribFormat::U32x3 => Ok(VertexElementFormat::Uint3),
        VertexAttribFormat::U32x4 => Ok(VertexElementFormat::Uint4),
        VertexAttribFormat::Snorm8x2 => Ok(VertexElementFormat::Byte2Norm),
        VertexAttribFormat::Snorm8x4 => Ok(VertexElementFormat::Byte4Norm),
        VertexAttribFormat::Snorm16x2 => Ok(VertexElementFormat::Short2Norm),
        VertexAttribFormat::Snorm16x4 => Ok(VertexElementFormat::Short4Norm),
        VertexAttribFormat::Unorm8x2 => Ok(VertexElementFormat::Ubyte2Norm),
        VertexAttribFormat::Unorm8x4 => Ok(VertexElementFormat::Ubyte4Norm),
        VertexAttribFormat::Unorm16x2 => Ok(VertexElementFormat::Ushort2Norm),
        VertexAttribFormat::Unorm16x4 => Ok(VertexElementFormat::Ushort4Norm),
    }
}

/// What [`map_shader_stage`] returns: a graphics shader object is created for
/// exactly one stage, and the backend runs only the vertex and fragment
/// stages this way.
pub open spec fn spec_map_shader_stage(m: StageMask) -> Result<ShaderStage, ShameToSdlError> {
    if m.vertex && !m.fragment && !m.compute {
        Ok(ShaderStage::Vertex)
    } else if !m.vertex && m.fragment && !m.compute {
        Ok(ShaderStage::Fragment)
    } else {
        Err(ShameToSdlError::UnsupportedShaderStage(m))
    }
}

/// Maps a stage mask to the backend's shader stage.
pub fn map_shader_stage(m: StageMask) -> (r: Result<ShaderStage, ShameToSdlError>)
    ensures
        r == spec_map_shader_stage(m),
{
    if m.vertex && !m.fragment && !m.compute {
        Ok(ShaderStage::Vertex)
    } else if !m.vertex && m.fragment && !m.compute {
        Ok(ShaderStage::Fragment)
    } else {
        Err(ShameToSdlError::UnsupportedShaderStage(m))
    }
}

/// What [`map_compare_test`] returns: a total, one to one mapping.
pub open spec fn spec_map_compare_test(t: Test) -> CompareOp {
    match t {
        Test::Never => CompareOp::Never,
        Test::Less => CompareOp::Less,
        Test::Equal => CompareOp::Equal,
        Test::LessEqual => CompareOp::LessOrEqual,
        Test::Greater => CompareOp::Greater,
        Test::NotEqual => CompareOp::NotEqual,
        Test::GreaterEqual => CompareOp::GreaterOrEqual,
        Test::Always => CompareOp::Always,
    }
}

/// Maps a depth/stencil compare test to the backend's compare operator.
pub fn map_compare_test(t: Test) -> (r: CompareOp)
    ensures
        r == spec_map_compare_test(t),
{
    match t {
        Test::Never => CompareOp::Never,
        Test::Less => CompareOp::Less,
        Test::Equal => CompareOp::Equal,
        Test::LessEqual => CompareOp::LessOrEqual,
        Test::Greater => CompareOp::Greater,
        Test::NotEqual => CompareOp::NotEqual,
        Test::GreaterEqual => CompareOp::GreaterOrEqual,
        Test::Always => CompareOp::Always,
    }
}

/// What [`reverse_compare_op`] returns: the inverse of the compare test
/// mapping where one is defined; `Invalid` is no test's image.
pub open spec fn spec_reverse_compare_op(op: CompareOp) -> Option<Test> {
    match op {
        CompareOp::Invalid => None,
        CompareOp::Never => Some(Test::Never),
        CompareOp::Less => Some(Test::Less),
        CompareOp::Equal => Some(Test::Equal),
        CompareOp::LessOrEqual => Some(Test::LessEqual),
        CompareOp::Greater => Some(Test::Greater),
        CompareOp::NotEqual => Some(Test::NotEqual),
        CompareOp::GreaterOrEqual => Some(Test::GreaterEqual),
        CompareOp::Always => Some(Test::Always),
    }
}

/// Looks a backend compare operator back up as the compare test it maps from.
pub fn reverse_compare_op(op: CompareOp) -> (r: Option<Test>)
    ensures
        r == spec_reverse_compare_op(op),
{
    match op {
        CompareOp::Invalid => None,
        CompareOp::Never => Some(Test::Never),
        CompareOp::Less => Some(Test::Less),
        CompareOp::Equal => Some(Test::Equal),
        CompareOp::LessOrEqual => Some(Test::LessEqual),
        CompareOp::Greater => Some(Test::Greater),
        CompareOp::NotEqual => Some(Test::NotEqual),
        CompareOp::GreaterOrEqual => Some(Test::GreaterEqual),
        CompareOp::Always => Some(Test::Always),
    }
}

/// What [`map_texture_format`] returns. The shared exponent format has no
/// backend counterpart.
pub open spec fn spec_map_texture_format(f: SurfaceFormat) -> Result<
    TextureFormat,
    ShameToSdlError,
> {
    match f {
        SurfaceFormat::Rgba8Unorm => Ok(TextureFormat::R8g8b8a8Unorm),
        SurfaceFormat::Rgba8UnormSrgb => Ok(TextureFormat::R8g8b8a8UnormSrgb),
        SurfaceFormat::Bgra8Unorm => Ok(TextureFormat::B8g8r8a8Unorm),
        SurfaceFormat::Bgra8UnormSrgb => Ok(TextureFormat::B8g8r8a8UnormSrgb),
        SurfaceFormat::Rgba16Float => Ok(TextureFormat::R16g16b16a16Float),
        SurfaceFormat::Rgb10a2Unorm => Ok(TextureFormat::R10g10b10a2Unorm),
        SurfaceFormat::Rgb9e5Ufloat => Err(ShameToSdlError::UnsupportedTextureFormat(f)),
        SurfaceFormat::Depth24PlusStencil8 => Ok(TextureFormat::D24UnormS8Uint),
        SurfaceFormat::Depth32Float => Ok(TextureFormat::D32Float),
    }
}

/// Maps a surface format to the backend's texture format.
pub fn map_texture_format(f: SurfaceFormat) -> (r: Result<TextureFormat, ShameToSdlError>)
    ensures
        r == spec_map_texture_format(f),
{
    match f {
        SurfaceFormat::Rgba8Unorm => Ok(TextureFormat::R8g8b8a8Unorm),
        SurfaceFormat::Rgba8UnormSrgb => Ok(TextureFormat::R8g8b8a8UnormSrgb),
        SurfaceFormat::Bgra8Unorm => Ok(TextureFormat::B8g8r8a8Unorm),
        SurfaceFormat::Bgra8UnormSrgb => Ok(TextureFormat::B8g8r8a8UnormSrgb),
        SurfaceFormat::Rgba16Float => Ok(TextureFormat::R16g16b16a16Float),
        SurfaceFormat::Rgb10a2Unorm => Ok(TextureFormat::R10g10b10a2Unorm),
        SurfaceFormat::Rgb9e5Ufloat => Err(ShameToSdlError::UnsupportedTextureFormat(f)),
        SurfaceFormat::Depth24PlusStencil8 => Ok(TextureFormat::D24UnormS8Uint),
        SurfaceFormat::Depth32Float => Ok(TextureFormat::D32Float),
    }
}

/// Law: the compare test mapping is total by its type, and it is one to one:
/// looking the mapped operator back up returns the test it came from, so no
/// two tests share an operator.
pub proof fn lemma_compare_test_mapping_injective()
    ensures
        forall|t: Test| spec_reverse_compare_op(spec_map_compare_test(t)) == Some(t),
        forall|t1: Test, t2: Test|
            spec_map_compare_test(t1) == spec_map_compare_test(t2) ==> t1 == t2,
{
    assert forall|t: Test| spec_reverse_compare_op(spec_map_compare_test(t)) == Some(t) by {
        match t {
            Test::Never => {},
            Test::Less => {},
            Test::Equal => {},
            Test::LessEqual => {},
            Test::Greater => {},
            Test::NotEqual => {},
            Test::GreaterEqual => {},
            Test::Always => {},
        }
    }
}

} // verus!
