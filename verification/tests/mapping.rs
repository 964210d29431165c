use shame_sdl3::error::ShameToSdlError;
use shame_sdl3::formats::{
    map_compare_test, map_index_format, map_shader_stage, map_texture_format,
    map_vertex_attrib_format, reverse_compare_op, CompareOp, IndexElementSize, Indexing,
    ShaderStage, StageMask, SurfaceFormat, Test, TextureFormat, VertexAttribFormat,
    VertexElementFormat,
};

const ALL_TESTS: [Test; 8] = [
    Test::Never,
    Test::Less,
    Test::Equal,
    Test::LessEqual,
    Test::Greater,
    Test::NotEqual,
    Test::GreaterEqual,
    Test::Always,
];

#[test]
fn index_format_table_is_exhaustive() {
    assert_eq!(map_index_format(Indexing::Incremental), Ok(None));
    assert_eq!(
        map_index_format(Indexing::BufferU16),
        Ok(Some(IndexElementSize::Sixteen))
    );
    assert_eq!(
        map_index_format(Indexing::BufferU32),
        Ok(Some(IndexElementSize::ThirtyTwo))
    );
    assert_eq!(
        map_index_format(Indexing::BufferU8),
        Err(ShameToSdlError::UnsupportedIndexBufferFormat(Indexing::BufferU8))
    );
}

#[test]
fn compare_test_mapping_is_total_and_round_trips() {
    for t in ALL_TESTS {
        let op = map_compare_test(t);
        assert_ne!(op, CompareOp::Invalid);
        assert_eq!(reverse_compare_op(op), Some(t));
    }
}

#[test]
fn compare_test_mapping_is_injective() {
    for a in ALL_TESTS {
        for b in ALL_TESTS {
            if a != b {
                assert_ne!(map_compare_test(a), map_compare_test(b));
            }
        }
    }
}

#[test]
fn compare_test_expected_values() {
    assert_eq!(map_compare_test(Test::Never), CompareOp::Never);
    assert_eq!(map_compare_test(Test::Less), CompareOp::Less);
    assert_eq!(map_compare_test(Test::Equal), CompareOp::Equal);
    assert_eq!(map_compare_test(Test::LessEqual), CompareOp::LessOrEqual);
    assert_eq!(map_compare_test(Test::Greater), CompareOp::Greater);
    assert_eq!(map_compare_test(Test::NotEqual), CompareOp::NotEqual);
    assert_eq!(map_compare_test(Test::GreaterEqual), CompareOp::GreaterOrEqual);
    assert_eq!(map_compare_test(Test::Always), CompareOp::Always);
}

#[test]
fn invalid_compare_op_has_no_preimage() {
    assert_eq!(reverse_compare_op(CompareOp::Invalid), None);
}

#[test]
fn stage_mask_table_is_exhaustive() {
    for vertex in [false, true] {
        for fragment in [false, true] {
            for compute in [false, true] {
                let m = StageMask { vertex, fragment, compute };
                let r = map_shader_stage(m);
                if vertex && !fragment && !compute {
                    assert_eq!(r, Ok(ShaderStage::Vertex));
                } else if !vertex && fragment && !compute {
                    assert_eq!(r, Ok(ShaderStage::Fragment));
                } else {
                    assert_eq!(r, Err(ShameToSdlError::UnsupportedShaderStage(m)));
                }
            }
        }
    }
}

#[test]
fn texture_format_table_is_exhaustive() {
    assert_eq!(
        map_texture_format(SurfaceFormat::Rgba8Unorm),
        Ok(TextureFormat::R8g8b8a8Unorm)
    );
    assert_eq!(
        map_texture_format(SurfaceFormat::Rgba8UnormSrgb),
        Ok(TextureFormat::R8g8b8a8UnormSrgb)
    );
    assert_eq!(
        map_texture_format(SurfaceFormat::Bgra8Unorm),
        Ok(TextureFormat::B8g8r8a8Unorm)
    );
    assert_eq!(
        map_texture_format(SurfaceFormat::Bgra8UnormSrgb),
        Ok(TextureFormat::B8g8r8a8UnormSrgb)
    );
    assert_eq!(
        map_texture_format(SurfaceFormat::Rgba16Float),
        Ok(TextureFormat::R16g16b16a16Float)
    );
    assert_eq!(
        map_texture_format(SurfaceFormat::Rgb10a2Unorm),
        Ok(TextureFormat::R10g10b10a2Unorm)
    );
    assert_eq!(
        map_texture_format(SurfaceFormat::Depth24PlusStencil8),
        Ok(TextureFormat::D24UnormS8Uint)
    );
    assert_eq!(
        map_texture_format(SurfaceFormat::Depth32Float),
        Ok(TextureFormat::D32Float)
    );
    assert_eq!(
        map_texture_format(SurfaceFormat::Rgb9e5Ufloat),
        Err(ShameToSdlError::UnsupportedTextureFormat(SurfaceFormat::Rgb9e5Ufloat))
    );
}

#[test]
fn vertex_attrib_format_table_is_exhaustive() {
    let supported = [
        (VertexAttribFormat::F16x2, VertexElementFormat::Half2),
        (VertexAttribFormat::F16x4, VertexElementFormat::Half4),
        (VertexAttribFormat::F32, VertexElementFormat::Float),
        (VertexAttribFormat::F32x2, VertexElementFormat::Float2),
        (VertexAttribFormat::F32x3, VertexElementFormat::Float3),
        (VertexAttribFormat::F32x4, VertexElementFormat::Float4),
        (VertexAttribFormat::I8x2, VertexElementFormat::Byte2),
        (VertexAttribFormat::I8x4, VertexElementFormat::Byte4),
        (VertexAttribFormat::I16x2, VertexElementFormat::Short2),
        (VertexAttribFormat::I16x4, VertexElementFormat::Short4),
        (VertexAttribFormat::I32, VertexElementFormat::Int),
        (VertexAttribFormat::I32x2, VertexElementFormat::Int2),
        (VertexAttribFormat::I32x3, VertexElementFormat::Int3),
        (VertexAttribFormat::I32x4, VertexElementFormat::Int4),
        (VertexAttribFormat::U8x2, VertexElementFormat::Ubyte2),
        (VertexAttribFormat::U8x4, VertexElementFormat::Ubyte4),
        (VertexAttribFormat::U16x2, VertexElementFormat::Ushort2),
        (VertexAttribFormat::U16x4, VertexElementFormat::Ushort4),
        (VertexAttribFormat::U32, VertexElementFormat::Uint),
        (VertexAttribFormat::U32x2, VertexElementFormat::Uint2),
        (VertexAttribFormat::U32x3, VertexElementFormat::Uint3),
        (VertexAttribFormat::U32x4, VertexElementFormat::Uint4),
        (VertexAttribFormat::Snorm8x2, VertexElementFormat::Byte2Norm),
        (VertexAttribFormat::Snorm8x4, VertexElementFormat::Byte4Norm),
        (VertexAttribFormat::Snorm16x2, VertexElementFormat::Short2Norm),
        (VertexAttribFormat::Snorm16x4, VertexElementFormat::Short4Norm),
        (VertexAttribFormat::Unorm8x2, VertexElementFormat::Ubyte2Norm),
        (VertexAttribFormat::Unorm8x4, VertexElementFormat::Ubyte4Norm),
        (VertexAttribFormat::Unorm16x2, VertexElementFormat::Ushort2Norm),
        (VertexAttribFormat::Unorm16x4, VertexElementFormat::Ushort4Norm),
    ];
    for (abstract_format, backend_format) in supported {
        assert_eq!(map_vertex_attrib_format(abstract_format), Ok(backend_format));
    }
    let unsupported = [
        VertexAttribFormat::F64,
        VertexAttribFormat::F64x2,
        VertexAttribFormat::F64x3,
        VertexAttribFormat::F64x4,
    ];
    for f in unsupported {
        assert_eq!(
            map_vertex_attrib_format(f),
            Err(ShameToSdlError::UnsupportedVertexAttribFormat(f))
        );
    }
}
