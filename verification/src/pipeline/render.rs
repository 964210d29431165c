use vstd::prelude::*;

use super::{DepthStencilState, PipelineDescription, PipelineEncoder, Render, RenderDescription};
use crate::error::{EncodingError, Error, IndexedResourceKind, ShameToSdlError};
use crate::formats::{
    map_index_format, map_texture_format, map_vertex_attrib_format, spec_map_compare_test,
    spec_map_index_format, spec_map_texture_format, spec_map_vertex_attrib_format, CompareOp,
    IndexElementSize, ShaderStage, SurfaceFormat, TextureFormat, VertexAttribFormat,
    VertexElementFormat,
};
use crate::shader::{
    code_to_spv, spv_words, translates, wgsl_parse_ok, wgsl_valid, CompiledShaderBinary,
};
use crate::Gpu;

verus! {

/// The parameters of one backend create-shader call: the compiled binary,
/// its entry point, and the single stage the shader object is created for.
#[derive(Clone, Debug)]
pub struct Shader {
    pub binary: CompiledShaderBinary,
    pub stage: ShaderStage,
}

/// Backend: the depth/stencil block of a graphics pipeline create call.
#[derive(Clone, Copy, Debug, PartialEq, Eq, Structural)]
pub struct DepthStencilStateInfo {
    pub enable_depth_test: bool,
    pub compare_op: CompareOp,
    pub enable_depth_write: bool,
    pub write_mask: u8,
}

/// Backend: how vertices are assembled into primitives. Fixed policy in this
/// version: every pipeline uses the triangle list; an extension point, not a
/// description field.
#[derive(Clone, Copy, Debug, PartialEq, Eq, Structural)]
pub enum PrimitiveType {
    TriangleList,
}

/// Backend: how primitives are rasterized. Fixed policy in this version:
/// solid fill.
#[derive(Clone, Copy, Debug, PartialEq, Eq, Structural)]
pub enum FillMode {
    Fill,
}

/// The parameters of one backend create-graphics-pipeline call, assembled
/// from a validated description. The caller owns it; the translation layer
/// keeps no reference.
#[derive(Clone, Debug)]
pub struct GraphicsPipeline {
    pub vertex_shader: Shader,
    pub fragment_shader: Shader,
    pub depth_stencil_state: DepthStencilStateInfo,
    /// One entry per declared color target, each the mapped runtime surface
    /// format.
    pub color_target_formats: Vec<TextureFormat>,
    /// The mapped vertex attribute formats, in location order.
    pub vertex_attributes: Vec<VertexElementFormat>,
    /// The index buffer element size, or `None` for non-indexed drawing.
    pub index_element_size: Option<IndexElementSize>,
    pub primitive_type: PrimitiveType,
    pub fill_mode: FillMode,
}

/// Whether a sequence of resource indices is exactly `0, 1, 2, ...`: starts
/// at zero and is consecutive without gaps.
pub open spec fn spec_indices_from_zero(s: Seq<u32>) -> bool {
    forall|i: int| 0 <= i < s.len() ==> s[i] as int == i
}

/// The index rule an indexed resource collection breaks, if any: its first
/// index must be zero, and its indices must be consecutive.
pub open spec fn spec_index_rule_error(kind: IndexedResourceKind, s: Seq<u32>) -> Option<
    ShameToSdlError,
> {
    if s.len() > 0 && s[0] != 0 {
        Some(ShameToSdlError::MustStartAtIndexZero(kind, s[0]))
    } else if !spec_indices_from_zero(s) {
        Some(ShameToSdlError::MustHaveConsecutiveIndices(kind))
    } else {
        None
    }
}

/// Checks the backend's index rules over one indexed resource collection:
/// the first index must be zero, and the indices must be consecutive
/// without gaps.
pub fn check_indices(kind: IndexedResourceKind, indices: &Vec<u32>) -> (r: Result<
    (),
    ShameToSdlError,
>)
    ensures
        r is Ok <==> spec_index_rule_error(kind, indices@) is None,
        r matches Err(e) ==> spec_index_rule_error(kind, indices@) == Some(e),
{
    if indices.len() == 0 {
        return Ok(());
    }
    let first = indices[0];
    if first != 0 {
        return Err(ShameToSdlError::MustStartAtIndexZero(kind, first));
    }
    let mut i: usize = 1;
    while i < indices.len()
        invariant
            1 <= i <= indices@.len(),
            indices@.len() > 0,
            indices@[0] == 0,
            forall|j: int| 0 <= j < i ==> indices@[j] as int == j,
        decreases indices@.len() - i,
    {
        if indices[i] as usize != i {
            return Err(ShameToSdlError::MustHaveConsecutiveIndices(kind));
        }
        i += 1;
    }
    Ok(())
}

/// The first vertex attribute format, from `i` on, that the mapping table
/// refuses.
pub open spec fn spec_first_bad_attrib_from(s: Seq<VertexAttribFormat>, i: int) -> Option<
    VertexAttribFormat,
>
    decreases s.len() - i,
{
    if i < 0 || i >= s.len() {
        None
    } else if spec_map_vertex_attrib_format(s[i]) is Err {
        Some(s[i])
    } else {
        spec_first_bad_attrib_from(s, i + 1)
    }
}

/// The first vertex attribute format that the mapping table refuses, if any.
pub open spec fn spec_first_bad_attrib(s: Seq<VertexAttribFormat>) -> Option<VertexAttribFormat> {
    spec_first_bad_attrib_from(s, 0)
}

/// Maps every vertex attribute format through the table, or reports the
/// first one the table refuses.
fn map_vertex_attribs(attribs: &Vec<VertexAttribFormat>) -> (r: Result<
    Vec<VertexElementFormat>,
    ShameToSdlError,
>)
    ensures
        r is Ok <==> spec_first_bad_attrib(attribs@) is None,
        r matches Ok(out) ==> out@.len() == attribs@.len() && (forall|j: int|
            0 <= j < attribs@.len() ==> spec_map_vertex_attrib_format(attribs@[j]) == Ok::<
                VertexElementFormat,
                ShameToSdlError,
            >(out@[j])),
        r matches Err(e) ==> (spec_first_bad_attrib(attribs@) matches Some(f) && e
            == ShameToSdlError::UnsupportedVertexAttribFormat(f)),
{
    let mut out: Vec<VertexElementFormat> = Vec::new();
    let mut i: usize = 0;
    while i < attribs.len()
        invariant
            0 <= i <= attribs@.len(),
            out@.len() == i,
            forall|j: int|
                0 <= j < i ==> spec_map_vertex_attrib_format(attribs@[j]) == Ok::<
                    VertexElementFormat,
                    ShameToSdlError,
                >(out@[j]),
            spec_first_bad_attrib(attribs@) == spec_first_bad_attrib_from(attribs@, i as int),
        decreases attribs@.len() - i,
    {
        match map_vertex_attrib_format(attribs[i]) {
            Ok(v) => {
                out.push(v);
            },
            Err(e) => {
                return Err(e);
            },
        }
        i += 1;
    }
    Ok(out)
}

/// The backend depth/stencil block a description's optional test state maps
/// to: a disabled default block when the state is absent, else depth testing
/// enabled with the mapped compare operator, the description's write flag,
/// and the low eight bits of the stencil write mask.
pub open spec fn spec_depth_stencil_info(ds: Option<DepthStencilState>) -> DepthStencilStateInfo {
    match ds {
        Some(s) => DepthStencilStateInfo {
            enable_depth_test: true,
            compare_op: spec_map_compare_test(s.depth_compare),
            enable_depth_write: s.depth_write_enabled,
            write_mask: (s.stencil_write_mask & 0xff) as u8,
        },
        None => DepthStencilStateInfo {
            enable_depth_test: false,
            compare_op: CompareOp::Invalid,
            enable_depth_write: false,
            write_mask: 0u8,
        },
    }
}

/// Builds the backend depth/stencil block from the description's optional
/// test state.
fn build_depth_stencil_info(ds: &Option<DepthStencilState>) -> (r: DepthStencilStateInfo)
    ensures
        r == spec_depth_stencil_info(*ds),
{
    match ds {
        Some(s) => {
            let mask: u32 = s.stencil_write_mask;
            let mask_low = mask & 0xff;
            assert(mask & 0xff <= 0xff) by (bit_vector);
            DepthStencilStateInfo {
                enable_depth_test: true,
                compare_op: crate::formats::map_compare_test(s.depth_compare),
                enable_depth_write: s.depth_write_enabled,
                write_mask: mask_low as u8,
            }
        },
        None => DepthStencilStateInfo {
            enable_depth_test: false,
            compare_op: CompareOp::Invalid,
            enable_depth_write: false,
            write_mask: 0u8,
        },
    }
}

/// A vector holding `n` copies of one backend texture format.
fn fill_formats(tf: TextureFormat, n: usize) -> (r: Vec<TextureFormat>)
    ensures
        r@.len() == n,
        forall|j: int| 0 <= j < n ==> r@[j] == tf,
{
    let mut out: Vec<TextureFormat> = Vec::new();
    let mut i: usize = 0;
    while i < n
        invariant
            0 <= i <= n,
            out@.len() == i,
            forall|j: int| 0 <= j < i ==> out@[j] == tf,
        decreases n - i,
    {
        out.push(tf);
        i += 1;
    }
    out
}

/// A copy of a compiled binary's instruction words, for the shared
/// compilation path.
fn copy_words(words: &Vec<u32>) -> (r: Vec<u32>)
    ensures
        r@ == words@,
{
    let mut out: Vec<u32> = Vec::new();
    let mut i: usize = 0;
    while i < words.len()
        invariant
            0 <= i <= words@.len(),
            out@ == words@.subrange(0, i as int),
        decreases words@.len() - i,
    {
        out.push(words[i]);
        assert(out@ =~= words@.subrange(0, i + 1 as int));
        i += 1;
    }
    assert(out@ =~= words@);
    out
}

/// Whether a render description declares interaction with at least one
/// color or depth/stencil attachment.
pub open spec fn spec_has_attachment_interaction(d: RenderDescription) -> bool {
    d.color_attachments@.len() > 0 || d.depth_stencil_attachment
}

/// The structural or mapping error a render description fails with before
/// any shader compilation is attempted, if any, in check order: attachment
/// interaction, color target index rules, index buffer format, vertex
/// attribute formats, then the runtime surface format where color targets
/// are required.
pub open spec fn spec_structural_error(d: RenderDescription, sf: Option<SurfaceFormat>) -> Option<
    ShameToSdlError,
> {
    if !spec_has_attachment_interaction(d) {
        Some(ShameToSdlError::FragmentStageNeedsAttachmentInteraction)
    } else if spec_index_rule_error(IndexedResourceKind::ColorTarget, d.color_attachments@)
        is Some {
        spec_index_rule_error(IndexedResourceKind::ColorTarget, d.color_attachments@)
    } else {
        match spec_map_index_format(d.vertex_indexing) {
            Err(e) => Some(e),
            Ok(_) => match spec_first_bad_attrib(d.vertex_attribs@) {
                Some(f) => Some(ShameToSdlError::UnsupportedVertexAttribFormat(f)),
                None => {
                    if d.color_attachments@.len() > 0 {
                        match sf {
                            None => Some(ShameToSdlError::RuntimeSurfaceFormatNotProvided),
                            Some(f) => match spec_map_texture_format(f) {
                                Err(e) => Some(e),
                                Ok(_) => None,
                            },
                        }
                    } else {
                        None
                    }
                },
            },
        }
    }
}

/// What a successfully assembled graphics pipeline holds for its
/// description: each stage's independently specified compilation result and
/// entry point, the stage tag of its own stage, the mapped depth/stencil
/// block, one mapped color target per declared attachment, the mapped vertex
/// layout, and the fixed primitive policy.
pub open spec fn render_assembly_ok(
    d: RenderDescription,
    sf: Option<SurfaceFormat>,
    g: GraphicsPipeline,
) -> bool {
    &&& g.vertex_shader.binary.words@ == spv_words(d.vert_code.source())
    &&& g.vertex_shader.binary.entry_point@ == d.vert_entry_point@
    &&& g.vertex_shader.stage == ShaderStage::Vertex
    &&& g.fragment_shader.binary.words@ == spv_words(d.frag_code.source())
    &&& g.fragment_shader.binary.entry_point@ == d.frag_entry_point@
    &&& g.fragment_shader.stage == ShaderStage::Fragment
    &&& g.depth_stencil_state == spec_depth_stencil_info(d.depth_stencil)
    &&& spec_map_index_format(d.vertex_indexing) == Ok::<
        Option<IndexElementSize>,
        ShameToSdlError,
    >(g.index_element_size)
    &&& g.vertex_attributes@.len() == d.vertex_attribs@.len()
    &&& forall|j: int|
        0 <= j < d.vertex_attribs@.len() ==> spec_map_vertex_attrib_format(d.vertex_attribs@[j])
            == Ok::<VertexElementFormat, ShameToSdlError>(g.vertex_attributes@[j])
    &&& g.color_target_formats@.len() == d.color_attachments@.len()
    &&& forall|j: int|
        0 <= j < d.color_attachments@.len() ==> (sf matches Some(f) && spec_map_texture_format(f)
            == Ok::<TextureFormat, ShameToSdlError>(#[trigger] g.color_target_formats@[j]))
    &&& g.primitive_type == PrimitiveType::TriangleList
    &&& g.fill_mode == FillMode::Fill
}

/// What assembling a render description yields: the structural or mapping
/// error where one holds; else success exactly when both stages translate,
/// the assembled pipeline as `render_assembly_ok` states it, and on a
/// translation failure the failing step's error kind, vertex stage first.
pub open spec fn render_assembly_post(
    d: RenderDescription,
    sf: Option<SurfaceFormat>,
    r: Result<GraphicsPipeline, Error>,
) -> bool {
    &&& (spec_structural_error(d, sf) matches Some(e) ==> (r matches Err(err) && err
        == Error::ShameToSdl(e)))
    &&& spec_structural_error(d, sf) is None ==> {
        &&& (r is Ok <==> translates(d.vert_code.source()) && translates(d.frag_code.source()))
        &&& (r matches Ok(g) ==> render_assembly_ok(d, sf, g))
        &&& (!wgsl_parse_ok(d.vert_code.source()) ==> (r matches Err(e) && e is WgslParse))
        &&& (wgsl_parse_ok(d.vert_code.source()) && !wgsl_valid(d.vert_code.source()) ==> (
        r matches Err(e) && e is WgslValidation))
        &&& (wgsl_parse_ok(d.vert_code.source()) && wgsl_valid(d.vert_code.source()) && !translates(
            d.vert_code.source(),
        ) ==> (r matches Err(e) && e is SpvError))
        &&& (translates(d.vert_code.source()) && !wgsl_parse_ok(d.frag_code.source()) ==> (
        r matches Err(e) && e is WgslParse))
        &&& (translates(d.vert_code.source()) && wgsl_parse_ok(d.frag_code.source()) && !wgsl_valid(
            d.frag_code.source(),
        ) ==> (r matches Err(e) && e is WgslValidation))
        &&& (translates(d.vert_code.source()) && wgsl_parse_ok(d.frag_code.source()) && wgsl_valid(
            d.frag_code.source(),
        ) && !translates(d.frag_code.source()) ==> (r matches Err(e) && e is SpvError))
    }
}

/// Assembles a finished render description into the parameters of one
/// backend create-graphics-pipeline call.
///
/// The cheap checks run first, in the order `spec_structural_error` states,
/// and shader compilation is attempted only after all of them pass. When
/// both stages carry the same source text the module is compiled once and
/// the fragment stage receives a copy of the vertex stage's words — by the
/// translator's contract, byte-identical to compiling the stage
/// independently. The fragment shader is tagged with its own stage, never
/// with the vertex stage's tag.
pub fn render_pipeline(pdef: &RenderDescription, surface_format: Option<SurfaceFormat>) -> (r:
    Result<GraphicsPipeline, Error>)
    ensures
        render_assembly_post(*pdef, surface_format, r),
{
    if pdef.color_attachments.len() == 0 && !pdef.depth_stencil_attachment {
        return Err(Error::ShameToSdl(ShameToSdlError::FragmentStageNeedsAttachmentInteraction));
    }
    match check_indices(IndexedResourceKind::ColorTarget, &pdef.color_attachments) {
        Ok(_) => {},
        Err(e) => {
            return Err(Error::ShameToSdl(e));
        },
    }
    let index_element_size = match map_index_format(pdef.vertex_indexing) {
        Ok(s) => s,
        Err(e) => {
            return Err(Error::ShameToSdl(e));
        },
    };
    let vertex_attributes = match map_vertex_attribs(&pdef.vertex_attribs) {
        Ok(v) => v,
        Err(e) => {
            return Err(Error::ShameToSdl(e));
        },
    };
    let color_target_formats = if pdef.color_attachments.len() > 0 {
        match surface_format {
            None => {
                return Err(Error::ShameToSdl(ShameToSdlError::RuntimeSurfaceFormatNotProvided));
            },
            Some(f) => match map_texture_format(f) {
                Ok(tf) => fill_formats(tf, pdef.color_attachments.len()),
                Err(e) => {
                    return Err(Error::ShameToSdl(e));
                },
            },
        }
    } else {
        Vec::new()
    };
    let depth_stencil_state = build_depth_stencil_info(&pdef.depth_stencil);
    let vertex_shader = match create_shader(
        &pdef.vert_code,
        pdef.vert_entry_point.as_str(),
        ShaderStage::Vertex,
    ) {
        Ok(s) => s,
        Err(e) => {
            return Err(e);
        },
    };
    let fragment_shader = if pdef.vert_code.same_source(&pdef.frag_code) {
        Shader {
            binary: CompiledShaderBinary {
                words: copy_words(&vertex_shader.binary.words),
                entry_point: pdef.frag_entry_point.clone(),
            },
            stage: ShaderStage::Fragment,
        }
    } else {
        match create_shader(&pdef.frag_code, pdef.frag_entry_point.as_str(), ShaderStage::Fragment) {
            Ok(s) => s,
            Err(e) => {
                return Err(e);
            },
        }
    };
    Ok(
        GraphicsPipeline {
            vertex_shader,
            fragment_shader,
            depth_stencil_state,
            color_target_formats,
            vertex_attributes,
            index_element_size,
            primitive_type: PrimitiveType::TriangleList,
            fill_mode: FillMode::Fill,
        },
    )
}

/// Compiles one stage's code and pairs the binary with the entry point and
/// the stage the shader object is created for.
pub fn create_shader(code: &crate::shader::ShaderStageCode, entry: &str, shader_stage: ShaderStage)
    -> (r: Result<Shader, Error>)
    ensures
        r is Ok <==> translates(code.source()),
        r matches Ok(s) ==> s.binary.words@ == spv_words(code.source())
            && s.binary.entry_point@ == entry@ && s.stage == shader_stage,
        !wgsl_parse_ok(code.source()) ==> (r matches Err(e) && e is WgslParse),
        wgsl_parse_ok(code.source()) && !wgsl_valid(code.source()) ==> (r matches Err(e)
            && e is WgslValidation),
        wgsl_parse_ok(code.source()) && wgsl_valid(code.source()) && !translates(code.source())
            ==> (r matches Err(e) && e is SpvError),
{
    let words = match code_to_spv(code) {
        Ok(w) => w,
        Err(e) => {
            return Err(e);
        },
    };
    Ok(
        Shader {
            binary: CompiledShaderBinary { words, entry_point: entry.to_owned() },
            stage: shader_stage,
        },
    )
}

/// Law: when vertex and fragment stage share one source text, the shared
/// compilation path hands both stage objects the same bytes, and those bytes
/// are exactly the words that compiling either stage independently yields.
pub proof fn lemma_shared_compilation_byte_identical(
    pdef: RenderDescription,
    sf: Option<SurfaceFormat>,
    g: GraphicsPipeline,
)
    requires
        pdef.vert_code.source() == pdef.frag_code.source(),
        render_assembly_ok(pdef, sf, g),
    ensures
        g.vertex_shader.binary.words@ == g.fragment_shader.binary.words@,
        g.vertex_shader.binary.words@ == spv_words(pdef.vert_code.source()),
        g.fragment_shader.binary.words@ == spv_words(pdef.frag_code.source()),
{
}

impl PipelineEncoder<Render> {
    /// Records a render pipeline description in this session, replacing any
    /// earlier one.
    pub fn new_render_pipeline(&mut self, pdef: RenderDescription)
        ensures
            final(self).recorded() == Some(PipelineDescription::Render(pdef)),
            final(self).options() == old(self).options(),
            final(self).surface_format() == old(self).surface_format(),
    {
        self.recorded = Some(PipelineDescription::Render(pdef));
    }

    /// Finishes the session: consumes it, ends it in its execution context,
    /// and assembles the recorded render description against the context's
    /// runtime surface format. Finishing with no recorded description, or
    /// with a compute description, is an encoding error and produces no
    /// pipeline.
    pub fn finish(self, gpu: &mut Gpu) -> (r: Result<GraphicsPipeline, Error>)
        ensures
            !final(gpu).is_encoding(),
            final(gpu).spec_surface_format() == old(gpu).spec_surface_format(),
            match self.recorded() {
                Some(PipelineDescription::Render(pdef)) => render_assembly_post(
                    pdef,
                    self.surface_format(),
                    r,
                ),
                Some(PipelineDescription::Compute(_)) => r matches Err(e) && e == Error::Encoding(
                    EncodingError::WrongPipelineKind,
                ),
                None => r matches Err(e) && e == Error::Encoding(EncodingError::NoPipelineEncoded),
            },
    {
        gpu.end_session();
        match self.recorded {
            Some(PipelineDescription::Render(pdef)) => render_pipeline(&pdef, self.surface_format),
            Some(PipelineDescription::Compute(_)) => Err(
                Error::Encoding(EncodingError::WrongPipelineKind),
            ),
            None => Err(Error::Encoding(EncodingError::NoPipelineEncoded)),
        }
    }
}

} // verus!
