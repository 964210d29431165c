use vstd::prelude::*;

mod compute;
mod render;

pub use compute::{compute_pipeline, ComputePipeline};
pub use render::{
    check_indices, create_shader, render_pipeline, DepthStencilStateInfo, FillMode,
    GraphicsPipeline, PrimitiveType, Shader,
};

use core::marker::PhantomData;

use crate::formats::{Indexing, SurfaceFormat, Test, VertexAttribFormat};
use crate::shader::ShaderStageCode;

verus! {

/// The recognized options of an encoding session. Immutable once a session
/// starts.
#[derive(Clone, Copy, Debug, PartialEq, Eq, Hash)]
pub struct PipelineEncoderOptions {
    /// Toggles ANSI colored diagnostic text.
    pub colored_error_messages: bool,
    /// Whether diagnostics include an excerpt of the shader source.
    pub error_excerpt: bool,
    /// Prefix applied to generated shader entry and identifier names.
    pub shader_identifier_prefix: &'static str,
    /// Default mutability of storage bindings used from the vertex stage.
    pub vertex_writable_storage_by_default: bool,
    /// Whether compute workgroup shared memory is zero initialized.
    pub zero_init_workgroup_memory: bool,
}

impl core::default::Default for PipelineEncoderOptions {
    fn default() -> (r: Self)
        ensures
            r.colored_error_messages,
            r.error_excerpt,
            r.shader_identifier_prefix@ == "s_"@,
            !r.vertex_writable_storage_by_default,
            !r.zero_init_workgroup_memory,
    {
        PipelineEncoderOptions {
            colored_error_messages: true,
            error_excerpt: true,
            shader_identifier_prefix: "s_",
            vertex_writable_storage_by_default: false,
            zero_init_workgroup_memory: false,
        }
    }
}

/// The thread grid size per workgroup of a compute pipeline: one to three
/// dimensions. Missing dimensions count one thread.
#[derive(Clone, Copy, Debug, PartialEq, Eq, Structural)]
pub enum GridSize {
    D1(u32),
    D2(u32, u32),
    D3(u32, u32, u32),
}

impl GridSize {
    /// The grid size as the three per-workgroup thread counts of the backend
    /// create call.
    pub open spec fn spec_xyz(self) -> (u32, u32, u32) {
        match self {
            GridSize::D1(x) => (x, 1u32, 1u32),
            GridSize::D2(x, y) => (x, y, 1u32),
            GridSize::D3(x, y, z) => (x, y, z),
        }
    }

    /// The three per-workgroup thread counts.
    pub fn xyz(self) -> (r: (u32, u32, u32))
        ensures
            r == self.spec_xyz(),
    {
        match self {
            GridSize::D1(x) => (x, 1u32, 1u32),
            GridSize::D2(x, y) => (x, y, 1u32),
            GridSize::D3(x, y, z) => (x, y, z),
        }
    }
}

/// The depth/stencil test state of a render pipeline description. Absence of
/// this state means the pipeline performs no depth/stencil testing.
#[derive(Clone, Copy, Debug, PartialEq, Eq, Structural)]
pub struct DepthStencilState {
    /// The depth compare operator.
    pub depth_compare: Test,
    /// Whether passing fragments write their depth.
    pub depth_write_enabled: bool,
    /// The stencil write mask; the backend keeps its low eight bits.
    pub stencil_write_mask: u32,
}

/// A finished compute pipeline description: one shader stage and the thread
/// grid size per workgroup.
#[derive(Clone, Debug)]
pub struct ComputeDescription {
    pub code: ShaderStageCode,
    pub entry_point: String,
    pub thread_grid_size_per_workgroup: GridSize,
}

/// A finished render pipeline description: vertex and fragment stage code
/// and entry points, the vertex layout, the optional depth/stencil state,
/// and the attachments the pipeline declares interaction with.
#[derive(Clone, Debug)]
pub struct RenderDescription {
    pub vert_code: ShaderStageCode,
    pub vert_entry_point: String,
    pub frag_code: ShaderStageCode,
    pub frag_entry_point: String,
    /// How vertices are indexed.
    pub vertex_indexing: Indexing,
    /// The formats of the vertex attributes, in location order.
    pub vertex_attribs: Vec<VertexAttribFormat>,
    /// The depth/stencil test state, or `None` for no testing.
    pub depth_stencil: Option<DepthStencilState>,
    /// The indices of the color targets the pipeline interacts with.
    pub color_attachments: Vec<u32>,
    /// Whether the pipeline interacts with a depth/stencil attachment.
    pub depth_stencil_attachment: bool,
}

/// The one pipeline description an encoding session yields.
#[derive(Clone, Debug)]
pub enum PipelineDescription {
    Compute(ComputeDescription),
    Render(RenderDescription),
}

/// Marker for the compute pipeline kind.
pub struct Compute;

/// Marker for the render pipeline kind.
pub struct Render;

/// The pipeline kinds an encoding session can record.
pub trait IsPipelineKind {

}

impl IsPipelineKind for Compute {

}

impl IsPipelineKind for Render {

}

/// An active encoding session. It records at most one pipeline description;
/// finishing consumes the session, so a finished session cannot be used
/// again.
pub struct PipelineEncoder<P: IsPipelineKind> {
    options: PipelineEncoderOptions,
    surface_format: Option<SurfaceFormat>,
    recorded: Option<PipelineDescription>,
    kind: PhantomData<P>,
}

impl<P: IsPipelineKind> PipelineEncoder<P> {
    /// The options this session was started with.
    pub closed spec fn options(self) -> PipelineEncoderOptions {
        self.options
    }

    /// The runtime surface format of the context this session runs in.
    pub closed spec fn surface_format(self) -> Option<SurfaceFormat> {
        self.surface_format
    }

    /// The pipeline description recorded so far, if any.
    pub closed spec fn recorded(self) -> Option<PipelineDescription> {
        self.recorded
    }

    /// Opens a session with nothing recorded. Only the session guard calls
    /// this, after it has checked that no other session is active.
    pub(crate) fn start(
        options: PipelineEncoderOptions,
        surface_format: Option<SurfaceFormat>,
    ) -> (r: PipelineEncoder<P>)
        ensures
            r.options() == options,
            r.surface_format() == surface_format,
            r.recorded() is None,
    {
        PipelineEncoder { options, surface_format, recorded: None, kind: PhantomData }
    }

    /// Drops the session without finishing it: the session ends and no
    /// pipeline description is produced.
    pub fn abandon(self, gpu: &mut crate::Gpu)
        ensures
            !final(gpu).is_encoding(),
            final(gpu).spec_surface_format() == old(gpu).spec_surface_format(),
    {
        gpu.end_session();
    }
}

} // verus!
