use vstd::prelude::*;

use super::{Compute, ComputeDescription, PipelineDescription, PipelineEncoder};
use crate::error::{EncodingError, Error};
use crate::shader::{
    code_to_spv, spv_words, translates, wgsl_parse_ok, wgsl_valid, CompiledShaderBinary,
};
use crate::Gpu;

verus! {

/// The parameters of one backend create-compute-pipeline call, assembled
/// from a validated description: the compiled shader binary, its entry
/// point, and the three per-workgroup thread counts. The caller owns it; the
/// translation layer keeps no reference.
#[derive(Clone, Debug)]
pub struct ComputePipeline {
    pub shader: CompiledShaderBinary,
    pub thread_count_x: u32,
    pub thread_count_y: u32,
    pub thread_count_z: u32,
}

/// What assembling a compute description yields: the compiled binary, its
/// entry point and the description's own thread counts on success, which is
/// owed exactly when every translation step accepts the stage code; the
/// failing step's error kind otherwise.
pub open spec fn compute_assembly_post(
    pdef: ComputeDescription,
    r: Result<ComputePipeline, Error>,
) -> bool {
    &&& r is Ok <==> translates(pdef.code.source())
    &&& r matches Ok(p) ==> {
        &&& p.shader.words@ == spv_words(pdef.code.source())
        &&& p.shader.entry_point@ == pdef.entry_point@
        &&& (p.thread_count_x, p.thread_count_y, p.thread_count_z)
            == pdef.thread_grid_size_per_workgroup.spec_xyz()
    }
    &&& !wgsl_parse_ok(pdef.code.source()) ==> (r matches Err(e) && e is WgslParse)
    &&& wgsl_parse_ok(pdef.code.source()) && !wgsl_valid(pdef.code.source()) ==> (r matches Err(e)
        && e is WgslValidation)
    &&& wgsl_parse_ok(pdef.code.source()) && wgsl_valid(pdef.code.source()) && !translates(
        pdef.code.source(),
    ) ==> (r matches Err(e) && e is SpvError)
}

/// Assembles a finished compute description: compiles its single shader
/// stage and pairs the binary with the thread grid size, mapped to the three
/// thread counts of the backend create call.
pub fn compute_pipeline(pdef: &ComputeDescription) -> (r: Result<ComputePipeline, Error>)
    ensures
        compute_assembly_post(*pdef, r),
{
    let words = match code_to_spv(&pdef.code) {
        Ok(words) => words,
        Err(e) => {
            return Err(e);
        },
    };
    let (x, y, z) = pdef.thread_grid_size_per_workgroup.xyz();
    Ok(
        ComputePipeline {
            shader: CompiledShaderBinary { words, entry_point: pdef.entry_point.clone() },
            thread_count_x: x,
            thread_count_y: y,
            thread_count_z: z,
        },
    )
}

impl PipelineEncoder<Compute> {
    /// Records a compute pipeline description in this session, replacing any
    /// earlier one.
    pub fn new_compute_pipeline(&mut self, pdef: ComputeDescription)
        ensures
            final(self).recorded() == Some(PipelineDescription::Compute(pdef)),
            final(self).options() == old(self).options(),
            final(self).surface_format() == old(self).surface_format(),
    {
        self.recorded = Some(PipelineDescription::Compute(pdef));
    }

    /// Finishes the session: consumes it, ends it in its execution context,
    /// and assembles the recorded compute description. Finishing with no
    /// recorded description, or with a render description, is an encoding
    /// error and produces no pipeline.
    pub fn finish(self, gpu: &mut Gpu) -> (r: Result<ComputePipeline, Error>)
        ensures
            !final(gpu).is_encoding(),
            final(gpu).spec_surface_format() == old(gpu).spec_surface_format(),
            match self.recorded() {
                Some(PipelineDescription::Compute(pdef)) => compute_assembly_post(pdef, r),
                Some(PipelineDescription::Render(_)) => r matches Err(e) && e == Error::Encoding(
                    EncodingError::WrongPipelineKind,
                ),
                None => r matches Err(e) && e == Error::Encoding(EncodingError::NoPipelineEncoded),
            },
    {
        gpu.end_session();
        match self.recorded {
            Some(PipelineDescription::Compute(pdef)) => compute_pipeline(&pdef),
            Some(PipelineDescription::Render(_)) => Err(
                Error::Encoding(EncodingError::WrongPipelineKind),
            ),
            None => Err(Error::Encoding(EncodingError::NoPipelineEncoded)),
        }
    }
}

} // verus!
