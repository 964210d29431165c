use shame_sdl3::error::{EncodingError, Error};
use shame_sdl3::formats::SurfaceFormat;
use shame_sdl3::pipeline::{ComputeDescription, GridSize};
use shame_sdl3::shader::ShaderStageCode;
use shame_sdl3::{Compute, Gpu, PipelineEncoder, PipelineEncoderOptions, Render};

const COMPUTE_SRC: &str = "@compute @workgroup_size(1) fn cmain() {}";

fn compute_description() -> ComputeDescription {
    ComputeDescription {
        code: ShaderStageCode::Wgsl(COMPUTE_SRC.to_string()),
        entry_point: "cmain".to_string(),
        thread_grid_size_per_workgroup: GridSize::D1(1),
    }
}

#[test]
fn default_options_match_the_documented_values() {
    let options = PipelineEncoderOptions::default();
    assert!(options.colored_error_messages);
    assert!(options.error_excerpt);
    assert_eq!(options.shader_identifier_prefix, "s_");
    assert!(!options.vertex_writable_storage_by_default);
    assert!(!options.zero_init_workgroup_memory);
}

#[test]
fn second_session_in_the_same_context_is_rejected() {
    let mut gpu = Gpu::new(Some(SurfaceFormat::Bgra8Unorm));
    let mut first: PipelineEncoder<Compute> = gpu
        .create_pipeline_encoder(PipelineEncoderOptions::default())
        .expect("the first session must start");
    first.new_compute_pipeline(compute_description());

    let second: Result<PipelineEncoder<Render>, Error> =
        gpu.create_pipeline_encoder(PipelineEncoderOptions::default());
    assert!(matches!(second, Err(Error::ThreadIsAlreadyEncoding)));

    // the first session is untouched: it still finishes and yields its pipeline
    let pipeline = first.finish(&mut gpu).expect("the first session must finish");
    assert_eq!(pipeline.shader.entry_point, "cmain");
}

#[test]
fn finishing_a_session_lets_the_next_one_start() {
    let mut gpu = Gpu::new(None);
    let mut enc: PipelineEncoder<Compute> = gpu
        .create_pipeline_encoder(PipelineEncoderOptions::default())
        .expect("the session must start");
    enc.new_compute_pipeline(compute_description());
    enc.finish(&mut gpu).expect("the session must finish");

    let next: Result<PipelineEncoder<Compute>, Error> =
        gpu.create_pipeline_encoder(PipelineEncoderOptions::default());
    assert!(next.is_ok());
}

#[test]
fn abandoning_a_session_produces_nothing_and_frees_the_context() {
    let mut gpu = Gpu::new(None);
    let enc: PipelineEncoder<Render> = gpu
        .create_pipeline_encoder(PipelineEncoderOptions::default())
        .expect("the session must start");
    enc.abandon(&mut gpu);

    let next: Result<PipelineEncoder<Compute>, Error> =
        gpu.create_pipeline_encoder(PipelineEncoderOptions::default());
    assert!(next.is_ok());
}

#[test]
fn finishing_without_a_recorded_pipeline_is_an_encoding_error() {
    let mut gpu = Gpu::new(None);
    let enc: PipelineEncoder<Compute> = gpu
        .create_pipeline_encoder(PipelineEncoderOptions::default())
        .expect("the session must start");
    let r = enc.finish(&mut gpu);
    assert!(matches!(
        r,
        Err(Error::Encoding(EncodingError::NoPipelineEncoded))
    ));
}

#[test]
fn the_context_keeps_its_surface_format() {
    let gpu = Gpu::new(Some(SurfaceFormat::Rgba8UnormSrgb));
    assert_eq!(gpu.surface_format(), Some(SurfaceFormat::Rgba8UnormSrgb));
    let bare = Gpu::new(None);
    assert_eq!(bare.surface_format(), None);
}
