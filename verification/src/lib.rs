//! Translation layer between an abstract, declarative GPU pipeline
//! description and the backend's concrete pipeline objects.
//!
//! A caller opens an encoding session on a [`Gpu`] execution context, records
//! one pipeline description, and finishes the session. Finishing compiles the
//! textual shader sources to binary instruction words, maps every abstract
//! field to the backend's enumerations, enforces the backend's structural
//! rules, and yields the parameters of a single backend create call — or one
//! of the error kinds of [`Error`].

use vstd::prelude::*;

pub mod error;
pub mod formats;
pub mod pipeline;
pub mod shader;

pub use error::{EncodingError, Error, IndexedResourceKind, ShameToSdlError};
pub use pipeline::{Compute, IsPipelineKind, PipelineEncoder, PipelineEncoderOptions, Render};

use crate::formats::SurfaceFormat;

verus! {

/// One execution context of the translation layer: it knows the runtime
/// surface format, if one was supplied, and whether an encoding session is
/// active in it.
///
/// At most one session is active per context at a time; a second
/// [`Gpu::create_pipeline_encoder`] while one is active is rejected
/// immediately, it never blocks or queues.
pub struct Gpu {
    surface_format: Option<SurfaceFormat>,
    encoding_active: bool,
}

impl Gpu {
    /// The runtime surface format this context was created with.
    pub closed spec fn spec_surface_format(self) -> Option<SurfaceFormat> {
        self.surface_format
    }

    /// Whether an encoding session is active in this context.
    pub closed spec fn is_encoding(self) -> bool {
        self.encoding_active
    }

    /// Makes a context with no active session. `surface_format` is the
    /// swapchain's format where one is known, and `None` in a context that
    /// renders to no surface.
    pub fn new(surface_format: Option<SurfaceFormat>) -> (g: Gpu)
        ensures
            g.spec_surface_format() == surface_format,
            !g.is_encoding(),
    {
        Gpu { surface_format, encoding_active: false }
    }

    /// The runtime surface format, if one was supplied.
    pub fn surface_format(&self) -> (r: Option<SurfaceFormat>)
        ensures
            r == self.spec_surface_format(),
    {
        self.surface_format
    }

    /// Starts an encoding session, handing back the encoder that records the
    /// pipeline description.
    ///
    /// While a session is active in this context, a second start fails
    /// immediately with [`Error::ThreadIsAlreadyEncoding`] and changes
    /// nothing.
    pub fn create_pipeline_encoder<P: IsPipelineKind>(
        &mut self,
        desc: PipelineEncoderOptions,
    ) -> (r: Result<PipelineEncoder<P>, Error>)
        ensures
            old(self).is_encoding() ==> {
                &&& r matches Err(e) && e is ThreadIsAlreadyEncoding
                &&& *final(self) == *old(self)
            },
            !old(self).is_encoding() ==> {
                &&& final(self).is_encoding()
                &&& final(self).spec_surface_format() == old(self).spec_surface_format()
                &&& r matches Ok(enc) && enc.options() == desc && enc.recorded() is None
                    && enc.surface_format() == old(self).spec_surface_format()
            },
    {
        if self.encoding_active {
            Err(Error::ThreadIsAlreadyEncoding)
        } else {
            self.encoding_active = true;
            Ok(PipelineEncoder::start(desc, self.surface_format))
        }
    }

    /// Marks the active session as over. Called exactly once by the encoder
    /// operations that end a session.
    pub(crate) fn end_session(&mut self)
        ensures
            !final(self).is_encoding(),
            final(self).spec_surface_format() == old(self).spec_surface_format(),
    {
        self.encoding_active = false;
    }
}

} // verus!
