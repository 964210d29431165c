use vstd::prelude::*;

use crate::formats::{Indexing, StageMask, SurfaceFormat, VertexAttribFormat};

verus! {

/// The indexed resource collections of a pipeline description whose indices
/// the backend constrains to start at zero and be consecutive.
#[derive(Clone, Copy, Debug, PartialEq, Eq, Structural)]
pub enum IndexedResourceKind {
    ColorTarget,
    VertexBuffer,
}

/// A pipeline description field that cannot be translated into the backend's
/// enumerations, or that breaks one of the backend's structural rules.
///
/// Each variant carries the offending abstract value, so that the kind alone
/// is enough to reconstruct a diagnostic; message formatting is a presentation
/// concern left to the caller.
#[derive(Clone, Copy, Debug, PartialEq, Eq, Structural)]
pub enum ShameToSdlError {
    UnsupportedIndexBufferFormat(Indexing),
    UnsupportedTextureFormat(SurfaceFormat),
    UnsupportedShaderStage(StageMask),
    UnsupportedVertexAttribFormat(VertexAttribFormat),
    MustStartAtIndexZero(IndexedResourceKind, u32),
    MustHaveConsecutiveIndices(IndexedResourceKind),
    FragmentStageNeedsAttachmentInteraction,
    RuntimeSurfaceFormatNotProvided,
}

/// A failure of the encoding session itself, as opposed to a failure of
/// translation: the session was finished without a recorded pipeline, or with
/// a pipeline of the other kind than the one being finished.
#[derive(Clone, Copy, Debug, PartialEq, Eq, Structural)]
pub enum EncodingError {
    NoPipelineEncoded,
    WrongPipelineKind,
}

/// The one reportable error surface of the translation layer.
///
/// Every failure of a session, of shader translation, of field mapping, of a
/// structural rule, or of the backend's own create call is surfaced as one of
/// these kinds, so that callers can match on the kind.
#[derive(Clone, Debug, PartialEq, Eq)]
pub enum Error {
    /// A mapping or structural rule failed; see [`ShameToSdlError`].
    ShameToSdl(ShameToSdlError),
    /// A second encoding session was started while one is active in the same
    /// execution context.
    ThreadIsAlreadyEncoding,
    /// The encoding session itself failed; see [`EncodingError`].
    Encoding(EncodingError),
    /// The textual shader source did not parse; carries the parser's message.
    WgslParse(String),
    /// The parsed shader module did not validate; carries the validator's
    /// message.
    WgslValidation(String),
    /// The validated module could not be lowered to binary instruction words;
    /// carries the back end's message.
    SpvError(String),
    /// The backend rejected an otherwise valid create call; carries the
    /// backend's message unchanged.
    SdlError(String),
}

} // verus!
