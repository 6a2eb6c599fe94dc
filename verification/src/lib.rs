use vstd::prelude::*;

pub mod dispatch;
pub mod engine;
pub mod keyboard;
pub mod tensor;

verus! {

/// How a transcription request can fail, one variant per stage.
///
/// `Transport` is raised outside the library, by the caller that downloads
/// the photo; it is carried here so that one fallback path handles every
/// failure uniformly.
#[derive(Clone, Copy, Debug, PartialEq, Eq, Structural)]
pub enum PipelineError {
    /// The supplied bytes are not a decodable image.
    Decode,
    /// A model file did not hold a valid model encoding.
    ModelLoad,
    /// The normalized tensor could not be adapted for the engine.
    PrepareFailed,
    /// The word-detection stage failed inside the engine.
    DetectionFailed,
    /// The text-recognition stage failed inside the engine.
    RecognitionFailed,
    /// Downloading the photo (or sending the reply) failed.
    Transport,
}

} // verus!
