//! Why a generation request fails.

use vstd::prelude::*;

verus! {

/// The terminal failures of one request. None is retried.
#[derive(Clone, Copy, Debug, PartialEq, Eq, Structural)]
pub enum PipelineError {
    /// Tokenization failed, or no embedding came out.
    Conditioning,
    /// The batched noise prediction did not split into two halves.
    ShapeMismatch,
    /// The decoder failed.
    Decode,
    /// A model or watermark asset could not be read.
    AssetLoad,
    /// Writing or reading the intermediate image failed.
    Io,
}

impl PipelineError {
    /// A short description of the failure.
    pub fn message(&self) -> (r: &'static str)
        ensures
            r@ == match *self {
                PipelineError::Conditioning => "could not build the text conditioning"@,
                PipelineError::ShapeMismatch => "the noise prediction could not be split into two halves"@,
                PipelineError::Decode => "the decoder failed"@,
                PipelineError::AssetLoad => "an asset could not be loaded"@,
                PipelineError::Io => "the image could not be written or read"@,
            },
    {
        match self {
            PipelineError::Conditioning => "could not build the text conditioning",
            PipelineError::ShapeMismatch => "the noise prediction could not be split into two halves",
            PipelineError::Decode => "the decoder failed",
            PipelineError::AssetLoad => "an asset could not be loaded",
            PipelineError::Io => "the image could not be written or read",
        }
    }
}

} // verus!
