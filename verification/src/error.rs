//! Errors of the recognition pipeline.
use vstd::prelude::*;
use crate::mnn::MnnError;

verus! {

/// Errors reported by the OCR pipeline.
#[derive(Debug, Clone, PartialEq, Eq)]
pub enum OcrError {
    /// The charset data could not be decoded or is unusable.
    CharsetError(String),
    /// Preparing the model input failed.
    PreprocessError(String),
    /// Interpreting the model output failed.
    PostprocessError(String),
    /// A parameter is outside the accepted range.
    InvalidParameter(String),
    /// The inference runtime reported an error.
    Mnn(MnnError),
}

/// Result type of the OCR pipeline.
pub type OcrResult<T> = Result<T, OcrError>;

} // verus!
