//! Verified planning, validation and decoding logic of a PaddleOCR / MNN text
//! recognition library.
//!
//! - [`build_support`]: how the native MNN library is obtained and linked for a target.
//! - [`mnn`]: inference configuration, backend names, engine input validation and errors.
//! - [`preprocess`]: tensor padding sizes, cropping, block tiling and resizing of images.
//! - [`rec`]: charset parsing, punctuation classes and greedy CTC decoding.
//! - [`det`]: detection option enums and crop-rectangle clamping.
//! - [`engine`]: recognition strategies, reading order, page orientation
//!   correction and engine configuration.
//! - [`error`]: the errors of the recognition pipeline.
//! - [`text`]: decimal rendering of numbers and shapes in messages.
pub mod build_support;
pub mod text;
pub mod mnn;
pub mod error;
pub mod rec;
pub mod det;
pub mod engine;
pub mod preprocess;

use vstd::prelude::*;

verus! {

/// Get library version
pub fn version() -> (r: &'static str)
    ensures
        r@ == "2.0.0"@,
{
    "2.0.0"
}

} // verus!
