//! The fatal conditions of a capture run.

use vstd::prelude::*;

verus! {

/// Why a run ended without a saved image. Receiving no frame is not among
/// them: that is a clean outcome, reported with a warning.
#[derive(Debug, Clone, PartialEq, Eq)]
pub enum PipelineError {
    /// The default camera could not be opened.
    DeviceUnavailable,
    /// The RGBA buffer does not hold exactly `4 * width * height` bytes, or
    /// the byte length of one row does not fit `usize`.
    BufferSizeMismatch,
    /// Encoding or writing the image failed; holds the encoder's or the
    /// filesystem's own message.
    EncodeOrWriteFailure(String),
}

/// The text a failure is reported with.
pub open spec fn message_of(e: PipelineError) -> Seq<char> {
    match e {
        PipelineError::DeviceUnavailable => "Camera error: default device unavailable"@,
        PipelineError::BufferSizeMismatch => "Buffer error: size does not match the frame dimensions"@,
        PipelineError::EncodeOrWriteFailure(detail) => "Image error: "@ + detail@,
    }
}

impl PipelineError {
    /// The text this failure is reported with. An encode or write failure
    /// embeds the underlying message after the prefix `Image error: `.
    pub fn message(&self) -> (text: String)
        ensures
            text@ == message_of(*self),
    {
        match self {
            PipelineError::DeviceUnavailable => String::from_str(
                "Camera error: default device unavailable",
            ),
            PipelineError::BufferSizeMismatch => String::from_str(
                "Buffer error: size does not match the frame dimensions",
            ),
            PipelineError::EncodeOrWriteFailure(detail) => {
                String::from_str("Image error: ").concat(detail.as_str())
            },
        }
    }
}

} // verus!
