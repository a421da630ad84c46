//! The error taxonomy of the decoding core, together with the severity that
//! a host pipeline should attach to each error.

use vstd::prelude::*;

verus! {

/// Everything that can go wrong while handling one input buffer.
#[derive(Debug, Clone, PartialEq, Eq)]
pub enum DecoderError {
    /// The metadata header bytes do not match the expected STREAMINFO layout.
    MalformedStreamInfo,
    /// A metadata header parsed correctly but the buffer length does not
    /// match the number of bytes the fixed layout consumes.
    TrailingOrTruncatedData,
    /// The stream declares a bit depth other than 8, 16, 24 or 32.
    UnsupportedSampleWidth,
    /// The stream declares more than 8 channels (or none at all).
    UnsupportedChannelCount,
    /// An audio frame arrived before a usable stream descriptor was known.
    NotNegotiated,
    /// The compressed-frame primitive rejected the frame's bits.
    FrameDecodeError(String),
    /// A defensive check failed after decoding: the decoded frame does not
    /// agree with the state that earlier validation established. This
    /// signals a logic defect rather than bad input.
    InvariantViolation,
}

/// How a host should react to an error: drop the buffer and go on, give the
/// session up, or abort because the core itself is inconsistent.
#[derive(Debug, Clone, Copy, PartialEq, Eq, Structural)]
pub enum ErrorSeverity {
    /// The offending buffer is dropped; later buffers may still succeed.
    RecoverablePerBuffer,
    /// No valid output format can ever be negotiated for this stream.
    SessionFatal,
    /// A prior validation defect was detected; the session must abort.
    FatalInvariant,
}

/// The severity that each error variant carries.
pub open spec fn spec_severity(e: DecoderError) -> ErrorSeverity {
    match e {
        DecoderError::MalformedStreamInfo => ErrorSeverity::RecoverablePerBuffer,
        DecoderError::TrailingOrTruncatedData => ErrorSeverity::RecoverablePerBuffer,
        DecoderError::UnsupportedSampleWidth => ErrorSeverity::SessionFatal,
        DecoderError::UnsupportedChannelCount => ErrorSeverity::SessionFatal,
        DecoderError::NotNegotiated => ErrorSeverity::RecoverablePerBuffer,
        DecoderError::FrameDecodeError(_) => ErrorSeverity::RecoverablePerBuffer,
        DecoderError::InvariantViolation => ErrorSeverity::FatalInvariant,
    }
}

impl DecoderError {
    /// Classifies this error for the host: recoverable per buffer,
    /// fatal to the session, or a fatal invariant violation.
    pub fn severity(&self) -> (s: ErrorSeverity)
        ensures
            s == spec_severity(*self),
    {
        match self {
            DecoderError::MalformedStreamInfo => ErrorSeverity::RecoverablePerBuffer,
            DecoderError::TrailingOrTruncatedData => ErrorSeverity::RecoverablePerBuffer,
            DecoderError::UnsupportedSampleWidth => ErrorSeverity::SessionFatal,
            DecoderError::UnsupportedChannelCount => ErrorSeverity::SessionFatal,
            DecoderError::NotNegotiated => ErrorSeverity::RecoverablePerBuffer,
            DecoderError::FrameDecodeError(_) => ErrorSeverity::RecoverablePerBuffer,
            DecoderError::InvariantViolation => ErrorSeverity::FatalInvariant,
        }
    }
}

} // verus!
