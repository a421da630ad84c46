//! The per-session decoder state and the handling of one incoming buffer:
//! classification, (re)negotiation from metadata headers, and routing of
//! audio frames to the frame decoder.

use vstd::prelude::*;

use vstd::slice::slice_subrange;

use crate::classify::spec_classify;
use crate::classify::classify_buffer;
use crate::classify::BufferClass;
use crate::decode::claxon_decode_detail;
use crate::decode::claxon_decode_eof;
use crate::decode::claxon_decode_err;
use crate::decode::claxon_frame_of;
use crate::decode::decode_audio_frame;
use crate::decode::spec_decode_outcome;
use crate::decode::spec_frame_accepted;
use crate::errors::DecoderError;
use crate::format::resolve_format;
use crate::format::spec_format_domain;
use crate::format::spec_resolve_error;
use crate::format::spec_resolves_to;
use crate::format::OutputFormat;
use crate::repack::spec_repack;
use crate::streaminfo::parse_stream_info;
use crate::streaminfo::spec_parse_stream_info;
use crate::streaminfo::StreamDescriptor;

verus! {

/// What handling one buffer produced for the host: nothing, a newly
/// negotiated output format to apply, or one buffer of packed samples.
#[derive(Debug, Clone, PartialEq, Eq)]
pub enum BufferOutcome {
    /// The buffer was consumed without producing output: a stream marker,
    /// an ignored metadata header, or a frame the primitive had no data
    /// for.
    NoOutput,
    /// A STREAMINFO header was parsed; the state now carries the format
    /// the host should negotiate.
    FormatNegotiated,
    /// One output buffer of interleaved packed samples.
    Samples(Vec<u8>),
}

/// The state one decoding session carries across buffers: the stream
/// descriptor of the last accepted STREAMINFO block and the output format
/// resolved from it. Created empty when a session starts and discarded
/// whole when it stops.
#[derive(Debug, Clone, PartialEq, Eq)]
pub struct DecoderState {
    /// The descriptor of the last accepted STREAMINFO block.
    pub stream_descriptor: Option<StreamDescriptor>,
    /// The output format resolved from that descriptor.
    pub output_format: Option<OutputFormat>,
}

/// What handling a STREAMINFO metadata buffer yields: the parsed descriptor
/// when both the parse and the format resolution succeed, the error of
/// whichever step failed otherwise.
pub open spec fn spec_header_result(d: Seq<u8>) -> Result<StreamDescriptor, DecoderError> {
    match spec_parse_stream_info(d) {
        Err(e) => Err(e),
        Ok(sd) => if spec_format_domain(sd) {
            Ok(sd)
        } else {
            Err(spec_resolve_error(sd))
        },
    }
}

/// What an audio-frame buffer yields from `handle_buffer` under a
/// negotiated format: the mirror of `spec_decode_outcome` over
/// `BufferOutcome`. A primitive rejection surfaces as a per-frame decode
/// error and nothing else does; an end-of-input report is consumed
/// without output; a decoded frame that agrees with the buffer and the
/// format is owed exactly its re-packed bytes; one that does not is the
/// fatal invariant violation.
pub open spec fn spec_audio_buffer_outcome(
    fmt: OutputFormat,
    data: Seq<u8>,
    r: Result<BufferOutcome, DecoderError>,
) -> bool {
    let f = claxon_frame_of(data);
    &&& (claxon_decode_err(data) <==> (r matches Err(e) && e
        matches DecoderError::FrameDecodeError(m) && m@ == claxon_decode_detail(data)))
    &&& (!claxon_decode_err(data) && claxon_decode_eof(data) ==> r == Ok::<
        BufferOutcome,
        DecoderError,
    >(BufferOutcome::NoOutput))
    &&& (!claxon_decode_err(data) && !claxon_decode_eof(data) && spec_frame_accepted(
        f,
        fmt,
        data.len() as int,
    ) ==> (r matches Ok(o) && o matches BufferOutcome::Samples(out) && out@ == spec_repack(
        f.spec_channels(),
        fmt.sample_format,
    )))
    &&& (!claxon_decode_err(data) && !claxon_decode_eof(data) && !spec_frame_accepted(
        f,
        fmt,
        data.len() as int,
    ) ==> r == Err::<BufferOutcome, DecoderError>(DecoderError::InvariantViolation))
}

/// The 7-byte tag that opens an out-of-band stream header buffer, with
/// room behind it for the marker and a STREAMINFO block at offset 13.
pub open spec fn spec_stream_header_tag_ok(d: Seq<u8>) -> bool {
    &&& d.len() >= 13
    &&& d[0] == 0x7fu8
    &&& d[1] == 0x46u8
    &&& d[2] == 0x4cu8
    &&& d[3] == 0x41u8
    &&& d[4] == 0x43u8
    &&& d[5] == 0x01u8
    &&& d[6] == 0x00u8
}

impl DecoderState {
    /// Both halves of the state are internally consistent, and the output
    /// format, when present, is the resolution of the present descriptor.
    pub open spec fn valid(self) -> bool {
        &&& (self.stream_descriptor matches Some(d) ==> d.valid())
        &&& (self.output_format matches Some(f) ==> f.valid())
        &&& (self.output_format matches Some(f) ==> (self.stream_descriptor matches Some(d)
            && spec_resolves_to(d, f)))
    }

    /// A fresh, empty session state.
    pub fn new() -> (s: DecoderState)
        ensures
            s.valid(),
            s.stream_descriptor is None,
            s.output_format is None,
    {
        DecoderState { stream_descriptor: None, output_format: None }
    }

    /// Handles a STREAMINFO metadata buffer: parses it, resolves the output
    /// format, and installs both in the state. A failed parse or resolution
    /// reports its error and leaves the state as it was.
    pub fn handle_streaminfo_header(&mut self, data: &[u8]) -> (r: Result<(), DecoderError>)
        requires
            old(self).valid(),
        ensures
            final(self).valid(),
            spec_header_result(data@) matches Ok(sd) ==> r is Ok && final(self).stream_descriptor
                == Some(sd) && (final(self).output_format matches Some(f) && spec_resolves_to(
                sd,
                f,
            )),
            spec_header_result(data@) matches Err(e) ==> r == Err::<(), DecoderError>(e)
                && *final(self) == *old(self),
    {
        match parse_stream_info(data) {
            Err(e) => Err(e),
            Ok(sd) => match resolve_format(&sd) {
                Err(e) => Err(e),
                Ok(f) => {
                    self.stream_descriptor = Some(sd);
                    self.output_format = Some(f);
                    Ok(())
                },
            },
        }
    }

    /// Decodes an audio-frame buffer under the negotiated format. An audio
    /// frame before any negotiated format is the recoverable
    /// `NotNegotiated` case: the state is left waiting for a header. The
    /// range checks that format negotiation established (channel count
    /// and bit depth) are carried by the state's validity and need no
    /// re-check here; the shape of what the primitive decoded is checked
    /// dynamically downstream.
    pub fn handle_data(&self, data: &[u8]) -> (r: Result<Option<Vec<u8>>, DecoderError>)
        requires
            self.valid(),
        ensures
            r == Err::<Option<Vec<u8>>, DecoderError>(DecoderError::NotNegotiated)
                <==> self.output_format is None,
            self.output_format matches Some(f) ==> spec_decode_outcome(f, data@, r),
    {
        match &self.output_format {
            None => Err(DecoderError::NotNegotiated),
            Some(f) => decode_audio_frame(f, data),
        }
    }

    /// Handles one incoming buffer: classifies it, renegotiates on a
    /// STREAMINFO header, decodes an audio frame, and consumes markers and
    /// other metadata headers without output.
    pub fn handle_buffer(&mut self, data: &[u8]) -> (r: Result<BufferOutcome, DecoderError>)
        requires
            old(self).valid(),
            data@.len() >= 2,
        ensures
            final(self).valid(),
            spec_classify(data@) == BufferClass::StreamMarker ==> *final(self) == *old(self) && r
                == Ok::<BufferOutcome, DecoderError>(BufferOutcome::NoOutput),
            spec_classify(data@) == BufferClass::OtherMetadataHeader ==> *final(self) == *old(self)
                && r == Ok::<BufferOutcome, DecoderError>(BufferOutcome::NoOutput),
            spec_classify(data@) == BufferClass::MetadataHeader ==> (spec_header_result(data@)
                matches Ok(sd) ==> r == Ok::<BufferOutcome, DecoderError>(
                BufferOutcome::FormatNegotiated,
            ) && final(self).stream_descriptor == Some(sd) && (final(self).output_format
                matches Some(f) && spec_resolves_to(sd, f))),
            spec_classify(data@) == BufferClass::MetadataHeader ==> (spec_header_result(data@)
                matches Err(e) ==> r == Err::<BufferOutcome, DecoderError>(e)
                && *final(self) == *old(self)),
            spec_classify(data@) == BufferClass::AudioFrame ==> *final(self) == *old(self),
            spec_classify(data@) == BufferClass::AudioFrame ==> (r == Err::<
                BufferOutcome,
                DecoderError,
            >(DecoderError::NotNegotiated) <==> old(self).output_format is None),
            spec_classify(data@) == BufferClass::AudioFrame ==> (old(self).output_format
                matches Some(f) ==> spec_audio_buffer_outcome(f, data@, r)),
    {
        match classify_buffer(data) {
            BufferClass::StreamMarker => Ok(BufferOutcome::NoOutput),
            BufferClass::OtherMetadataHeader => Ok(BufferOutcome::NoOutput),
            BufferClass::MetadataHeader => match self.handle_streaminfo_header(data) {
                Ok(()) => Ok(BufferOutcome::FormatNegotiated),
                Err(e) => Err(e),
            },
            BufferClass::AudioFrame => match self.handle_data(data) {
                Ok(None) => Ok(BufferOutcome::NoOutput),
                Ok(Some(out)) => Ok(BufferOutcome::Samples(out)),
                Err(e) => Err(e),
            },
        }
    }

    /// Builds the state for the best-effort out-of-band negotiation path: a
    /// stream-header buffer that opens with the fixed identification tag
    /// and carries a STREAMINFO block at offset 13 populates the state; any
    /// failure along the way falls back silently to an empty state, so
    /// that in-band negotiation can still follow.
    pub fn from_stream_header(data: &[u8]) -> (s: DecoderState)
        ensures
            s.valid(),
            !(spec_stream_header_tag_ok(data@) && spec_header_result(
                data@.subrange(13, data@.len() as int),
            ) is Ok) ==> s.stream_descriptor is None && s.output_format is None,
            spec_stream_header_tag_ok(data@) ==> (spec_header_result(
                data@.subrange(13, data@.len() as int),
            ) matches Ok(sd) ==> s.stream_descriptor == Some(sd) && (s.output_format
                matches Some(f) && spec_resolves_to(sd, f))),
    {
        let mut s = DecoderState::new();
        if data.len() < 13 {
            return s;
        }
        if !(data[0] == 0x7f && data[1] == 0x46 && data[2] == 0x4c && data[3] == 0x41 && data[4]
            == 0x43 && data[5] == 0x01 && data[6] == 0x00) {
            return s;
        }
        let rest = slice_subrange(data, 13, data.len());
        let negotiated = s.handle_streaminfo_header(rest);
        if negotiated.is_err() {
            return DecoderState::new();
        }
        s
    }
}

} // verus!
