//! Classification of an incoming buffer from its first bytes: stream
//! marker, STREAMINFO metadata header, audio frame, or some other metadata
//! header that the core ignores.

use vstd::prelude::*;

verus! {

/// What kind of buffer arrived.
#[derive(Debug, Clone, Copy, PartialEq, Eq, Structural)]
pub enum BufferClass {
    /// The 4-byte stream marker; produces no output.
    StreamMarker,
    /// A STREAMINFO metadata header; (re)negotiates the output format.
    MetadataHeader,
    /// A compressed audio frame, recognised by its sync pattern.
    AudioFrame,
    /// Any other metadata header; ignored, produces no output.
    OtherMetadataHeader,
}

/// The buffer is exactly the 4-byte stream marker `fLaC`.
pub open spec fn spec_is_stream_marker(d: Seq<u8>) -> bool {
    &&& d.len() == 4
    &&& d[0] == 0x66u8
    &&& d[1] == 0x4cu8
    &&& d[2] == 0x61u8
    &&& d[3] == 0x43u8
}

/// The first byte's low 7 bits are zero: the block-type field of a metadata
/// header naming a STREAMINFO block.
pub open spec fn spec_is_streaminfo_header(d: Seq<u8>) -> bool {
    d[0] % 128 == 0
}

/// The frame sync pattern: a first byte of all ones and a second byte whose
/// top 6 bits are 111110.
pub open spec fn spec_is_frame_sync(d: Seq<u8>) -> bool {
    &&& d[0] == 0xffu8
    &&& d[1] / 4 == 0x3e
}

/// The classification rules, applied in order: the marker first, then the
/// STREAMINFO metadata test, then the sync pattern, and every remaining
/// buffer is some other metadata header. The order matters: a buffer must be
/// ruled out as a marker or metadata header before its bits are read as a
/// sync pattern.
pub open spec fn spec_classify(d: Seq<u8>) -> BufferClass {
    if spec_is_stream_marker(d) {
        BufferClass::StreamMarker
    } else if spec_is_streaminfo_header(d) {
        BufferClass::MetadataHeader
    } else if spec_is_frame_sync(d) {
        BufferClass::AudioFrame
    } else {
        BufferClass::OtherMetadataHeader
    }
}

/// Classifies a buffer from its first bytes.
pub fn classify_buffer(data: &[u8]) -> (r: BufferClass)
    requires
        data@.len() >= 2,
    ensures
        r == spec_classify(data@),
{
    if data.len() == 4 && data[0] == 0x66 && data[1] == 0x4c && data[2] == 0x61 && data[3]
        == 0x43 {
        BufferClass::StreamMarker
    } else if data[0] % 128 == 0 {
        BufferClass::MetadataHeader
    } else if data[0] == 0xff && data[1] / 4 == 0x3e {
        BufferClass::AudioFrame
    } else {
        BufferClass::OtherMetadataHeader
    }
}

/// The metadata test precedes the sync-pattern test: a buffer that is not
/// the stream marker and whose first byte carries the STREAMINFO block type
/// is classified as a metadata header, even when its second byte also
/// matches the sync pattern's second-byte bits. (The two first-byte tests
/// exclude one another, so only the second byte can coincide.)
pub proof fn lemma_classify_metadata_precedence(d: Seq<u8>)
    requires
        d.len() >= 2,
        !spec_is_stream_marker(d),
        spec_is_streaminfo_header(d),
        d[1] / 4 == 0x3e,
    ensures
        spec_classify(d) == BufferClass::MetadataHeader,
{
}

} // verus!
