//! Decoding of one compressed audio frame: the claxon codec primitive turns
//! the frame's bits into per-channel sample arrays, and everything the
//! primitive hands back is validated here against the negotiated format
//! before the samples are re-packed for output.

use vstd::prelude::*;

use crate::errors::DecoderError;
use crate::format::OutputFormat;
use crate::repack::repack;
use crate::repack::spec_repack;
use crate::repack::spec_wf_channels;

verus! {

/// What the decode primitive hands back for one frame: the decoded samples
/// with the channels stored consecutively (channel `c` occupies positions
/// `c * samples_per_channel` up to `(c + 1) * samples_per_channel`), and how
/// many input bytes the primitive consumed.
#[derive(Debug, Clone, PartialEq, Eq)]
pub struct DecodedFrame {
    /// All decoded samples, channel after channel.
    pub samples: Vec<i32>,
    /// How many channels the frame carried.
    pub channel_count: u32,
    /// How many samples each channel carried.
    pub samples_per_channel: u32,
    /// How many bytes of the input buffer the primitive consumed.
    pub consumed: u64,
}

impl DecodedFrame {
    /// The sample buffer holds exactly one run of samples per channel.
    pub open spec fn wf(self) -> bool {
        self.samples@.len() == self.channel_count * self.samples_per_channel
    }

    /// The per-channel sample arrays this frame carries.
    pub open spec fn spec_channels(self) -> Seq<Seq<i32>> {
        Seq::new(
            self.channel_count as nat,
            |c: int|
                Seq::new(
                    self.samples_per_channel as nat,
                    |i: int| self.samples@[c * self.samples_per_channel + i],
                ),
        )
    }
}

/// Whether the decode primitive rejects the buffer's bits.
pub uninterp spec fn claxon_decode_err(data: Seq<u8>) -> bool;

/// The diagnostic the decode primitive reports for a buffer it rejects.
pub uninterp spec fn claxon_decode_detail(data: Seq<u8>) -> Seq<char>;

/// Whether the decode primitive reports that the input ended before a
/// frame header started (an end-of-input report, not a decode failure).
pub uninterp spec fn claxon_decode_eof(data: Seq<u8>) -> bool;

/// The frame the decode primitive yields for a buffer it accepts.
pub uninterp spec fn claxon_frame_of(data: Seq<u8>) -> DecodedFrame;

/// Relies on `claxon::frame::FrameReader::read_next_or_eof`: reads one
/// compressed frame from the front of the buffer and decodes it into
/// samples, the channels stored consecutively; reports `Ok(None)` when the
/// input ends before a frame header starts, and an error when the frame's
/// bits are invalid. The primitive reads nothing but the in-memory buffer,
/// so its outcome is a function of the bytes alone; the contract names
/// that function: rejection is `claxon_decode_err`, an end-of-input report
/// `claxon_decode_eof`, and the decoded frame `claxon_frame_of`. The
/// frame's shape is not assumed here: callers validate it against the
/// negotiated format.
#[verifier::external_body]
fn decode_frame_primitive(data: &[u8]) -> (r: Result<Option<DecodedFrame>, String>)
    ensures
        r is Err <==> claxon_decode_err(data@),
        r matches Err(m) ==> m@ == claxon_decode_detail(data@),
        r matches Ok(o) ==> (o is None <==> claxon_decode_eof(data@)),
        r matches Ok(Some(f)) ==> f == claxon_frame_of(data@),
{
    let mut cursor = std::io::Cursor::new(data);
    let result = claxon::frame::FrameReader::new(&mut cursor).read_next_or_eof(Vec::new());
    match result {
        Ok(None) => Ok(None),
        Ok(Some(block)) => Ok(Some(DecodedFrame {
            channel_count: block.channels(),
            samples_per_channel: block.duration(),
            consumed: cursor.position(),
            samples: block.into_buffer(),
        })),
        Err(e) => Err(format!("{:?}", e)),
    }
}

/// Copies the decoded samples apart into one array per channel.
fn split_channels(frame: &DecodedFrame) -> (r: Vec<Vec<i32>>)
    requires
        frame.wf(),
        1 <= frame.channel_count,
    ensures
        r.deep_view() == frame.spec_channels(),
{
    let ch = frame.channel_count as usize;
    let spc = frame.samples_per_channel as usize;
    let total = frame.samples.len();
    let mut r: Vec<Vec<i32>> = Vec::new();
    let mut c: usize = 0;
    while c < ch
        invariant
            frame.wf(),
            ch == frame.channel_count,
            spc == frame.samples_per_channel,
            total == frame.samples@.len(),
            c <= ch,
            r@.len() == c,
            forall|c2: int| 0 <= c2 < c ==> #[trigger] r@[c2]@ == frame.spec_channels()[c2],
        decreases ch - c,
    {
        let mut cur: Vec<i32> = Vec::new();
        let mut i: usize = 0;
        while i < spc
            invariant
                frame.wf(),
                ch == frame.channel_count,
                spc == frame.samples_per_channel,
                total == frame.samples@.len(),
                c < ch,
                i <= spc,
                cur@.len() == i,
                forall|j: int|
                    0 <= j < i ==> #[trigger] cur@[j] == frame.samples@[c * spc + j],
            decreases spc - i,
        {
            proof {
                assert(c * spc + i < ch * spc) by (nonlinear_arith)
                    requires
                        0 <= c < ch,
                        0 <= i < spc,
                ;
                assert(ch * spc == frame.channel_count * frame.samples_per_channel);
            }
            let idx = c * spc + i;
            cur.push(frame.samples[idx]);
            i += 1;
        }
        proof {
            assert(cur@ =~= frame.spec_channels()[c as int]);
        }
        r.push(cur);
        c += 1;
    }
    proof {
        assert forall|c2: int| 0 <= c2 < ch implies r.deep_view()[c2] == frame.spec_channels()[c2]
        by {
            assert(r@[c2].deep_view() =~= r@[c2]@);
        }
        assert(r.deep_view() =~= frame.spec_channels());
    }
    r
}

/// Validates a decoded frame against the negotiated format and re-packs its
/// samples for output. A frame that did not consume the whole buffer, or
/// whose shape disagrees with the negotiated channel count, signals a prior
/// validation defect, not bad input: it is a fatal invariant violation,
/// never an ordinary decode error.
pub fn process_decoded_frame(frame: DecodedFrame, fmt: &OutputFormat, buffer_len: usize) -> (r:
    Result<Vec<u8>, DecoderError>)
    requires
        fmt.valid(),
    ensures
        frame.consumed != buffer_len ==> r == Err::<Vec<u8>, DecoderError>(
            DecoderError::InvariantViolation,
        ),
        frame.consumed == buffer_len && !(frame.wf() && frame.channel_count
            == fmt.channel_count) ==> r == Err::<Vec<u8>, DecoderError>(
            DecoderError::InvariantViolation,
        ),
        frame.consumed == buffer_len && frame.wf() && frame.channel_count == fmt.channel_count
            ==> (r matches Ok(out) && out@ == spec_repack(
            frame.spec_channels(),
            fmt.sample_format,
        )),
{
    if frame.consumed != buffer_len as u64 {
        return Err(DecoderError::InvariantViolation);
    }
    proof {
        assert((frame.channel_count as int) * (frame.samples_per_channel as int)
            < 0x10000000000000000) by (nonlinear_arith)
            requires
                frame.channel_count < 0x100000000,
                frame.samples_per_channel < 0x100000000,
        ;
    }
    let expected = (frame.channel_count as u64) * (frame.samples_per_channel as u64);
    if frame.samples.len() as u64 != expected {
        return Err(DecoderError::InvariantViolation);
    }
    if frame.channel_count != fmt.channel_count {
        return Err(DecoderError::InvariantViolation);
    }
    let channels = split_channels(&frame);
    proof {
        assert(spec_wf_channels(channels.deep_view()));
    }
    Ok(repack(&channels, fmt.sample_format))
}

/// The decoded frame agrees with the buffer and the negotiated format: the
/// primitive consumed the whole buffer and the frame's shape matches the
/// format's channel count.
pub open spec fn spec_frame_accepted(f: DecodedFrame, fmt: OutputFormat, buffer_len: int) -> bool {
    &&& f.consumed == buffer_len
    &&& f.wf()
    &&& f.channel_count == fmt.channel_count
}

/// What decoding one audio-frame buffer under format `fmt` yields, for
/// every outcome of the primitive: a rejection surfaces as a per-frame
/// decode error, and nothing else does; an end-of-input report is consumed
/// without output; a decoded frame that agrees with the buffer and the
/// format is owed exactly its re-packed bytes; and one that does not is
/// the fatal invariant violation.
pub open spec fn spec_decode_outcome(
    fmt: OutputFormat,
    data: Seq<u8>,
    r: Result<Option<Vec<u8>>, DecoderError>,
) -> bool {
    let f = claxon_frame_of(data);
    &&& (claxon_decode_err(data) <==> (r matches Err(e) && e
        matches DecoderError::FrameDecodeError(m) && m@ == claxon_decode_detail(data)))
    &&& (!claxon_decode_err(data) && claxon_decode_eof(data) ==> r == Ok::<
        Option<Vec<u8>>,
        DecoderError,
    >(None))
    &&& (!claxon_decode_err(data) && !claxon_decode_eof(data) && spec_frame_accepted(
        f,
        fmt,
        data.len() as int,
    ) ==> (r matches Ok(Some(out)) && out@ == spec_repack(f.spec_channels(), fmt.sample_format)))
    &&& (!claxon_decode_err(data) && !claxon_decode_eof(data) && !spec_frame_accepted(
        f,
        fmt,
        data.len() as int,
    ) ==> r == Err::<Option<Vec<u8>>, DecoderError>(DecoderError::InvariantViolation))
}

/// Decodes one audio-frame buffer under a negotiated format: runs the
/// decode primitive, validates its result, and re-packs the samples, as
/// `spec_decode_outcome` states case by case over the primitive's named
/// outcome.
pub fn decode_audio_frame(fmt: &OutputFormat, data: &[u8]) -> (r: Result<
    Option<Vec<u8>>,
    DecoderError,
>)
    requires
        fmt.valid(),
    ensures
        spec_decode_outcome(*fmt, data@, r),
{
    match decode_frame_primitive(data) {
        Err(msg) => Err(DecoderError::FrameDecodeError(msg)),
        Ok(None) => Ok(None),
        Ok(Some(frame)) => {
            let ghost gframe = frame;
            match process_decoded_frame(frame, fmt, data.len()) {
                Err(e) => Err(e),
                Ok(out) => Ok(Some(out)),
            }
        },
    }
}

} // verus!
