//! Resolution of a stream descriptor into a complete negotiated output
//! format: a sample container tag, the rate, the channel count and the
//! channel position sequence.

use vstd::prelude::*;

use crate::errors::DecoderError;
use crate::layout::spec_channel_layout;
use crate::layout::channel_layout;
use crate::layout::ChannelPosition;
use crate::streaminfo::StreamDescriptor;

verus! {

/// The signed-integer sample containers the core can emit. 24-bit samples
/// travel in a 32-bit container with the high byte unused.
#[derive(Debug, Clone, Copy, PartialEq, Eq, Structural)]
pub enum SampleFormat {
    S8,
    S16,
    S2432,
    S32,
}

impl SampleFormat {
    /// The declared bit depth this container stands for.
    pub open spec fn spec_depth(self) -> int {
        match self {
            SampleFormat::S8 => 8,
            SampleFormat::S16 => 16,
            SampleFormat::S2432 => 24,
            SampleFormat::S32 => 32,
        }
    }

    /// How many bytes one sample occupies in the output.
    pub open spec fn spec_container_bytes(self) -> int {
        match self {
            SampleFormat::S8 => 1,
            SampleFormat::S16 => 2,
            SampleFormat::S2432 => 4,
            SampleFormat::S32 => 4,
        }
    }

    /// How many bytes one sample occupies in the output.
    pub fn container_bytes(self) -> (r: usize)
        ensures
            r == self.spec_container_bytes(),
    {
        match self {
            SampleFormat::S8 => 1,
            SampleFormat::S16 => 2,
            SampleFormat::S2432 => 4,
            SampleFormat::S32 => 4,
        }
    }
}

/// The container that a declared bit depth maps to, if any.
pub open spec fn spec_sample_format_of(bits_per_sample: u32) -> Option<SampleFormat> {
    if bits_per_sample == 8 {
        Some(SampleFormat::S8)
    } else if bits_per_sample == 16 {
        Some(SampleFormat::S16)
    } else if bits_per_sample == 24 {
        Some(SampleFormat::S2432)
    } else if bits_per_sample == 32 {
        Some(SampleFormat::S32)
    } else {
        None
    }
}

/// The negotiated output format.
#[derive(Debug, Clone, PartialEq, Eq)]
pub struct OutputFormat {
    /// The container each output sample uses.
    pub sample_format: SampleFormat,
    /// Sample rate in Hz.
    pub sample_rate: u32,
    /// Number of interleaved channels.
    pub channel_count: u32,
    /// Speaker position of each interleaved channel, in output order.
    pub channel_positions: Vec<ChannelPosition>,
}

impl OutputFormat {
    /// The internal consistency of a negotiated format: the channel count is
    /// representable and the position sequence is the fixed layout row of
    /// that count.
    pub open spec fn valid(self) -> bool {
        &&& 1 <= self.channel_count <= 8
        &&& 1 <= self.sample_rate <= 655350
        &&& self.channel_positions@ == spec_channel_layout(self.channel_count as int)
    }
}

/// The domain the resolver accepts: a representable bit depth and a channel
/// count between 1 and 8.
pub open spec fn spec_format_domain(d: StreamDescriptor) -> bool {
    &&& spec_sample_format_of(d.bits_per_sample) is Some
    &&& 1 <= d.channel_count <= 8
}

/// The error the resolver reports outside its domain: an unsupported bit
/// depth is reported before an unsupported channel count.
pub open spec fn spec_resolve_error(d: StreamDescriptor) -> DecoderError {
    if spec_sample_format_of(d.bits_per_sample) is None {
        DecoderError::UnsupportedSampleWidth
    } else {
        DecoderError::UnsupportedChannelCount
    }
}

/// What it means for a format to be the resolution of a descriptor: the
/// container width matches the declared bit depth, the rate and channel
/// count carry over, and the positions are the layout row of the count.
pub open spec fn spec_resolves_to(d: StreamDescriptor, f: OutputFormat) -> bool {
    &&& Some(f.sample_format) == spec_sample_format_of(d.bits_per_sample)
    &&& f.sample_rate == d.sample_rate
    &&& f.channel_count == d.channel_count
    &&& f.channel_positions@ == spec_channel_layout(d.channel_count as int)
}

/// Builds the negotiated output format for a stream descriptor, or reports
/// why none exists. Succeeds exactly on the domain of representable bit
/// depths and channel counts.
pub fn resolve_format(d: &StreamDescriptor) -> (r: Result<OutputFormat, DecoderError>)
    ensures
        r is Ok <==> spec_format_domain(*d),
        r matches Ok(f) ==> spec_resolves_to(*d, f),
        d.valid() ==> (r matches Ok(f) ==> f.valid()),
        r matches Err(e) ==> e == spec_resolve_error(*d),
{
    let sample_format = if d.bits_per_sample == 8 {
        SampleFormat::S8
    } else if d.bits_per_sample == 16 {
        SampleFormat::S16
    } else if d.bits_per_sample == 24 {
        SampleFormat::S2432
    } else if d.bits_per_sample == 32 {
        SampleFormat::S32
    } else {
        return Err(DecoderError::UnsupportedSampleWidth);
    };
    if d.channel_count < 1 || d.channel_count > 8 {
        return Err(DecoderError::UnsupportedChannelCount);
    }
    let channel_positions = channel_layout(d.channel_count);
    Ok(
        OutputFormat {
            sample_format,
            sample_rate: d.sample_rate,
            channel_count: d.channel_count,
            channel_positions,
        },
    )
}

/// Resolution is a function of the descriptor alone: two formats resolved
/// from the same descriptor agree in every field.
pub proof fn lemma_resolver_idempotent(d: StreamDescriptor, f1: OutputFormat, f2: OutputFormat)
    requires
        spec_resolves_to(d, f1),
        spec_resolves_to(d, f2),
    ensures
        f1.sample_format == f2.sample_format,
        f1.sample_rate == f2.sample_rate,
        f1.channel_count == f2.channel_count,
        f1.channel_positions@ == f2.channel_positions@,
{
}

} // verus!
