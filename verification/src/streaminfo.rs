//! Parsing of the STREAMINFO metadata block: a 4-byte block header followed
//! by a 34-byte fixed-layout payload of big-endian fields.

use vstd::prelude::*;

use crate::errors::DecoderError;

verus! {

/// The stream parameters a STREAMINFO block declares.
#[derive(Debug, Clone, Copy, PartialEq, Eq, Structural)]
pub struct StreamDescriptor {
    /// Sample rate in Hz.
    pub sample_rate: u32,
    /// Number of channels.
    pub channel_count: u32,
    /// Declared bits per sample.
    pub bits_per_sample: u32,
}

impl StreamDescriptor {
    /// What every descriptor that came out of a well-formed STREAMINFO block
    /// satisfies: the bit-field widths bound the channel count by 8 and the
    /// bit depth by 32, and the sample rate by 655350.
    pub open spec fn valid(self) -> bool {
        &&& 1 <= self.sample_rate <= 655350
        &&& 1 <= self.channel_count <= 8
        &&& 1 <= self.bits_per_sample <= 32
    }
}

/// A 16-bit big-endian field.
pub open spec fn spec_be16(hi: u8, lo: u8) -> int {
    hi * 256 + lo
}

/// A 24-bit big-endian field.
pub open spec fn spec_be24(b0: u8, b1: u8, b2: u8) -> int {
    b0 * 65536 + b1 * 256 + b2
}

/// The 20-bit sample-rate field: payload bytes 10 and 11 and the high
/// nibble of byte 12 (buffer offsets 14 to 16).
pub open spec fn spec_sample_rate_field(d: Seq<u8>) -> int {
    d[14] * 4096 + d[15] * 16 + d[16] / 16
}

/// The 3-bit channel-count-minus-one field, plus one.
pub open spec fn spec_channel_count_field(d: Seq<u8>) -> int {
    (d[16] / 2) % 8 + 1
}

/// The 5-bit bits-per-sample-minus-one field, plus one.
pub open spec fn spec_bits_per_sample_field(d: Seq<u8>) -> int {
    (d[16] % 2) * 16 + d[17] / 16 + 1
}

/// The bounds the payload fields must satisfy: block sizes consistent and at
/// least 16, frame-size bounds consistent where known (0 means unknown), and
/// the sample rate nonzero and at most 655350.
pub open spec fn spec_fields_valid(d: Seq<u8>) -> bool {
    let min_block = spec_be16(d[4], d[5]);
    let max_block = spec_be16(d[6], d[7]);
    let min_frame = spec_be24(d[8], d[9], d[10]);
    let max_frame = spec_be24(d[11], d[12], d[13]);
    &&& min_block <= max_block
    &&& min_block >= 16
    &&& !(min_frame > max_frame && max_frame != 0)
    &&& 1 <= spec_sample_rate_field(d) <= 655350
}

/// The descriptor a well-formed buffer encodes.
pub open spec fn spec_descriptor_of(d: Seq<u8>) -> StreamDescriptor {
    StreamDescriptor {
        sample_rate: spec_sample_rate_field(d) as u32,
        channel_count: spec_channel_count_field(d) as u32,
        bits_per_sample: spec_bits_per_sample_field(d) as u32,
    }
}

/// What parsing a metadata buffer yields. The buffer must hold exactly one
/// STREAMINFO block: a block header whose low 7 type bits are zero and whose
/// length field says 34, followed by the 34-byte payload. A buffer that is
/// too short, carries another block type or length, or declares inconsistent
/// fields is malformed; a well-formed block followed by trailing bytes is a
/// length mismatch of its own kind.
pub open spec fn spec_parse_stream_info(d: Seq<u8>) -> Result<StreamDescriptor, DecoderError> {
    if d.len() < 38 {
        Err(DecoderError::MalformedStreamInfo)
    } else if d[0] % 128 != 0 {
        Err(DecoderError::MalformedStreamInfo)
    } else if spec_be24(d[1], d[2], d[3]) != 34 {
        Err(DecoderError::MalformedStreamInfo)
    } else if !spec_fields_valid(d) {
        Err(DecoderError::MalformedStreamInfo)
    } else if d.len() != 38 {
        Err(DecoderError::TrailingOrTruncatedData)
    } else {
        Ok(spec_descriptor_of(d))
    }
}

/// Parses a STREAMINFO metadata buffer into a stream descriptor.
pub fn parse_stream_info(data: &[u8]) -> (r: Result<StreamDescriptor, DecoderError>)
    ensures
        r == spec_parse_stream_info(data@),
        r matches Ok(d) ==> d.valid(),
{
    if data.len() < 38 {
        return Err(DecoderError::MalformedStreamInfo);
    }
    if data[0] % 128 != 0 {
        return Err(DecoderError::MalformedStreamInfo);
    }
    let block_len: u32 = (data[1] as u32) * 65536 + (data[2] as u32) * 256 + (data[3] as u32);
    if block_len != 34 {
        return Err(DecoderError::MalformedStreamInfo);
    }
    let min_block: u32 = (data[4] as u32) * 256 + (data[5] as u32);
    let max_block: u32 = (data[6] as u32) * 256 + (data[7] as u32);
    let min_frame: u32 = (data[8] as u32) * 65536 + (data[9] as u32) * 256 + (data[10] as u32);
    let max_frame: u32 = (data[11] as u32) * 65536 + (data[12] as u32) * 256 + (data[13] as u32);
    let sample_rate: u32 = (data[14] as u32) * 4096 + (data[15] as u32) * 16 + (data[16] as u32)
        / 16;
    let channel_count: u32 = ((data[16] as u32) / 2) % 8 + 1;
    let bits_per_sample: u32 = ((data[16] as u32) % 2) * 16 + (data[17] as u32) / 16 + 1;
    if min_block > max_block || min_block < 16 {
        return Err(DecoderError::MalformedStreamInfo);
    }
    if min_frame > max_frame && max_frame != 0 {
        return Err(DecoderError::MalformedStreamInfo);
    }
    if sample_rate == 0 || sample_rate > 655350 {
        return Err(DecoderError::MalformedStreamInfo);
    }
    if data.len() != 38 {
        return Err(DecoderError::TrailingOrTruncatedData);
    }
    Ok(StreamDescriptor { sample_rate, channel_count, bits_per_sample })
}

} // verus!
