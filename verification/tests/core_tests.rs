//! Tests for the layout table, the format resolver, the classifier and the
//! STREAMINFO parser.

use claxondec::classify::classify_buffer;
use claxondec::classify::BufferClass;
use claxondec::errors::DecoderError;
use claxondec::errors::ErrorSeverity;
use claxondec::format::resolve_format;
use claxondec::format::SampleFormat;
use claxondec::layout::channel_layout;
use claxondec::layout::ChannelPosition;
use claxondec::streaminfo::parse_stream_info;
use claxondec::streaminfo::StreamDescriptor;

/// A 38-byte STREAMINFO buffer: block header, block sizes 4096, unknown
/// frame sizes, 44100 Hz, 2 channels, 16 bits per sample.
fn streaminfo_44100_2_16() -> Vec<u8> {
    let mut d = vec![0u8; 38];
    d[0] = 0x00; // STREAMINFO block type, not last
    d[3] = 34; // block length
    d[4] = 0x10; // min block size 4096
    d[6] = 0x10; // max block size 4096
    d[14] = 0x0a; // sample rate 44100 = 0x0ac44, 20 bits
    d[15] = 0xc4;
    d[16] = 0x42; // rate low nibble 4, channels-1 = 001, bps msb 0
    d[17] = 0xf0; // bps low bits 1111 (16 bits per sample)
    d
}

#[test]
fn layout_all_counts_complete() {
    for c in 1..=8u32 {
        let row = channel_layout(c);
        assert_eq!(row.len(), c as usize);
        for p in &row {
            assert_ne!(*p, ChannelPosition::Invalid);
        }
    }
}

#[test]
fn layout_rows_match_table() {
    assert_eq!(channel_layout(1), vec![ChannelPosition::Mono]);
    assert_eq!(
        channel_layout(2),
        vec![ChannelPosition::FrontLeft, ChannelPosition::FrontRight]
    );
    assert_eq!(
        channel_layout(6),
        vec![
            ChannelPosition::FrontLeft,
            ChannelPosition::FrontCenter,
            ChannelPosition::FrontRight,
            ChannelPosition::RearLeft,
            ChannelPosition::RearRight,
            ChannelPosition::LowFrequencyEffects,
        ]
    );
    assert_eq!(
        channel_layout(8),
        vec![
            ChannelPosition::FrontLeft,
            ChannelPosition::FrontCenter,
            ChannelPosition::FrontRight,
            ChannelPosition::SideLeft,
            ChannelPosition::SideRight,
            ChannelPosition::RearLeft,
            ChannelPosition::RearRight,
            ChannelPosition::LowFrequencyEffects,
        ]
    );
}

#[test]
fn resolver_total_on_domain_and_idempotent() {
    for bits in [8u32, 16, 24, 32] {
        for ch in 1..=8u32 {
            let d = StreamDescriptor {
                sample_rate: 96000,
                channel_count: ch,
                bits_per_sample: bits,
            };
            let f1 = resolve_format(&d).expect("domain value must resolve");
            let f2 = resolve_format(&d).expect("domain value must resolve");
            assert_eq!(f1, f2);
            assert_eq!(f1.sample_rate, 96000);
            assert_eq!(f1.channel_count, ch);
            assert_eq!(f1.channel_positions, channel_layout(ch));
        }
    }
}

#[test]
fn resolver_maps_widths() {
    let mk = |bits: u32| StreamDescriptor {
        sample_rate: 44100,
        channel_count: 2,
        bits_per_sample: bits,
    };
    assert_eq!(resolve_format(&mk(8)).unwrap().sample_format, SampleFormat::S8);
    assert_eq!(resolve_format(&mk(16)).unwrap().sample_format, SampleFormat::S16);
    assert_eq!(resolve_format(&mk(24)).unwrap().sample_format, SampleFormat::S2432);
    assert_eq!(resolve_format(&mk(32)).unwrap().sample_format, SampleFormat::S32);
}

#[test]
fn resolver_rejects_outside_domain() {
    let bad_width = StreamDescriptor {
        sample_rate: 44100,
        channel_count: 2,
        bits_per_sample: 12,
    };
    assert_eq!(
        resolve_format(&bad_width),
        Err(DecoderError::UnsupportedSampleWidth)
    );
    let no_channels = StreamDescriptor {
        sample_rate: 44100,
        channel_count: 0,
        bits_per_sample: 16,
    };
    assert_eq!(
        resolve_format(&no_channels),
        Err(DecoderError::UnsupportedChannelCount)
    );
}

#[test]
fn resolver_rejects_nine_channels() {
    let d = StreamDescriptor {
        sample_rate: 44100,
        channel_count: 9,
        bits_per_sample: 16,
    };
    assert_eq!(resolve_format(&d), Err(DecoderError::UnsupportedChannelCount));
}

#[test]
fn classify_stream_marker() {
    assert_eq!(classify_buffer(b"fLaC"), BufferClass::StreamMarker);
}

#[test]
fn classify_streaminfo_header() {
    assert_eq!(
        classify_buffer(&streaminfo_44100_2_16()),
        BufferClass::MetadataHeader
    );
    // The last-block flag may be set: only the low 7 bits name the type.
    assert_eq!(classify_buffer(&[0x80, 0x00, 0x00]), BufferClass::MetadataHeader);
}

#[test]
fn classify_audio_frame() {
    assert_eq!(classify_buffer(&[0xff, 0xf8, 0x19, 0x08]), BufferClass::AudioFrame);
    assert_eq!(classify_buffer(&[0xff, 0xf9, 0x19, 0x08]), BufferClass::AudioFrame);
    // Second byte outside the sync pattern: not a frame.
    assert_eq!(
        classify_buffer(&[0xff, 0x00, 0x00]),
        BufferClass::OtherMetadataHeader
    );
}

#[test]
fn classify_metadata_before_sync_pattern() {
    // A buffer whose first byte carries the STREAMINFO block type and whose
    // second byte matches the sync pattern's second-byte bits: the metadata
    // test comes first.
    assert_eq!(classify_buffer(&[0x00, 0xf8, 0x00]), BufferClass::MetadataHeader);
}

#[test]
fn classify_other_metadata() {
    assert_eq!(classify_buffer(&[0x04, 0x00, 0x00]), BufferClass::OtherMetadataHeader);
    assert_eq!(classify_buffer(&[0x7f, 0x00]), BufferClass::OtherMetadataHeader);
}

#[test]
fn parse_streaminfo_scenario() {
    let d = parse_stream_info(&streaminfo_44100_2_16()).unwrap();
    assert_eq!(
        d,
        StreamDescriptor {
            sample_rate: 44100,
            channel_count: 2,
            bits_per_sample: 16,
        }
    );
    let f = resolve_format(&d).unwrap();
    assert_eq!(f.sample_format, SampleFormat::S16);
    assert_eq!(f.sample_rate, 44100);
    assert_eq!(f.channel_count, 2);
    assert_eq!(
        f.channel_positions,
        vec![ChannelPosition::FrontLeft, ChannelPosition::FrontRight]
    );
}

#[test]
fn parse_streaminfo_agrees_with_claxon() {
    let buf = streaminfo_44100_2_16();
    let mine = parse_stream_info(&buf).unwrap();
    let mut cursor = std::io::Cursor::new(&buf[..]);
    let block = claxon::metadata::read_metadata_block_with_header(&mut cursor).unwrap();
    match block {
        claxon::metadata::MetadataBlock::StreamInfo(si) => {
            assert_eq!(mine.sample_rate, si.sample_rate);
            assert_eq!(mine.channel_count, si.channels);
            assert_eq!(mine.bits_per_sample, si.bits_per_sample);
        }
        _ => panic!("expected a STREAMINFO block"),
    }
}

#[test]
fn parse_streaminfo_too_short() {
    let mut d = streaminfo_44100_2_16();
    d.pop();
    assert_eq!(parse_stream_info(&d), Err(DecoderError::MalformedStreamInfo));
    assert_eq!(parse_stream_info(&[]), Err(DecoderError::MalformedStreamInfo));
}

#[test]
fn parse_streaminfo_wrong_block_type() {
    let mut d = streaminfo_44100_2_16();
    d[0] = 0x04;
    assert_eq!(parse_stream_info(&d), Err(DecoderError::MalformedStreamInfo));
}

#[test]
fn parse_streaminfo_wrong_length_field() {
    let mut d = streaminfo_44100_2_16();
    d[3] = 33;
    assert_eq!(parse_stream_info(&d), Err(DecoderError::MalformedStreamInfo));
}

#[test]
fn parse_streaminfo_invalid_fields() {
    let mut small_block = streaminfo_44100_2_16();
    small_block[4] = 0x00;
    small_block[5] = 0x08; // min block size 8 < 16
    assert_eq!(
        parse_stream_info(&small_block),
        Err(DecoderError::MalformedStreamInfo)
    );
    let mut zero_rate = streaminfo_44100_2_16();
    zero_rate[14] = 0;
    zero_rate[15] = 0;
    zero_rate[16] &= 0x0f; // clear the rate's low nibble
    assert_eq!(
        parse_stream_info(&zero_rate),
        Err(DecoderError::MalformedStreamInfo)
    );
}

#[test]
fn parse_streaminfo_trailing_data() {
    let mut d = streaminfo_44100_2_16();
    d.push(0);
    assert_eq!(
        parse_stream_info(&d),
        Err(DecoderError::TrailingOrTruncatedData)
    );
}

#[test]
fn severity_of_each_error() {
    assert_eq!(
        DecoderError::MalformedStreamInfo.severity(),
        ErrorSeverity::RecoverablePerBuffer
    );
    assert_eq!(
        DecoderError::TrailingOrTruncatedData.severity(),
        ErrorSeverity::RecoverablePerBuffer
    );
    assert_eq!(
        DecoderError::UnsupportedSampleWidth.severity(),
        ErrorSeverity::SessionFatal
    );
    assert_eq!(
        DecoderError::UnsupportedChannelCount.severity(),
        ErrorSeverity::SessionFatal
    );
    assert_eq!(
        DecoderError::NotNegotiated.severity(),
        ErrorSeverity::RecoverablePerBuffer
    );
    assert_eq!(
        DecoderError::FrameDecodeError(String::new()).severity(),
        ErrorSeverity::RecoverablePerBuffer
    );
    assert_eq!(
        DecoderError::InvariantViolation.severity(),
        ErrorSeverity::FatalInvariant
    );
}
