//! Tests for interleaving and sample packing.

use claxondec::format::SampleFormat;
use claxondec::repack::interleave;
use claxondec::repack::pack_samples;
use claxondec::repack::repack;

#[test]
fn interleave_two_channels_order() {
    let channels = vec![vec![10, 11, 12], vec![20, 21, 22]];
    assert_eq!(interleave(&channels), vec![10, 20, 11, 21, 12, 22]);
}

#[test]
fn interleave_single_channel_identity() {
    let channels = vec![vec![5, -6, 7]];
    assert_eq!(interleave(&channels), vec![5, -6, 7]);
}

#[test]
fn interleave_three_channels_order() {
    let channels = vec![vec![1, 2], vec![3, 4], vec![5, 6]];
    assert_eq!(interleave(&channels), vec![1, 3, 5, 2, 4, 6]);
}

#[test]
fn pack_8_bit_truncates() {
    let samples = vec![0, 1, -1, 127, -128, 300];
    // 300 exceeds the 8-bit range: only its low byte remains.
    assert_eq!(
        pack_samples(&samples, SampleFormat::S8),
        vec![0x00, 0x01, 0xff, 0x7f, 0x80, 0x2c]
    );
}

#[test]
fn pack_16_bit_little_endian() {
    let samples = vec![0x1234, -2];
    assert_eq!(
        pack_samples(&samples, SampleFormat::S16),
        vec![0x34, 0x12, 0xfe, 0xff]
    );
}

#[test]
fn pack_32_bit_little_endian() {
    let samples = vec![0x0102_0304, -1];
    assert_eq!(
        pack_samples(&samples, SampleFormat::S32),
        vec![0x04, 0x03, 0x02, 0x01, 0xff, 0xff, 0xff, 0xff]
    );
    // The 24-in-32 container lays bytes out exactly like the 32-bit one.
    assert_eq!(
        pack_samples(&samples, SampleFormat::S2432),
        pack_samples(&samples, SampleFormat::S32)
    );
}

#[test]
fn roundtrip_16_bit_mono() {
    let samples: Vec<i32> = vec![0, 1, -1, 32767, -32768, 1234, -4321];
    let packed = repack(&vec![samples.clone()], SampleFormat::S16);
    assert_eq!(packed.len(), 2 * samples.len());
    let decoded: Vec<i32> = packed
        .chunks(2)
        .map(|c| i16::from_le_bytes([c[0], c[1]]) as i32)
        .collect();
    assert_eq!(decoded, samples);
}

#[test]
fn repack_interleaving_law_two_channels() {
    let a = vec![100, 101, 102];
    let b = vec![200, 201, 202];
    let packed = repack(&vec![a, b], SampleFormat::S16);
    let decoded: Vec<i32> = packed
        .chunks(2)
        .map(|c| i16::from_le_bytes([c[0], c[1]]) as i32)
        .collect();
    assert_eq!(decoded, vec![100, 200, 101, 201, 102, 202]);
}
