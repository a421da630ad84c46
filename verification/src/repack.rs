//! Re-packing of decoded per-channel sample arrays into one contiguous byte
//! sequence: the channels are interleaved, and every sample is narrowed to
//! the negotiated container width and laid out in little-endian byte order.

use vstd::prelude::*;

use vstd::arithmetic::div_mod::lemma_fundamental_div_mod_converse;

use crate::format::SampleFormat;

verus! {

/// Per-channel sample arrays are well-formed when there is at least one
/// channel and all channels hold the same number of samples.
pub open spec fn spec_wf_channels(chans: Seq<Seq<i32>>) -> bool {
    &&& chans.len() >= 1
    &&& forall|c: int| 0 <= c < chans.len() ==> #[trigger] chans[c].len() == chans[0].len()
}

/// The interleaved sample order: position `i * channels + c` holds channel
/// `c`'s `i`-th sample.
pub open spec fn spec_interleave(chans: Seq<Seq<i32>>) -> Seq<i32>
    recommends
        spec_wf_channels(chans),
{
    let ch = chans.len() as int;
    Seq::new(chans.len() * chans[0].len(), |k: int| chans[k % ch][k / ch])
}

/// Byte `k` of a sample in little-endian order.
pub open spec fn spec_le_byte(s: i32, k: int) -> u8 {
    if k == 0 {
        (s & 0xff) as u8
    } else if k == 1 {
        ((s >> 8) & 0xff) as u8
    } else if k == 2 {
        ((s >> 16) & 0xff) as u8
    } else {
        ((s >> 24) & 0xff) as u8
    }
}

/// The bytes one sample contributes to the output: its low container-width
/// bytes, least significant first. Narrowing to a smaller container simply
/// truncates the high bytes.
pub open spec fn spec_sample_bytes(s: i32, f: SampleFormat) -> Seq<u8> {
    Seq::new(f.spec_container_bytes() as nat, |k: int| spec_le_byte(s, k))
}

/// The byte sequence that packs a sample sequence, sample by sample.
pub open spec fn spec_pack(samples: Seq<i32>, f: SampleFormat) -> Seq<u8>
    decreases samples.len(),
{
    if samples.len() == 0 {
        Seq::empty()
    } else {
        spec_sample_bytes(samples[0], f) + spec_pack(samples.drop_first(), f)
    }
}

/// The byte sequence the repacker produces for per-channel arrays: the
/// channels interleaved, every sample packed to the container width.
pub open spec fn spec_repack(chans: Seq<Seq<i32>>, f: SampleFormat) -> Seq<u8> {
    spec_pack(spec_interleave(chans), f)
}

/// A packed sequence is container-width bytes per sample.
pub proof fn lemma_pack_len(samples: Seq<i32>, f: SampleFormat)
    ensures
        spec_pack(samples, f).len() == samples.len() * f.spec_container_bytes(),
    decreases samples.len(),
{
    if samples.len() == 0 {
    } else {
        lemma_pack_len(samples.drop_first(), f);
        assert(samples.len() * f.spec_container_bytes() == f.spec_container_bytes() + (
        samples.len() - 1) * f.spec_container_bytes()) by (nonlinear_arith);
    }
}

/// Byte `k` of packed sample `i` stands at position `i * width + k`.
pub proof fn lemma_pack_index(samples: Seq<i32>, f: SampleFormat, i: int, k: int)
    requires
        0 <= i < samples.len(),
        0 <= k < f.spec_container_bytes(),
    ensures
        spec_pack(samples, f)[i * f.spec_container_bytes() + k] == spec_le_byte(samples[i], k),
    decreases i,
{
    let w = f.spec_container_bytes();
    lemma_pack_len(samples, f);
    lemma_pack_len(samples.drop_first(), f);
    if i == 0 {
        assert(spec_pack(samples, f)[k] == spec_sample_bytes(samples[0], f)[k]);
    } else {
        lemma_pack_index(samples.drop_first(), f, i - 1, k);
        assert(i * w >= w) by (nonlinear_arith)
            requires
                i >= 1,
                w >= 1,
        ;
        assert((i - 1) * w + k == i * w + k - w) by (nonlinear_arith);
        assert(samples.drop_first()[i - 1] == samples[i]);
        assert(spec_pack(samples, f)[i * w + k] == spec_pack(samples.drop_first(), f)[i * w + k
            - w]);
    }
}

/// Packing one more sample appends its bytes.
proof fn lemma_pack_push(samples: Seq<i32>, x: i32, f: SampleFormat)
    ensures
        spec_pack(samples.push(x), f) == spec_pack(samples, f) + spec_sample_bytes(x, f),
    decreases samples.len(),
{
    if samples.len() == 0 {
        assert(samples.push(x)[0] == x);
        assert(samples.push(x).drop_first() =~= samples);
        assert(spec_pack(samples.push(x), f) =~= spec_pack(samples, f) + spec_sample_bytes(x, f));
    } else {
        lemma_pack_push(samples.drop_first(), x, f);
        assert(samples.push(x)[0] == samples[0]);
        assert(samples.push(x).drop_first() =~= samples.drop_first().push(x));
        assert(spec_pack(samples.push(x), f) =~= spec_pack(samples, f) + spec_sample_bytes(x, f));
    }
}

/// Every byte a sample contributes fits the cast to `u8`.
proof fn lemma_le_byte_bounds(s: i32)
    by (bit_vector)
    ensures
        0 <= (s & 0xff) < 256,
        0 <= ((s >> 8) & 0xff) < 256,
        0 <= ((s >> 16) & 0xff) < 256,
        0 <= ((s >> 24) & 0xff) < 256,
{
}

/// Appends the little-endian container bytes of one sample.
fn push_sample_bytes(out: &mut Vec<u8>, s: i32, f: SampleFormat)
    ensures
        final(out)@ == old(out)@ + spec_sample_bytes(s, f),
{
    proof {
        lemma_le_byte_bounds(s);
    }
    out.push((s & 0xff) as u8);
    match f {
        SampleFormat::S8 => {},
        SampleFormat::S16 => {
            out.push(((s >> 8) & 0xff) as u8);
        },
        SampleFormat::S2432 | SampleFormat::S32 => {
            out.push(((s >> 8) & 0xff) as u8);
            out.push(((s >> 16) & 0xff) as u8);
            out.push(((s >> 24) & 0xff) as u8);
        },
    }
    proof {
        assert(out@ =~= old(out)@ + spec_sample_bytes(s, f));
    }
}

/// Packs a sample sequence into bytes, container width per sample.
pub fn pack_samples(samples: &Vec<i32>, f: SampleFormat) -> (r: Vec<u8>)
    ensures
        r@ == spec_pack(samples@, f),
{
    let mut out: Vec<u8> = Vec::new();
    let n = samples.len();
    let mut i: usize = 0;
    while i < n
        invariant
            i <= n,
            n == samples@.len(),
            out@ == spec_pack(samples@.take(i as int), f),
        decreases n - i,
    {
        push_sample_bytes(&mut out, samples[i], f);
        proof {
            assert(samples@.take(i + 1) =~= samples@.take(i as int).push(samples@[i as int]));
            lemma_pack_push(samples@.take(i as int), samples@[i as int], f);
        }
        i += 1;
    }
    proof {
        assert(samples@.take(n as int) =~= samples@);
    }
    out
}

/// Interleaves per-channel arrays: output position `i * channels + c` holds
/// channel `c`'s `i`-th sample.
pub fn interleave(channels: &Vec<Vec<i32>>) -> (r: Vec<i32>)
    requires
        spec_wf_channels(channels.deep_view()),
    ensures
        r@ == spec_interleave(channels.deep_view()),
{
    let ghost chans = channels.deep_view();
    let ch = channels.len();
    let n = channels[0].len();
    let mut out: Vec<i32> = Vec::new();
    let mut o: usize = 0;
    while o < n
        invariant
            spec_wf_channels(chans),
            chans == channels.deep_view(),
            ch == chans.len(),
            n == chans[0].len(),
            o <= n,
            out@.len() == o * ch,
            forall|k: int|
                0 <= k < out@.len() ==> out@[k] == chans[k % (ch as int)][k / (ch as int)],
        decreases n - o,
    {
        let mut c: usize = 0;
        while c < ch
            invariant
                spec_wf_channels(chans),
                chans == channels.deep_view(),
                ch == chans.len(),
                n == chans[0].len(),
                o < n,
                c <= ch,
                out@.len() == o * ch + c,
                forall|k: int|
                    0 <= k < out@.len() ==> out@[k] == chans[k % (ch as int)][k / (ch as int)],
            decreases ch - c,
        {
            assert(channels@[c as int]@ == chans[c as int]);
            let s = channels[c][o];
            out.push(s);
            proof {
                lemma_fundamental_div_mod_converse(
                    o * ch + c,
                    ch as int,
                    o as int,
                    c as int,
                );
            }
            c += 1;
        }
        proof {
            assert((o + 1) * ch == o * ch + ch) by (nonlinear_arith);
        }
        o += 1;
    }
    proof {
        assert(n * ch == chans.len() * chans[0].len()) by (nonlinear_arith)
            requires
                n == chans[0].len(),
                ch == chans.len(),
        ;
        assert(out@ =~= spec_interleave(chans));
    }
    out
}

/// Interleaves per-channel arrays and packs every sample to the container
/// width, least significant byte first.
pub fn repack(channels: &Vec<Vec<i32>>, f: SampleFormat) -> (r: Vec<u8>)
    requires
        spec_wf_channels(channels.deep_view()),
    ensures
        r@ == spec_repack(channels.deep_view(), f),
{
    let interleaved = interleave(channels);
    pack_samples(&interleaved, f)
}

/// The interleaving law: for well-formed channels, the interleaved sequence
/// holds channel `c`'s `i`-th sample at position `i * channels + c`.
pub proof fn lemma_interleave_order(chans: Seq<Seq<i32>>, c: int, i: int)
    requires
        spec_wf_channels(chans),
        0 <= c < chans.len(),
        0 <= i < chans[0].len(),
    ensures
        spec_interleave(chans).len() == chans.len() * chans[0].len(),
        spec_interleave(chans)[i * chans.len() + c] == chans[c][i],
{
    let ch = chans.len() as int;
    assert(0 <= i * ch + c < chans.len() * chans[0].len()) by (nonlinear_arith)
        requires
            0 <= c < ch,
            0 <= i < chans[0].len(),
            ch == chans.len(),
    ;
    lemma_fundamental_div_mod_converse(i * ch + c, ch, i, c);
}

/// Interleaving a single channel reproduces it unchanged.
pub proof fn lemma_interleave_mono(chans: Seq<Seq<i32>>)
    requires
        spec_wf_channels(chans),
        chans.len() == 1,
    ensures
        spec_interleave(chans) == chans[0],
{
    assert(spec_interleave(chans) =~= chans[0]);
}

/// The value a little-endian byte pair encodes as a 16-bit signed integer.
pub open spec fn spec_i16_of_le_bytes(b0: u8, b1: u8) -> int {
    if b1 >= 128 {
        b1 * 256 + b0 - 65536
    } else {
        b1 * 256 + b0
    }
}

/// Reading a 16-bit-packed sample back reproduces it, as long as the sample
/// fits the 16-bit signed range.
proof fn lemma_sample_roundtrip_16(s: i32)
    by (bit_vector)
    requires
        -32768 <= s <= 32767,
    ensures
        spec_i16_of_le_bytes((s & 0xff) as u8, ((s >> 8) & 0xff) as u8) == s,
{
}

/// The round-trip law: packing samples at 16 bits and reading each
/// little-endian byte pair back as a 16-bit signed integer reproduces the
/// input samples, whenever they fit the 16-bit range.
pub proof fn lemma_pack_roundtrip_16(samples: Seq<i32>)
    requires
        forall|i: int| 0 <= i < samples.len() ==> -32768 <= #[trigger] samples[i] <= 32767,
    ensures
        spec_pack(samples, SampleFormat::S16).len() == 2 * samples.len(),
        forall|i: int|
            0 <= i < samples.len() ==> spec_i16_of_le_bytes(
                spec_pack(samples, SampleFormat::S16)[2 * i],
                spec_pack(samples, SampleFormat::S16)[2 * i + 1],
            ) == samples[i],
{
    lemma_pack_len(samples, SampleFormat::S16);
    assert forall|i: int| 0 <= i < samples.len() implies spec_i16_of_le_bytes(
        spec_pack(samples, SampleFormat::S16)[2 * i],
        spec_pack(samples, SampleFormat::S16)[2 * i + 1],
    ) == samples[i] by {
        lemma_pack_index(samples, SampleFormat::S16, i, 0);
        lemma_pack_index(samples, SampleFormat::S16, i, 1);
        lemma_sample_roundtrip_16(samples[i]);
        assert(i * 2 == 2 * i);
    }
}

/// The mono round-trip law: sending one channel of 16-bit-range samples
/// through the repacker at 16 bits and reading the bytes back as 16-bit
/// signed integers reproduces the channel exactly.
pub proof fn lemma_repack_roundtrip_mono_16(samples: Seq<i32>)
    requires
        forall|i: int| 0 <= i < samples.len() ==> -32768 <= #[trigger] samples[i] <= 32767,
    ensures
        spec_repack(seq![samples], SampleFormat::S16).len() == 2 * samples.len(),
        forall|i: int|
            0 <= i < samples.len() ==> spec_i16_of_le_bytes(
                spec_repack(seq![samples], SampleFormat::S16)[2 * i],
                spec_repack(seq![samples], SampleFormat::S16)[2 * i + 1],
            ) == samples[i],
{
    let chans: Seq<Seq<i32>> = seq![samples];
    lemma_interleave_mono(chans);
    lemma_pack_roundtrip_16(samples);
}

} // verus!
