//! From the raw bytes of a device to mono samples: framing, decoding, the
//! downmix and the choice whether to resample.
//!
//! Integer PCM is handled exactly. A frame of integer samples is mixed down
//! to the sum of its channels; the mono sample is that sum divided by the
//! number of channels and by the full scale of the depth, a division that
//! the caller makes in floating point. Samples that already are floating
//! point pass through as their bits.

use crate::arith::{lemma_block_in_range, lemma_stride_in_range};
use crate::audio_loopback::encoding::{spec_le_bytes, word_byte};
use vstd::prelude::*;

verus! {

/// How a device lays out one sample.
#[derive(Debug, Clone, Copy, PartialEq, Eq, Structural)]
pub enum SampleFormat {
    /// Signed 16-bit integers.
    Int16,
    /// Signed 32-bit integers.
    Int32,
    /// 32-bit floating point, taken to lie in [-1, 1] already.
    Float32,
}

impl SampleFormat {
    /// Bits of one sample.
    pub open spec fn spec_bits(self) -> u16 {
        match self {
            SampleFormat::Int16 => 16,
            _ => 32,
        }
    }

    /// Bits of one sample.
    pub fn bits(&self) -> (r: u16)
        ensures
            r == self.spec_bits(),
    {
        match self {
            SampleFormat::Int16 => 16,
            _ => 32,
        }
    }

    /// The magnitude that stands for 1.0: 2^15 for 16-bit integers, 2^31 for
    /// 32-bit integers, and 1 for floating point.
    pub open spec fn spec_full_scale(self) -> u32 {
        match self {
            SampleFormat::Int16 => 32768,
            SampleFormat::Int32 => 2147483648,
            SampleFormat::Float32 => 1,
        }
    }

    /// The magnitude that stands for 1.0.
    pub fn full_scale(&self) -> (r: u32)
        ensures
            r == self.spec_full_scale(),
    {
        match self {
            SampleFormat::Int16 => 32768,
            SampleFormat::Int32 => 2147483648,
            SampleFormat::Float32 => 1,
        }
    }
}

/// Bytes of one frame: one sample of `bits` bits for each channel.
pub open spec fn spec_bytes_per_frame(bits: u16, channels: u16) -> nat {
    ((bits / 8) * channels) as nat
}

/// Bytes of one frame: one sample of `bits` bits for each channel.
pub fn bytes_per_frame(bits: u16, channels: u16) -> (r: usize)
    ensures
        r == spec_bytes_per_frame(bits, channels),
{
    let per_sample: u32 = (bits / 8) as u32;
    assert(per_sample * channels <= 8191 * 65535) by (nonlinear_arith)
        requires
            per_sample <= 8191,
            channels <= 65535,
    ;
    let total: u32 = per_sample * (channels as u32);
    total as usize
}

/// Number of whole frames in `len` bytes; 0 for frames of no bytes.
pub open spec fn spec_frame_count(len: nat, bits: u16, channels: u16) -> nat {
    if spec_bytes_per_frame(bits, channels) == 0 {
        0
    } else {
        len / spec_bytes_per_frame(bits, channels)
    }
}

/// Number of whole frames in `len` bytes; 0 for frames of no bytes.
pub fn frame_count(len: usize, bits: u16, channels: u16) -> (r: usize)
    ensures
        r == spec_frame_count(len as nat, bits, channels),
{
    let frame = bytes_per_frame(bits, channels);
    if frame == 0 {
        0
    } else {
        len / frame
    }
}

/// The signed 16-bit integer with the given bytes, lowest first.
pub open spec fn spec_i16_le(b0: u8, b1: u8) -> int {
    let u = b0 as int + 256 * (b1 as int);
    if u >= 32768 {
        u - 65536
    } else {
        u
    }
}

/// The unsigned 32-bit integer with the given bytes, lowest first.
pub open spec fn spec_u32_le(b0: u8, b1: u8, b2: u8, b3: u8) -> int {
    b0 as int + 256 * (b1 as int) + 65536 * (b2 as int) + 16777216 * (b3 as int)
}

/// The signed 32-bit integer with the given bytes, lowest first.
pub open spec fn spec_i32_le(b0: u8, b1: u8, b2: u8, b3: u8) -> int {
    let u = spec_u32_le(b0, b1, b2, b3);
    if u >= 2147483648 {
        u - 4294967296
    } else {
        u
    }
}

/// The 16-bit samples of a run of bytes; an odd last byte is left out.
pub open spec fn spec_decode_pcm16(bytes: Seq<u8>) -> Seq<i32> {
    Seq::new(bytes.len() / 2, |i: int| spec_i16_le(bytes[2 * i], bytes[2 * i + 1]) as i32)
}

/// The signed 32-bit samples of a run of bytes; up to three last bytes that
/// make no sample are left out.
pub open spec fn spec_decode_pcm32(bytes: Seq<u8>) -> Seq<i32> {
    Seq::new(
        bytes.len() / 4,
        |i: int| spec_i32_le(bytes[4 * i], bytes[4 * i + 1], bytes[4 * i + 2], bytes[4 * i + 3]) as i32,
    )
}

/// The 32-bit words of a run of bytes; up to three last bytes that make no
/// word are left out.
pub open spec fn spec_decode_words(bytes: Seq<u8>) -> Seq<u32> {
    Seq::new(
        bytes.len() / 4,
        |i: int| spec_u32_le(bytes[4 * i], bytes[4 * i + 1], bytes[4 * i + 2], bytes[4 * i + 3]) as u32,
    )
}

/// Decodes signed 16-bit little-endian samples.
pub fn decode_pcm16(bytes: &[u8]) -> (r: Vec<i32>)
    ensures
        r@ == spec_decode_pcm16(bytes@),
        forall|i: int| 0 <= i < r@.len() ==> -32768 <= #[trigger] r@[i] <= 32767,
{
    let n: usize = bytes.len() / 2;
    let mut out: Vec<i32> = Vec::new();
    let mut i: usize = 0;
    while i < n
        invariant
            i <= n,
            n == bytes@.len() / 2,
            bytes@.len() <= usize::MAX,
            out@.len() == i,
            forall|j: int|
                0 <= j < i ==> #[trigger] out@[j] == spec_i16_le(bytes@[2 * j], bytes@[2 * j + 1]),
        decreases n - i,
    {
        let b0: u8 = bytes[2 * i];
        let b1: u8 = bytes[2 * i + 1];
        let u: i32 = (b0 as i32) + 256 * (b1 as i32);
        let v: i32 = if u >= 32768 {
            u - 65536
        } else {
            u
        };
        out.push(v);
        i += 1;
    }
    assert(out@ =~= spec_decode_pcm16(bytes@));
    out
}

/// Decodes signed 32-bit little-endian samples.
pub fn decode_pcm32(bytes: &[u8]) -> (r: Vec<i32>)
    ensures
        r@ == spec_decode_pcm32(bytes@),
{
    let n: usize = bytes.len() / 4;
    let mut out: Vec<i32> = Vec::new();
    let mut i: usize = 0;
    while i < n
        invariant
            i <= n,
            n == bytes@.len() / 4,
            bytes@.len() <= usize::MAX,
            out@.len() == i,
            forall|j: int|
                0 <= j < i ==> #[trigger] out@[j] == spec_i32_le(
                    bytes@[4 * j],
                    bytes@[4 * j + 1],
                    bytes@[4 * j + 2],
                    bytes@[4 * j + 3],
                ),
        decreases n - i,
    {
        let b0: u8 = bytes[4 * i];
        let b1: u8 = bytes[4 * i + 1];
        let b2: u8 = bytes[4 * i + 2];
        let b3: u8 = bytes[4 * i + 3];
        let u: i64 = (b0 as i64) + 256 * (b1 as i64) + 65536 * (b2 as i64) + 16777216 * (b3 as i64);
        let v: i64 = if u >= 2147483648 {
            u - 4294967296
        } else {
            u
        };
        out.push(v as i32);
        i += 1;
    }
    assert(out@ =~= spec_decode_pcm32(bytes@));
    out
}

/// Decodes 32-bit little-endian words: the bits of floating-point samples.
pub fn decode_words(bytes: &[u8]) -> (r: Vec<u32>)
    ensures
        r@ == spec_decode_words(bytes@),
{
    let n: usize = bytes.len() / 4;
    let mut out: Vec<u32> = Vec::new();
    let mut i: usize = 0;
    while i < n
        invariant
            i <= n,
            n == bytes@.len() / 4,
            bytes@.len() <= usize::MAX,
            out@.len() == i,
            forall|j: int|
                0 <= j < i ==> #[trigger] out@[j] == spec_u32_le(
                    bytes@[4 * j],
                    bytes@[4 * j + 1],
                    bytes@[4 * j + 2],
                    bytes@[4 * j + 3],
                ),
        decreases n - i,
    {
        let b0: u8 = bytes[4 * i];
        let b1: u8 = bytes[4 * i + 1];
        let b2: u8 = bytes[4 * i + 2];
        let b3: u8 = bytes[4 * i + 3];
        let u: u64 = (b0 as u64) + 256 * (b1 as u64) + 65536 * (b2 as u64) + 16777216 * (b3 as u64);
        out.push(u as u32);
        i += 1;
    }
    assert(out@ =~= spec_decode_words(bytes@));
    out
}

/// Writing words as bytes and reading them back gives the words again.
pub proof fn lemma_words_round_trip(samples: Seq<u32>)
    ensures
        spec_decode_words(spec_le_bytes(samples)) == samples,
{
    let bytes = spec_le_bytes(samples);
    assert(bytes.len() / 4 == samples.len());
    assert forall|i: int| 0 <= i < samples.len() implies spec_decode_words(bytes)[i]
        == samples[i] by {
        let x = samples[i];
        assert(bytes[4 * i] == word_byte(samples[(4 * i) / 4], (4 * i) % 4));
        assert(bytes[4 * i + 1] == word_byte(samples[(4 * i + 1) / 4], (4 * i + 1) % 4));
        assert(bytes[4 * i + 2] == word_byte(samples[(4 * i + 2) / 4], (4 * i + 2) % 4));
        assert(bytes[4 * i + 3] == word_byte(samples[(4 * i + 3) / 4], (4 * i + 3) % 4));
        assert(x as int == x as int % 256 + 256 * (x as int / 256 % 256) + 65536 * (x as int / 65536
            % 256) + 16777216 * (x as int / 16777216 % 256));
    }
    assert(spec_decode_words(bytes) =~= samples);
}

/// Sum of the `n` samples from `start` on.
pub open spec fn spec_run_sum(samples: Seq<i32>, start: int, n: nat) -> int
    decreases n,
{
    if n == 0 {
        0
    } else {
        spec_run_sum(samples, start, (n - 1) as nat) + samples[start + n - 1]
    }
}

/// For every whole frame of interleaved samples the sum of its channels.
/// The mono sample of a frame is this sum divided by the number of
/// channels: the average, so that no channel is dropped.
pub open spec fn spec_downmix_sums(samples: Seq<i32>, channels: u16) -> Seq<i64> {
    if channels == 0 {
        Seq::empty()
    } else {
        Seq::new(
            samples.len() / (channels as nat),
            |f: int| spec_run_sum(samples, f * channels, channels as nat) as i64,
        )
    }
}

/// A sum of `n` samples lies within `n` times the range of one.
pub proof fn lemma_run_sum_bounds(samples: Seq<i32>, start: int, n: nat)
    requires
        0 <= start,
        start + n <= samples.len(),
    ensures
        -2147483648 * n <= spec_run_sum(samples, start, n) <= 2147483647 * n,
    decreases n,
{
    if n > 0 {
        lemma_run_sum_bounds(samples, start, (n - 1) as nat);
    }
}

/// Mixes interleaved integer samples down to one sum per frame. Samples
/// behind the last whole frame are left out; with no channels there is no
/// frame.
pub fn downmix_sums(samples: &[i32], channels: u16) -> (r: Vec<i64>)
    ensures
        r@ == spec_downmix_sums(samples@, channels),
{
    let mut out: Vec<i64> = Vec::new();
    if channels == 0 {
        return out;
    }
    let ch: usize = channels as usize;
    let frames: usize = samples.len() / ch;
    let mut f: usize = 0;
    while f < frames
        invariant
            f <= frames,
            ch == channels,
            ch > 0,
            frames == samples@.len() / (ch as nat),
            samples@.len() <= usize::MAX,
            out@.len() == f,
            forall|g: int|
                0 <= g < f ==> #[trigger] out@[g] == spec_run_sum(samples@, g * ch, ch as nat),
        decreases frames - f,
    {
        proof {
            lemma_block_in_range(samples@.len() as int, ch as int, f as int);
        }
        let base: usize = f * ch;
        let mut sum: i64 = 0;
        let mut c: usize = 0;
        while c < ch
            invariant
                c <= ch,
                ch <= 65535,
                base + ch <= samples@.len(),
                samples@.len() <= usize::MAX,
                sum == spec_run_sum(samples@, base as int, c as nat),
                -2147483648 * c <= sum <= 2147483647 * c,
            decreases ch - c,
        {
            sum = sum + samples[base + c] as i64;
            c += 1;
        }
        out.push(sum);
        f += 1;
    }
    assert(out@ =~= spec_downmix_sums(samples@, channels)) by {
        assert forall|g: int| 0 <= g < frames implies out@[g] == spec_run_sum(
            samples@,
            g * channels,
            channels as nat,
        ) as i64 by {
            lemma_block_in_range(samples@.len() as int, ch as int, g);
            lemma_run_sum_bounds(samples@, g * ch, ch as nat);
        }
    }
    out
}

/// Two channels that carry opposite signals cancel: the downmix is silence.
pub proof fn lemma_opposite_channels_cancel(samples: Seq<i32>)
    requires
        forall|f: int|
            0 <= f < samples.len() / 2 ==> #[trigger] samples[2 * f] + samples[2 * f + 1] == 0,
    ensures
        spec_downmix_sums(samples, 2).len() == samples.len() / 2,
        forall|f: int|
            0 <= f < samples.len() / 2 ==> #[trigger] spec_downmix_sums(samples, 2)[f] == 0,
{
    assert forall|f: int| 0 <= f < samples.len() / 2 implies #[trigger] spec_downmix_sums(
        samples,
        2,
    )[f] == 0 by {
        reveal_with_fuel(spec_run_sum, 3);
        assert(samples[2 * f] + samples[2 * f + 1] == 0);
        assert(spec_run_sum(samples, f * 2, 2) == samples[f * 2] + samples[f * 2 + 1]);
    }
}

/// With one channel the downmix is the signal itself.
pub proof fn lemma_mono_downmix_is_identity(samples: Seq<i32>)
    ensures
        spec_downmix_sums(samples, 1).len() == samples.len(),
        forall|f: int|
            0 <= f < samples.len() ==> #[trigger] spec_downmix_sums(samples, 1)[f] == samples[f],
{
    assert forall|f: int| 0 <= f < samples.len() implies #[trigger] spec_downmix_sums(samples, 1)[f]
        == samples[f] by {
        reveal_with_fuel(spec_run_sum, 2);
        assert(spec_run_sum(samples, f * 1, 1) == samples[f]);
    }
}

/// Number of samples of channel `c` among `len` interleaved samples.
pub open spec fn spec_channel_len(len: nat, channels: u16, c: int) -> nat {
    if len > c {
        ((len - c - 1) / (channels as int) + 1) as nat
    } else {
        0
    }
}

/// The samples of channel `c` out of interleaved frames.
pub open spec fn spec_channel(samples: Seq<u32>, channels: u16, c: int) -> Seq<u32> {
    Seq::new(spec_channel_len(samples.len(), channels, c), |k: int| samples[k * channels + c])
}

/// The channels of interleaved frames, one sequence for each. A last frame
/// that is not whole gives its samples to the first channels.
pub open spec fn spec_deinterleave(samples: Seq<u32>, channels: u16) -> Seq<Seq<u32>> {
    Seq::new(channels as nat, |c: int| spec_channel(samples, channels, c))
}

/// The contents of a list of channels.
pub open spec fn channel_views(v: Seq<Vec<u32>>) -> Seq<Seq<u32>> {
    Seq::new(v.len(), |c: int| v[c]@)
}

/// Splits interleaved samples into their channels.
pub fn deinterleave(samples: &[u32], channels: u16) -> (r: Vec<Vec<u32>>)
    ensures
        channel_views(r@) == spec_deinterleave(samples@, channels),
{
    let ch: usize = channels as usize;
    let len: usize = samples.len();
    let mut out: Vec<Vec<u32>> = Vec::new();
    let mut c: usize = 0;
    while c < ch
        invariant
            c <= ch,
            ch == channels,
            len == samples@.len(),
            out@.len() == c,
            forall|d: int| 0 <= d < c ==> (#[trigger] out@[d])@ == spec_channel(samples@, channels, d),
        decreases ch - c,
    {
        let count: usize = if len > c {
            (len - c - 1) / ch + 1
        } else {
            0
        };
        let mut one: Vec<u32> = Vec::new();
        let mut k: usize = 0;
        while k < count
            invariant
                k <= count,
                ch == channels,
                c < ch,
                len == samples@.len(),
                count == spec_channel_len(samples@.len(), channels, c as int),
                one@.len() == k,
                forall|m: int| 0 <= m < k ==> #[trigger] one@[m] == samples@[m * ch + c],
            decreases count - k,
        {
            proof {
                lemma_stride_in_range(len as int, ch as int, c as int, k as int);
            }
            one.push(samples[k * ch + c]);
            k += 1;
        }
        assert(one@ =~= spec_channel(samples@, channels, c as int));
        out.push(one);
        c += 1;
    }
    assert(channel_views(out@) =~= spec_deinterleave(samples@, channels));
    out
}

/// A chunk after decoding.
#[derive(Debug)]
pub enum DecodedChunk {
    /// Integer samples, mixed down: for every frame the sum of its channels.
    /// The mono sample is the sum divided by `divisor`.
    Mono { sums: Vec<i64>, divisor: u64 },
    /// Floating-point samples as their bits, still interleaved.
    Float { samples: Vec<u32>, channels: u16 },
}

/// What a mono sample is divided by: the full scale of the format times the
/// number of channels.
pub open spec fn spec_divisor(format: SampleFormat, channels: u16) -> nat {
    (format.spec_full_scale() * channels) as nat
}

/// Decodes the raw bytes of a chunk. Integer samples are mixed down on the
/// way; bytes behind the last whole sample, and samples behind the last
/// whole frame, are left out.
pub fn decode_chunk(bytes: &[u8], format: SampleFormat, channels: u16) -> (r: DecodedChunk)
    ensures
        match format {
            SampleFormat::Int16 => r matches DecodedChunk::Mono { sums, divisor } && sums@
                == spec_downmix_sums(spec_decode_pcm16(bytes@), channels) && divisor
                == spec_divisor(format, channels),
            SampleFormat::Int32 => r matches DecodedChunk::Mono { sums, divisor } && sums@
                == spec_downmix_sums(spec_decode_pcm32(bytes@), channels) && divisor
                == spec_divisor(format, channels),
            SampleFormat::Float32 => r matches DecodedChunk::Float { samples, channels: c }
                && samples@ == spec_decode_words(bytes@) && c == channels,
        },
{
    match format {
        SampleFormat::Int16 => {
            let samples = decode_pcm16(bytes);
            DecodedChunk::Mono {
                sums: downmix_sums(samples.as_slice(), channels),
                divisor: 32768 * (channels as u64),
            }
        },
        SampleFormat::Int32 => {
            let samples = decode_pcm32(bytes);
            DecodedChunk::Mono {
                sums: downmix_sums(samples.as_slice(), channels),
                divisor: 2147483648 * (channels as u64),
            }
        },
        SampleFormat::Float32 => DecodedChunk::Float { samples: decode_words(bytes), channels },
    }
}

/// Whether a stream of `source_rate` has to be resampled for `target_rate`.
pub fn needs_resampling(source_rate: u32, target_rate: u32) -> (r: bool)
    ensures
        r == (source_rate != target_rate),
{
    source_rate != target_rate
}

/// What goes on after the resampler had its turn: the samples themselves
/// where the rates are equal, the resampler's output where it gave one, and
/// the samples themselves again where it failed.
pub open spec fn spec_resample_outcome(
    samples: Seq<u32>,
    source_rate: u32,
    target_rate: u32,
    resampled: Option<Seq<u32>>,
) -> Seq<u32> {
    if source_rate == target_rate {
        samples
    } else {
        match resampled {
            Some(out) => out,
            None => samples,
        }
    }
}

/// Resampling to the rate that the samples already have changes nothing,
/// whatever the rate and whatever the resampler would have made of them.
pub proof fn lemma_identity_resample(samples: Seq<u32>, rate: u32, resampled: Option<Seq<u32>>)
    ensures
        spec_resample_outcome(samples, rate, rate, resampled) == samples,
{
}

/// Chooses between a chunk and what the resampler made of it. `resampled`
/// is `None` where the resampler was not run or failed. With equal rates the
/// chunk comes back unchanged, whatever `resampled` holds; a failed
/// resampling lets the chunk through rather than dropping it.
pub fn resample_outcome(
    samples: Vec<u32>,
    source_rate: u32,
    target_rate: u32,
    resampled: Option<Vec<u32>>,
) -> (r: Vec<u32>)
    ensures
        r@ == spec_resample_outcome(
            samples@,
            source_rate,
            target_rate,
            match resampled {
                Some(v) => Some(v@),
                None => None,
            },
        ),
        source_rate == target_rate ==> r@ == samples@,
{
    if source_rate == target_rate {
        samples
    } else {
        match resampled {
            Some(out) => out,
            None => samples,
        }
    }
}

} // verus!
