use enteract::audio_loopback::audio_processor::{
    bytes_per_frame, decode_chunk, decode_pcm16, decode_pcm32, decode_words, deinterleave,
    downmix_sums, frame_count, needs_resampling, resample_outcome, DecodedChunk, SampleFormat,
};

fn pcm16_bytes(samples: &[i16]) -> Vec<u8> {
    samples.iter().flat_map(|s| s.to_le_bytes()).collect()
}

fn rms(samples: &[f32]) -> f32 {
    (samples.iter().map(|x| x * x).sum::<f32>() / samples.len() as f32).sqrt()
}

#[test]
fn frames_are_counted_in_whole() {
    assert_eq!(bytes_per_frame(16, 2), 4);
    assert_eq!(bytes_per_frame(32, 2), 8);
    assert_eq!(bytes_per_frame(16, 1), 2);
    assert_eq!(bytes_per_frame(4, 2), 0);
    assert_eq!(bytes_per_frame(u16::MAX, u16::MAX), 8191 * 65535);
    assert_eq!(frame_count(4096, 16, 2), 1024);
    assert_eq!(frame_count(4099, 16, 2), 1024);
    assert_eq!(frame_count(4096, 16, 0), 0);
}

#[test]
fn pcm16_is_decoded_exactly() {
    let samples = [0i16, 1, -1, 32767, -32768, 0x1234, -0x1234];
    let decoded = decode_pcm16(&pcm16_bytes(&samples));
    assert_eq!(decoded, samples.iter().map(|s| *s as i32).collect::<Vec<_>>());
    assert_eq!(decode_pcm16(&[0x34, 0x12, 0xff]), vec![0x1234]);
    assert_eq!(decode_pcm16(&[]), Vec::<i32>::new());
}

#[test]
fn pcm32_and_words_are_decoded_exactly() {
    let samples = [0i32, 1, -1, i32::MAX, i32::MIN, 0x1234_5678];
    let bytes: Vec<u8> = samples.iter().flat_map(|s| s.to_le_bytes()).collect();
    assert_eq!(decode_pcm32(&bytes), samples.to_vec());
    let words = [0u32, 1, u32::MAX, 0x8000_0000, 0.25f32.to_bits()];
    let bytes: Vec<u8> = words.iter().flat_map(|s| s.to_le_bytes()).collect();
    assert_eq!(decode_words(&bytes), words.to_vec());
    assert_eq!(decode_words(&[1, 2, 3, 4, 5, 6]), vec![0x0403_0201]);
}

#[test]
fn downmix_sums_the_channels_of_each_frame() {
    assert_eq!(downmix_sums(&[1, 2, 3, 4, 5, 6], 2), vec![3, 7, 11]);
    assert_eq!(downmix_sums(&[1, 2, 3, 4, 5, 6], 3), vec![6, 15]);
    assert_eq!(downmix_sums(&[1, 2, 3, 4, 5], 2), vec![3, 7]);
    assert_eq!(downmix_sums(&[1, 2, 3], 1), vec![1, 2, 3]);
    assert_eq!(downmix_sums(&[1, 2, 3], 0), Vec::<i64>::new());
    assert_eq!(
        downmix_sums(&[i32::MAX, i32::MAX, i32::MIN, i32::MIN], 2),
        vec![2 * i32::MAX as i64, 2 * i32::MIN as i64]
    );
}

#[test]
fn opposite_channels_downmix_to_silence() {
    let mut interleaved = Vec::new();
    for _ in 0..1000 {
        interleaved.push(32767i16);
        interleaved.push(-32767i16);
    }
    match decode_chunk(&pcm16_bytes(&interleaved), SampleFormat::Int16, 2) {
        DecodedChunk::Mono { sums, divisor } => {
            assert_eq!(divisor, 65536);
            assert_eq!(sums.len(), 1000);
            assert!(sums.iter().all(|s| *s == 0));
            let mono: Vec<f32> = sums.iter().map(|s| *s as f32 / divisor as f32).collect();
            assert!(mono.iter().all(|s| *s == 0.0));
        }
        other => panic!("unexpected {:?}", other),
    }
}

#[test]
fn sixteen_bit_sine_keeps_its_rms() {
    let n = 16_000usize;
    let float_sine: Vec<f32> = (0..n)
        .map(|i| (2.0 * std::f32::consts::PI * 440.0 * (i as f32 / 16000.0)).sin() * 0.5)
        .collect();
    let pcm: Vec<i16> = float_sine.iter().map(|s| (s * 32767.0) as i16).collect();
    match decode_chunk(&pcm16_bytes(&pcm), SampleFormat::Int16, 1) {
        DecodedChunk::Mono { sums, divisor } => {
            assert_eq!(divisor, 32768);
            let converted: Vec<f32> = sums.iter().map(|s| *s as f32 / divisor as f32).collect();
            assert_eq!(converted.len(), n);
            assert!((rms(&converted) - rms(&float_sine)).abs() < 0.01);
        }
        other => panic!("unexpected {:?}", other),
    }
}

#[test]
fn floating_point_chunks_pass_as_bits() {
    let samples = [1.0f32, -1.0, 0.25, -0.0];
    let bytes: Vec<u8> = samples.iter().flat_map(|s| s.to_le_bytes()).collect();
    match decode_chunk(&bytes, SampleFormat::Float32, 2) {
        DecodedChunk::Float { samples: out, channels } => {
            assert_eq!(channels, 2);
            assert_eq!(out, samples.iter().map(|s| s.to_bits()).collect::<Vec<_>>());
        }
        other => panic!("unexpected {:?}", other),
    }
}

#[test]
fn thirty_two_bit_integers_are_scaled_by_their_magnitude() {
    assert_eq!(SampleFormat::Int32.full_scale(), 2_147_483_648);
    assert_eq!(SampleFormat::Int16.full_scale(), 32_768);
    assert_eq!(SampleFormat::Float32.full_scale(), 1);
    assert_eq!(SampleFormat::Int16.bits(), 16);
    assert_eq!(SampleFormat::Int32.bits(), 32);
    assert_eq!(SampleFormat::Float32.bits(), 32);
    let bytes: Vec<u8> = [i32::MIN, i32::MIN].iter().flat_map(|s| s.to_le_bytes()).collect();
    match decode_chunk(&bytes, SampleFormat::Int32, 2) {
        DecodedChunk::Mono { sums, divisor } => {
            assert_eq!(sums, vec![2 * i32::MIN as i64]);
            assert_eq!(divisor, 2 * 2_147_483_648);
            assert_eq!(sums[0] as f64 / divisor as f64, -1.0);
        }
        other => panic!("unexpected {:?}", other),
    }
}

#[test]
fn channels_are_split_in_order() {
    assert_eq!(deinterleave(&[1, 2, 3, 4, 5, 6], 2), vec![vec![1, 3, 5], vec![2, 4, 6]]);
    assert_eq!(deinterleave(&[1, 2, 3, 4, 5, 6, 7], 3), vec![vec![1, 4, 7], vec![2, 5], vec![3, 6]]);
    assert_eq!(deinterleave(&[1, 2, 3], 1), vec![vec![1, 2, 3]]);
    assert_eq!(deinterleave(&[], 2), vec![Vec::<u32>::new(), Vec::<u32>::new()]);
    assert_eq!(deinterleave(&[1, 2, 3], 0), Vec::<Vec<u32>>::new());
    assert_eq!(deinterleave(&[9], 4), vec![vec![9], vec![], vec![], vec![]]);
}

#[test]
fn equal_rates_leave_the_samples_unchanged() {
    let x: Vec<u32> = (0..100).collect();
    for rate in [8000u32, 16000, 44100, 48000, 0, u32::MAX] {
        assert!(!needs_resampling(rate, rate));
        assert_eq!(resample_outcome(x.clone(), rate, rate, None), x);
        assert_eq!(resample_outcome(x.clone(), rate, rate, Some(vec![1, 2, 3])), x);
    }
}

#[test]
fn resampler_output_is_used_and_failure_passes_the_chunk_through() {
    let x: Vec<u32> = (0..100).collect();
    assert!(needs_resampling(48000, 16000));
    assert_eq!(resample_outcome(x.clone(), 48000, 16000, Some(vec![7, 8, 9])), vec![7, 8, 9]);
    assert_eq!(resample_outcome(x.clone(), 48000, 16000, None), x);
}
