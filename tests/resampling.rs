use audioadapter_buffers::direct::InterleavedSlice;
use lfs_stt::resample::ResampleStage;
use rubato::{
    Async, FixedAsync, Resampler, SincInterpolationParameters, SincInterpolationType,
    WindowFunction,
};

fn engine(input_rate: usize) -> Async<f32> {
    let params = SincInterpolationParameters {
        sinc_len: 128,
        f_cutoff: Some(0.95),
        interpolation: SincInterpolationType::Linear,
        oversampling_factor: 256,
        window: WindowFunction::BlackmanHarris2,
    };
    Async::<f32>::new_sinc(16_000.0 / input_rate as f64, 1.0, &params, 1024, 1, FixedAsync::Input)
        .unwrap()
}

fn resample_all(resampler: &mut Async<f32>, chunks: Vec<Vec<f32>>) -> Vec<f32> {
    let mut all = Vec::new();
    for chunk in chunks {
        let max = resampler.output_frames_max();
        let mut out = vec![0.0f32; max];
        let input = InterleavedSlice::new(&chunk, 1, chunk.len()).unwrap();
        let mut output = InterleavedSlice::new_mut(&mut out, 1, max).unwrap();
        let (_, frames) = resampler.process_into_buffer(&input, &mut output, None).unwrap();
        out.truncate(frames);
        all.extend(out);
    }
    all
}

#[test]
fn stereo_tone_resamples_to_about_the_target_count() {
    let mut stage = ResampleStage::<f32>::new(2);
    let interleaved: Vec<f32> = vec![0.3f32; 44_100 * 2 * 2];
    let frames = stage.mono_frames(interleaved.len()).unwrap();
    assert_eq!(frames * 2, interleaved.len());
    let mono: Vec<f32> = interleaved.chunks(2).map(|p| (p[0] + p[1]) / 2.0).collect();
    assert_eq!(mono.len(), frames);
    let chunks = stage.push_mono(mono);
    let mut resampler = engine(44_100);
    let out = resample_all(&mut resampler, chunks);
    let expected = frames as f64 * 16_000.0 / 44_100.0;
    assert!((out.len() as f64 - expected).abs() <= 1024.0);
}

#[test]
fn target_rate_mono_passes_through() {
    let mut stage = ResampleStage::<f32>::new(1);
    let input: Vec<f32> = (0..10 * 1024 + 300).map(|i| ((i as f32) * 0.01).sin() * 0.5).collect();
    let chunks = stage.push_mono(input.clone());
    assert_eq!(chunks.len(), 10);
    let mut resampler = engine(16_000);
    let delay = resampler.output_delay();
    let out = resample_all(&mut resampler, chunks);
    assert!((out.len() as i64 - 10 * 1024).abs() <= 1024);
    for i in delay..out.len() {
        assert!((out[i] - input[i - delay]).abs() < 0.01);
    }
}
