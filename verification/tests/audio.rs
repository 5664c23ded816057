use media_capture::aggregate::CallbackRates;
use media_capture::audio_buffer::{
    blend_buffers, mixdown, process_audio_frame, reconcile, AudioBuffer, AudioBufferList,
    InputAndOutputAudioBufferList,
};
use media_capture::callback::on_audio_buffers;
use media_capture::error::{BufferSide, CoreAudioError};
use media_capture::resampler::{
    convert, settings, ResamplerSettings, SincInterpolationType, WindowFunction,
};
use rubato::Resampler;

fn mean(frame: &[f32]) -> f32 {
    frame.iter().sum::<f32>() / frame.len() as f32
}

fn blend(a: f32, b: f32) -> f32 {
    (a + b) / 2.0
}

fn no_resampler(_samples: Vec<f32>, _set_up: ResamplerSettings) -> Option<Vec<f32>> {
    panic!("the resampler is not to be called")
}

fn no_mean(_frame: &[f32]) -> f32 {
    panic!("the mixer is not to be called")
}

fn no_blend(_a: f32, _b: f32) -> f32 {
    panic!("the blend is not to be called")
}

fn failing_resampler(_samples: Vec<f32>, _set_up: ResamplerSettings) -> Option<Vec<f32>> {
    None
}

fn doubling_resampler(samples: Vec<f32>, set_up: ResamplerSettings) -> Option<Vec<f32>> {
    assert_eq!(set_up.chunk_size, samples.len());
    let mut out = Vec::new();
    for s in samples {
        out.push(s);
        out.push(s);
    }
    Some(out)
}

fn sinc_resampler(samples: Vec<f32>, set_up: ResamplerSettings) -> Option<Vec<f32>> {
    let interpolation = match set_up.interpolation {
        SincInterpolationType::Cubic => rubato::SincInterpolationType::Cubic,
        SincInterpolationType::Quadratic => rubato::SincInterpolationType::Quadratic,
        SincInterpolationType::Linear => rubato::SincInterpolationType::Linear,
        SincInterpolationType::Nearest => rubato::SincInterpolationType::Nearest,
    };
    let window = match set_up.window {
        WindowFunction::Blackman => rubato::WindowFunction::Blackman,
        WindowFunction::Blackman2 => rubato::WindowFunction::Blackman2,
        WindowFunction::BlackmanHarris => rubato::WindowFunction::BlackmanHarris,
        WindowFunction::BlackmanHarris2 => rubato::WindowFunction::BlackmanHarris2,
        WindowFunction::Hann => rubato::WindowFunction::Hann,
        WindowFunction::Hann2 => rubato::WindowFunction::Hann2,
    };
    let params = rubato::SincInterpolationParameters {
        sinc_len: set_up.sinc_len,
        f_cutoff: set_up.cutoff_percent as f32 / 100.0,
        interpolation,
        oversampling_factor: set_up.oversampling_factor,
        window,
    };
    let mut resampler = rubato::SincFixedIn::<f32>::new(
        set_up.to_rate as f64 / set_up.from_rate as f64,
        set_up.max_relative_ratio as f64,
        params,
        set_up.chunk_size,
        set_up.channels,
    )
    .ok()?;
    let mut waves_out = resampler.process(&[samples], None).ok()?;
    waves_out.pop()
}

fn buffer(channels: u32, data: &[f32]) -> AudioBuffer<'_, f32> {
    AudioBuffer {
        number_channels: channels,
        data_byte_size: (data.len() * 4) as u32,
        data: Some(data),
    }
}

#[test]
fn mixdown_gives_the_mean_of_each_frame() {
    let input = [1.0f32, 3.0, -2.0, 4.0, 0.5, 0.25];
    assert_eq!(mixdown(&input, 2, &mean), vec![2.0, 1.0, 0.375]);
    assert_eq!(mixdown(&input, 3, &mean), vec![2.0 / 3.0, 4.75 / 3.0]);
    assert_eq!(mixdown(&input, 6, &mean), vec![6.75 / 6.0]);
}

#[test]
fn mixdown_has_one_sample_for_each_whole_frame() {
    let input: Vec<f32> = (0..23).map(|i| i as f32).collect();
    for channels in 1..30usize {
        let out = mixdown(&input, channels, &mean);
        assert_eq!(out.len(), input.len() / channels);
        for (k, sample) in out.iter().enumerate() {
            assert_eq!(*sample, mean(&input[k * channels..(k + 1) * channels]));
        }
    }
}

#[test]
fn mixdown_drops_an_incomplete_last_frame() {
    let input = [1.0f32, 3.0, 5.0];
    assert_eq!(mixdown(&input, 2, &mean), vec![2.0]);
    assert_eq!(mixdown(&input, 4, &mean), Vec::<f32>::new());
    assert_eq!(mixdown(&[], 2, &mean), Vec::<f32>::new());
}

#[test]
fn mixdown_of_mono_is_a_copy() {
    let input = [0.5f32, -0.5, 0.25];
    assert_eq!(mixdown(&input, 1, &no_mean), input.to_vec());
}

#[test]
fn conversion_between_equal_rates_is_the_identity() {
    for rate in [0u32, 1, 22050, 44100, 48000, u32::MAX] {
        for input in [vec![], vec![1.0f32], vec![0.1, 0.2, 0.3]] {
            assert_eq!(convert(input.clone(), rate, rate, &no_resampler), Some(input));
        }
    }
}

#[test]
fn conversion_hands_the_samples_and_the_set_up_to_the_resampler() {
    let seen = |samples: Vec<f32>, set_up: ResamplerSettings| {
        assert_eq!(samples, vec![1.0, 2.0, 3.0]);
        assert_eq!(set_up, settings(44100, 48000, 3));
        assert_eq!(set_up.from_rate, 44100);
        assert_eq!(set_up.to_rate, 48000);
        assert_eq!(set_up.sinc_len, 256);
        assert_eq!(set_up.cutoff_percent, 95);
        assert_eq!(set_up.interpolation, SincInterpolationType::Linear);
        assert_eq!(set_up.oversampling_factor, 256);
        assert_eq!(set_up.window, WindowFunction::BlackmanHarris2);
        assert_eq!(set_up.max_relative_ratio, 2);
        assert_eq!(set_up.chunk_size, 3);
        assert_eq!(set_up.channels, 1);
        Some(vec![9.0])
    };
    assert_eq!(convert(vec![1.0, 2.0, 3.0], 44100, 48000, &seen), Some(vec![9.0]));
}

#[test]
fn conversion_gives_nothing_where_the_resampler_fails() {
    assert_eq!(convert(vec![1.0f32], 44100, 48000, &failing_resampler), None);
}

#[test]
fn conversion_from_or_to_no_rate_gives_nothing() {
    assert_eq!(convert(vec![1.0f32], 0, 48000, &no_resampler), None);
    assert_eq!(convert(vec![1.0f32], 48000, 0, &no_resampler), None);
    assert_eq!(convert(vec![1.0f32], 0, 0, &no_resampler), Some(vec![1.0]));
}

#[test]
fn conversion_through_the_sinc_resampler_changes_the_length() {
    let input: Vec<f32> = (0..4800).map(|i| ((i % 100) as f32) / 100.0).collect();
    let out = convert(input.clone(), 48000, 24000, &sinc_resampler).unwrap();
    assert!(2000 < out.len() && out.len() <= 2400, "{}", out.len());
    let out = convert(input.clone(), 24000, 48000, &sinc_resampler).unwrap();
    assert!(9000 < out.len() && out.len() <= 9600, "{}", out.len());
    assert_eq!(convert(input.clone(), 48000, 48000, &sinc_resampler), Some(input));
}

#[test]
fn frame_without_data_is_not_processed() {
    let data = [1.0f32, 2.0];
    assert_eq!(process_audio_frame(None, 8, 2, 1, 2, &no_mean, &no_resampler), None);
    assert_eq!(process_audio_frame(Some(&data[..]), 0, 2, 1, 2, &no_mean, &no_resampler), None);
}

#[test]
fn frame_is_mixed_down_and_converted() {
    let data = [1.0f32, 3.0, 5.0, 7.0];
    assert_eq!(
        process_audio_frame(Some(&data[..]), 16, 2, 48000, 48000, &mean, &no_resampler),
        Some(vec![2.0, 6.0])
    );
    assert_eq!(
        process_audio_frame(Some(&data[..]), 16, 1, 48000, 48000, &no_mean, &no_resampler),
        Some(vec![1.0, 3.0, 5.0, 7.0])
    );
    assert_eq!(
        process_audio_frame(Some(&data[..]), 16, 0, 48000, 48000, &no_mean, &no_resampler),
        Some(vec![1.0, 3.0, 5.0, 7.0])
    );
    assert_eq!(
        process_audio_frame(Some(&data[..]), 16, 2, 24000, 48000, &mean, &doubling_resampler),
        Some(vec![2.0, 2.0, 6.0, 6.0])
    );
    assert_eq!(
        process_audio_frame(Some(&data[..]), 16, 2, 24000, 48000, &mean, &failing_resampler),
        None
    );
}

#[test]
fn frame_holds_four_bytes_for_each_sample() {
    let data = [1.0f32, 3.0, 5.0, 7.0];
    assert_eq!(
        process_audio_frame(Some(&data[..]), 8, 1, 1, 1, &no_mean, &no_resampler),
        Some(vec![1.0, 3.0])
    );
    assert_eq!(
        process_audio_frame(Some(&data[..]), 11, 1, 1, 1, &no_mean, &no_resampler),
        Some(vec![1.0, 3.0])
    );
    assert_eq!(
        process_audio_frame(Some(&data[..]), 3, 1, 1, 1, &no_mean, &no_resampler),
        Some(vec![])
    );
    assert_eq!(
        process_audio_frame(Some(&data[..]), 400, 1, 1, 1, &no_mean, &no_resampler),
        Some(vec![1.0, 3.0, 5.0, 7.0])
    );
}

#[test]
fn shorter_buffer_is_padded_with_silence() {
    assert_eq!(blend_buffers(&[1.0f32, 2.0], &[3.0], 0.0, &blend), vec![2.0, 1.0]);
    assert_eq!(blend_buffers(&[3.0f32], &[1.0, 2.0], 0.0, &blend), vec![2.0, 1.0]);
    assert_eq!(blend_buffers(&[], &[1.0f32, 2.0], 0.0, &blend), vec![0.5, 1.0]);
    assert_eq!(blend_buffers(&[], &[], 0.0f32, &no_blend), Vec::<f32>::new());
    assert_eq!(blend_buffers(&[1.0f32], &[], 4.0, &blend), vec![2.5]);
}

#[test]
fn two_buffers_at_equal_rates_are_averaged() {
    let input = [1.0f32, 2.0];
    let output = [3.0f32];
    let list = AudioBufferList { number_buffers: 2, buffers: [buffer(1, &input), buffer(1, &output)] };
    let pair = InputAndOutputAudioBufferList::from_raw(list).unwrap();
    let mixed = pair.mix_input_and_output(48000, 48000, 48000, &no_mean, &no_resampler, 0.0, &blend);
    assert_eq!(mixed, Ok(vec![2.0, 1.0]));
}

#[test]
fn each_buffer_is_converted_from_its_own_rate() {
    let input = [1.0f32, 2.0, 3.0, 4.0];
    let output = [10.0f32, 20.0, 30.0, 40.0];
    let list = AudioBufferList { number_buffers: 2, buffers: [buffer(2, &input), buffer(1, &output)] };
    let pair = InputAndOutputAudioBufferList::from_raw(list).unwrap();
    let seen = |samples: Vec<f32>, set_up: ResamplerSettings| {
        assert_eq!(set_up.from_rate, 24000);
        assert_eq!(set_up.to_rate, 48000);
        assert_eq!(samples, vec![1.5, 3.5]);
        doubling_resampler(samples, set_up)
    };
    let mixed = pair.mix_input_and_output(48000, 24000, 48000, &mean, &seen, 0.0, &blend);
    assert_eq!(mixed, Ok(vec![5.75, 10.75, 16.75, 21.75]));
}

#[test]
fn buffer_that_gives_nothing_fails_the_mix() {
    let data = [1.0f32, 2.0];
    let empty = AudioBuffer { number_channels: 1, data_byte_size: 0, data: Some(&data[..]) };
    let null = AudioBuffer { number_channels: 1, data_byte_size: 8, data: None };
    let full = buffer(1, &data);
    let mix = |a: AudioBuffer<'_, f32>, b: AudioBuffer<'_, f32>, from: u32| {
        let list = AudioBufferList { number_buffers: 2, buffers: [a, b] };
        InputAndOutputAudioBufferList::from_raw(list)
            .unwrap()
            .mix_input_and_output(48000, from, 48000, &mean, &failing_resampler, 0.0, &blend)
    };
    let input_failed = Err(CoreAudioError::BufferProcessingFailed(BufferSide::Input));
    let output_failed = Err(CoreAudioError::BufferProcessingFailed(BufferSide::Output));
    assert_eq!(mix(empty, full, 48000), input_failed);
    assert_eq!(mix(null, full, 48000), input_failed);
    assert_eq!(mix(null, null, 48000), input_failed);
    assert_eq!(mix(full, empty, 48000), output_failed);
    assert_eq!(mix(full, null, 48000), output_failed);
    assert_eq!(mix(full, full, 44100), input_failed);
    assert_eq!(mix(full, full, 48000), Ok(vec![1.0, 2.0]));
}

#[test]
fn reconciliation_reports_the_side_that_gave_nothing() {
    assert_eq!(
        reconcile(None, Some(vec![1.0f32]), 0.0, &no_blend),
        Err(CoreAudioError::BufferProcessingFailed(BufferSide::Input))
    );
    assert_eq!(
        reconcile(None, None, 0.0f32, &no_blend),
        Err(CoreAudioError::BufferProcessingFailed(BufferSide::Input))
    );
    assert_eq!(
        reconcile(Some(vec![1.0f32]), None, 0.0, &no_blend),
        Err(CoreAudioError::BufferProcessingFailed(BufferSide::Output))
    );
    assert_eq!(reconcile(Some(vec![1.0f32, 2.0]), Some(vec![3.0]), 0.0, &blend), Ok(vec![2.0, 1.0]));
}

#[test]
fn list_must_hold_two_buffers() {
    let data = [1.0f32];
    for n in [0u32, 1, 3, u32::MAX] {
        let list = AudioBufferList { number_buffers: n, buffers: [buffer(1, &data), buffer(1, &data)] };
        assert_eq!(InputAndOutputAudioBufferList::from_raw(list).err(), Some(0x21737472));
    }
    let list = AudioBufferList { number_buffers: 2, buffers: [buffer(1, &data), buffer(1, &data)] };
    assert!(InputAndOutputAudioBufferList::from_raw(list).is_ok());
}

#[test]
fn pre_roll_is_passed_over() {
    let data = [1.0f32, 2.0];
    let rates = CallbackRates { target_sample_rate: 48000, input_sample_rate: 44100, output_sample_rate: 44100 };
    for time in [-1i64, -512, i64::MIN] {
        let list = AudioBufferList { number_buffers: 2, buffers: [buffer(2, &data), buffer(2, &data)] };
        let outcome = on_audio_buffers(time, list, rates, &no_mean, &no_resampler, 0.0, &no_blend);
        assert_eq!(outcome.status, 0);
        assert_eq!(outcome.delivery, None);
    }
}

#[test]
fn callback_delivers_the_mix() {
    let input = [1.0f32, 2.0];
    let output = [3.0f32];
    let rates = CallbackRates { target_sample_rate: 48000, input_sample_rate: 48000, output_sample_rate: 48000 };
    for time in [0i64, 1, 4096, i64::MAX] {
        let list = AudioBufferList { number_buffers: 2, buffers: [buffer(1, &input), buffer(1, &output)] };
        let outcome = on_audio_buffers(time, list, rates, &mean, &no_resampler, 0.0, &blend);
        assert_eq!(outcome.status, 0);
        assert_eq!(outcome.delivery, Some(vec![2.0, 1.0]));
    }
}

#[test]
fn callback_absorbs_what_cannot_be_processed() {
    let data = [1.0f32, 2.0];
    let rates = CallbackRates { target_sample_rate: 48000, input_sample_rate: 44100, output_sample_rate: 48000 };
    let one = AudioBufferList { number_buffers: 1, buffers: [buffer(1, &data), buffer(1, &data)] };
    let outcome = on_audio_buffers(0, one, rates, &no_mean, &no_resampler, 0.0, &no_blend);
    assert_eq!((outcome.status, outcome.delivery), (0, None));
    let null = AudioBuffer { number_channels: 1, data_byte_size: 8, data: None };
    let list = AudioBufferList { number_buffers: 2, buffers: [null, buffer(1, &data)] };
    let outcome = on_audio_buffers(0, list, rates, &no_mean, &no_resampler, 0.0, &no_blend);
    assert_eq!((outcome.status, outcome.delivery), (0, None));
    let list = AudioBufferList { number_buffers: 2, buffers: [buffer(1, &data), buffer(1, &data)] };
    let outcome = on_audio_buffers(0, list, rates, &mean, &failing_resampler, 0.0, &blend);
    assert_eq!((outcome.status, outcome.delivery), (0, None));
}
