use sotto::audio::{AudioRecorder, ConfigRange, ConfigSource, InputConfig, InputDevice, SampleFormat};
use sotto::error::CoreError;
use sotto::resample::{decimation_factor, resample_into, TARGET_SAMPLE_RATE};

fn device_at(rate: u32) -> InputDevice {
    InputDevice {
        supported: None,
        default_config: Some(InputConfig { sample_rate: rate, sample_format: SampleFormat::F32 }),
    }
}

#[test]
fn target_rate_is_16k() {
    assert_eq!(TARGET_SAMPLE_RATE, 16000);
}

#[test]
fn decimation_factor_of_rates() {
    assert_eq!(decimation_factor(16000), 1);
    assert_eq!(decimation_factor(32000), 2);
    assert_eq!(decimation_factor(48000), 3);
    assert_eq!(decimation_factor(96000), 6);
    assert_eq!(decimation_factor(44100), 1);
    assert_eq!(decimation_factor(8000), 1);
    assert_eq!(decimation_factor(0), 1);
    assert_eq!(decimation_factor(u32::MAX), 1);
}

#[test]
fn resample_keeps_first_of_each_group() {
    let mut pending: Vec<i32> = Vec::new();
    let mut out: Vec<i32> = Vec::new();
    resample_into(&mut pending, &mut out, &[10, 11, 12, 13, 14, 15, 16], 3);
    assert_eq!(out, vec![10, 13]);
    assert_eq!(pending, vec![16]);
    resample_into(&mut pending, &mut out, &[17, 18], 3);
    assert_eq!(out, vec![10, 13, 16]);
    assert_eq!(pending, Vec::<i32>::new());
}

#[test]
fn resample_holds_back_incomplete_group() {
    let mut pending: Vec<i32> = Vec::new();
    let mut out: Vec<i32> = Vec::new();
    resample_into(&mut pending, &mut out, &[1, 2], 3);
    assert_eq!(out, Vec::<i32>::new());
    assert_eq!(pending, vec![1, 2]);
    resample_into(&mut pending, &mut out, &[], 3);
    assert_eq!(out, Vec::<i32>::new());
    assert_eq!(pending, vec![1, 2]);
    resample_into(&mut pending, &mut out, &[3], 3);
    assert_eq!(out, vec![1]);
    assert_eq!(pending, Vec::<i32>::new());
}

#[test]
fn resample_with_factor_one_passes_through() {
    let mut pending: Vec<i32> = Vec::new();
    let mut out: Vec<i32> = vec![9];
    resample_into(&mut pending, &mut out, &[1, 2, 3, 4], 1);
    assert_eq!(out, vec![9, 1, 2, 3, 4]);
    assert_eq!(pending, Vec::<i32>::new());
}

#[test]
fn emits_floor_of_a_third_in_order() {
    for n in 0usize..50 {
        let input: Vec<u32> = (0..n as u32).collect();
        let mut pending: Vec<u32> = Vec::new();
        let mut out: Vec<u32> = Vec::new();
        resample_into(&mut pending, &mut out, &input, 3);
        assert_eq!(out.len(), n / 3);
        for (k, sample) in out.iter().enumerate() {
            assert_eq!(*sample, (3 * k) as u32);
        }
        assert_eq!(pending.len(), n % 3);
    }
}

#[test]
fn chunking_does_not_change_the_output() {
    let input: Vec<u32> = (0..100).collect();
    let mut whole_pending: Vec<u32> = Vec::new();
    let mut whole_out: Vec<u32> = Vec::new();
    resample_into(&mut whole_pending, &mut whole_out, &input, 3);
    for chunk in [1usize, 2, 4, 5, 7, 64] {
        let mut pending: Vec<u32> = Vec::new();
        let mut out: Vec<u32> = Vec::new();
        for part in input.chunks(chunk) {
            resample_into(&mut pending, &mut out, part, 3);
        }
        assert_eq!(out, whole_out);
        assert_eq!(pending, whole_pending);
    }
}

#[test]
fn nine_thousand_samples_at_48k_give_three_thousand() {
    let mut recorder: AudioRecorder<f32> = AudioRecorder::new();
    let started = recorder.start(Some(&device_at(48000))).expect("start");
    let choice = started.expect("a configuration");
    assert_eq!(choice.source, ConfigSource::DeviceDefault);
    assert_eq!(choice.config.sample_rate, 48000);
    let mut next = 0u32;
    for _ in 0..3 {
        let chunk: Vec<f32> = (0..3000)
            .map(|_| {
                let v = next as f32;
                next += 1;
                v
            })
            .collect();
        recorder.push_samples(&chunk);
    }
    assert_eq!(recorder.sample_rate(), 48000);
    let samples = recorder.stop();
    assert_eq!(samples.len(), 3000);
    for (k, sample) in samples.iter().enumerate() {
        assert_eq!(*sample, (3 * k) as f32);
    }
    assert!(!recorder.is_recording());
}

#[test]
fn samples_at_target_rate_pass_through() {
    let mut recorder: AudioRecorder<i16> = AudioRecorder::new();
    recorder.start(Some(&device_at(16000))).unwrap();
    recorder.push_samples(&[1, 2, 3, 4, 5]);
    recorder.push_samples(&[6]);
    assert_eq!(recorder.stop(), vec![1, 2, 3, 4, 5, 6]);
}

#[test]
fn samples_at_other_rates_pass_through_unresampled() {
    let mut recorder: AudioRecorder<i16> = AudioRecorder::new();
    recorder.start(Some(&device_at(44100))).unwrap();
    recorder.push_samples(&[1, 2, 3, 4, 5]);
    assert_eq!(recorder.stop(), vec![1, 2, 3, 4, 5]);
}

#[test]
fn incomplete_group_is_dropped_at_stop() {
    let mut recorder: AudioRecorder<i16> = AudioRecorder::new();
    recorder.start(Some(&device_at(48000))).unwrap();
    recorder.push_samples(&[1, 2, 3, 4, 5]);
    assert_eq!(recorder.stop(), vec![1]);
    recorder.start(Some(&device_at(48000))).unwrap();
    recorder.push_samples(&[7]);
    recorder.push_samples(&[8, 9]);
    assert_eq!(recorder.stop(), vec![7]);
}

#[test]
fn new_recorder_is_idle() {
    let mut recorder: AudioRecorder<f32> = AudioRecorder::new();
    assert!(!recorder.is_recording());
    assert_eq!(recorder.sample_rate(), 0);
    assert_eq!(recorder.stop(), Vec::<f32>::new());
}

#[test]
fn stop_while_idle_gives_nothing() {
    let mut recorder: AudioRecorder<i16> = AudioRecorder::new();
    recorder.push_samples(&[1, 2, 3]);
    assert_eq!(recorder.stop(), Vec::<i16>::new());
    recorder.start(Some(&device_at(16000))).unwrap();
    recorder.push_samples(&[1, 2, 3]);
    assert_eq!(recorder.stop(), vec![1, 2, 3]);
    assert_eq!(recorder.stop(), Vec::<i16>::new());
}

#[test]
fn start_while_recording_is_a_no_op() {
    let mut recorder: AudioRecorder<i16> = AudioRecorder::new();
    assert!(recorder.start(Some(&device_at(16000))).unwrap().is_some());
    recorder.push_samples(&[1, 2]);
    assert_eq!(recorder.start(Some(&device_at(48000))), Ok(None));
    assert_eq!(recorder.start(None), Ok(None));
    assert_eq!(recorder.sample_rate(), 16000);
    assert!(recorder.is_recording());
    assert_eq!(recorder.stop(), vec![1, 2]);
}

#[test]
fn start_without_device_fails() {
    let mut recorder: AudioRecorder<i16> = AudioRecorder::new();
    assert_eq!(recorder.start(None), Err(CoreError::DeviceUnavailable));
    assert!(!recorder.is_recording());
    let empty = InputDevice { supported: Some(Vec::new()), default_config: None };
    assert_eq!(recorder.start(Some(&empty)), Err(CoreError::DeviceUnavailable));
    assert!(!recorder.is_recording());
}

#[test]
fn start_with_unconvertible_format_fails() {
    let mut recorder: AudioRecorder<i16> = AudioRecorder::new();
    let device = InputDevice {
        supported: Some(vec![ConfigRange {
            min_sample_rate: 8000,
            max_sample_rate: 48000,
            sample_format: SampleFormat::Other,
        }]),
        default_config: Some(InputConfig { sample_rate: 48000, sample_format: SampleFormat::F32 }),
    };
    assert_eq!(recorder.start(Some(&device)), Err(CoreError::UnsupportedFormat));
    assert!(!recorder.is_recording());
    assert_eq!(recorder.sample_rate(), 0);
}
