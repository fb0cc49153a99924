use flutter_video_plugin::audio::{
    AudioError, AudioInfo, AudioPlayer, Format, PartialFrameCursor, SampleFormat, SupportedFormat,
};
use flutter_video_plugin::frame::{AudioFrame, TimeInfo};
use flutter_video_plugin::queue::FrameQueue;

fn no_time() -> TimeInfo {
    TimeInfo { pts: None, timebase: None }
}

fn frame(samples: &[i16]) -> AudioFrame {
    AudioFrame::new(samples.to_vec(), 1, 48_000, samples.len(), no_time()).unwrap()
}

fn stereo_48k() -> AudioInfo {
    AudioInfo { rate: 48_000, channels: Some(2) }
}

fn offered() -> Vec<SupportedFormat> {
    vec![
        SupportedFormat {
            channels: 2,
            min_sample_rate: 8_000,
            max_sample_rate: 44_100,
            data_type: SampleFormat::I16,
        },
        SupportedFormat {
            channels: 2,
            min_sample_rate: 48_000,
            max_sample_rate: 96_000,
            data_type: SampleFormat::F32,
        },
        SupportedFormat {
            channels: 1,
            min_sample_rate: 8_000,
            max_sample_rate: 96_000,
            data_type: SampleFormat::I16,
        },
        SupportedFormat {
            channels: 2,
            min_sample_rate: 48_000,
            max_sample_rate: 48_000,
            data_type: SampleFormat::I16,
        },
    ]
}

fn cursor() -> PartialFrameCursor {
    AudioPlayer::new(&stereo_48k(), &offered()).unwrap().create_stream()
}

#[test]
fn an_exact_format_is_agreed() {
    let player = AudioPlayer::new(&stereo_48k(), &offered()).unwrap();
    assert_eq!(
        player.format(),
        Format { channels: 2, sample_rate: 48_000, data_type: SampleFormat::I16 }
    );
}

#[test]
fn the_ends_of_a_rate_range_count() {
    let low = AudioInfo { rate: 8_000, channels: Some(2) };
    let high = AudioInfo { rate: 44_100, channels: Some(2) };
    assert!(AudioPlayer::new(&low, &offered()).is_ok());
    assert!(AudioPlayer::new(&high, &offered()).is_ok());
}

#[test]
fn a_rate_off_the_offer_is_refused() {
    let info = AudioInfo { rate: 47_999, channels: Some(2) };
    match AudioPlayer::new(&info, &offered()) {
        Err(AudioError::FormatNotSupported(f)) => assert_eq!(
            f,
            Format { channels: 2, sample_rate: 47_999, data_type: SampleFormat::I16 }
        ),
        other => panic!("{:?}", other),
    }
}

#[test]
fn a_channel_count_off_the_offer_is_refused() {
    let info = AudioInfo { rate: 48_000, channels: Some(6) };
    assert!(matches!(
        AudioPlayer::new(&info, &offered()),
        Err(AudioError::FormatNotSupported(Format {
            channels: 6,
            sample_rate: 48_000,
            data_type: SampleFormat::I16
        }))
    ));
}

#[test]
fn only_signed_sixteen_bit_samples_will_do() {
    let only_float = vec![SupportedFormat {
        channels: 2,
        min_sample_rate: 8_000,
        max_sample_rate: 96_000,
        data_type: SampleFormat::F32,
    }];
    assert!(matches!(
        AudioPlayer::new(&stereo_48k(), &only_float),
        Err(AudioError::FormatNotSupported(_))
    ));
    let only_other = vec![SupportedFormat {
        channels: 2,
        min_sample_rate: 8_000,
        max_sample_rate: 96_000,
        data_type: SampleFormat::Other,
    }];
    assert!(matches!(
        AudioPlayer::new(&stereo_48k(), &only_other),
        Err(AudioError::FormatNotSupported(_))
    ));
    assert!(matches!(
        AudioPlayer::new(&stereo_48k(), &Vec::new()),
        Err(AudioError::FormatNotSupported(_))
    ));
}

#[test]
fn a_stream_without_a_channel_map_has_no_channels() {
    let info = AudioInfo { rate: 48_000, channels: None };
    assert!(matches!(
        AudioPlayer::new(&info, &offered()),
        Err(AudioError::FormatNotSupported(Format { channels: 0, .. }))
    ));
    let silent = vec![SupportedFormat {
        channels: 0,
        min_sample_rate: 48_000,
        max_sample_rate: 48_000,
        data_type: SampleFormat::I16,
    }];
    assert!(AudioPlayer::new(&info, &silent).is_ok());
}

#[test]
fn a_rate_beyond_any_device_is_refused() {
    let info = AudioInfo { rate: usize::MAX, channels: Some(2) };
    let wide = vec![SupportedFormat {
        channels: 2,
        min_sample_rate: 0,
        max_sample_rate: u32::MAX,
        data_type: SampleFormat::I16,
    }];
    if usize::MAX as u128 > u32::MAX as u128 {
        assert!(AudioPlayer::new(&info, &wide).is_err());
    }
}

#[test]
fn a_frame_needs_its_samples() {
    assert!(AudioFrame::new(vec![0; 8], 2, 48_000, 4, no_time()).is_some());
    assert!(AudioFrame::new(vec![0; 9], 2, 48_000, 4, no_time()).is_some());
    assert!(AudioFrame::new(vec![0; 7], 2, 48_000, 4, no_time()).is_none());
    assert!(AudioFrame::new(vec![0; 7], usize::MAX, 48_000, 2, no_time()).is_none());
    assert!(AudioFrame::new(Vec::new(), 2, 48_000, 0, no_time()).is_some());
}

#[test]
fn a_frame_plays_only_what_it_claims() {
    let f = AudioFrame::new(vec![1, 2, 3, 4, 5, 6, 7], 2, 48_000, 3, no_time()).unwrap();
    assert_eq!(f.len(), 6);
    assert_eq!(f.sample(0), 1);
    assert_eq!(f.sample(5), 6);
}

#[test]
fn one_frame_spans_several_buffers() {
    let mut c = cursor();
    let mut q = FrameQueue::unbounded();
    assert!(q.push(frame(&[1, 2, 3, 4, 5, 6, 7])).is_none());
    let mut out = [0i16; 3];
    assert_eq!(c.fill(&mut q, &mut out, |s| s), 3);
    assert_eq!(out, [1, 2, 3]);
    assert_eq!(c.fill(&mut q, &mut out, |s| s), 3);
    assert_eq!(out, [4, 5, 6]);
    assert_eq!(c.fill(&mut q, &mut out, |s| s), 1);
    assert_eq!(out, [7, 0, 0]);
    assert_eq!(c.fill(&mut q, &mut out, |s| s), 0);
    assert_eq!(out, [0, 0, 0]);
}

#[test]
fn one_buffer_spans_several_frames() {
    let mut c = cursor();
    let mut q = FrameQueue::unbounded();
    assert!(q.push(frame(&[1, 2])).is_none());
    assert!(q.push(frame(&[])).is_none());
    assert!(q.push(frame(&[3])).is_none());
    assert!(q.push(frame(&[4, 5, 6])).is_none());
    let mut out = [9i16; 5];
    assert_eq!(c.fill(&mut q, &mut out, |s| s), 5);
    assert_eq!(out, [1, 2, 3, 4, 5]);
    assert_eq!(q.len(), 0);
    let mut rest = [9i16; 4];
    assert_eq!(c.fill(&mut q, &mut rest, |s| s), 1);
    assert_eq!(rest, [6, 0, 0, 0]);
}

#[test]
fn an_empty_queue_gives_silence_at_once() {
    let mut c = cursor();
    let mut q: FrameQueue<AudioFrame> = FrameQueue::unbounded();
    let mut out = [7i16; 16];
    assert_eq!(c.fill(&mut q, &mut out, |s| s), 0);
    assert_eq!(out, [0i16; 16]);
}

#[test]
fn an_empty_buffer_takes_nothing() {
    let mut c = cursor();
    let mut q = FrameQueue::unbounded();
    assert!(q.push(frame(&[1, 2, 3])).is_none());
    let mut out: [i16; 0] = [];
    assert_eq!(c.fill(&mut q, &mut out, |s| s), 0);
    assert_eq!(q.len(), 1);
    let mut all = [0i16; 3];
    assert_eq!(c.fill(&mut q, &mut all, |s| s), 3);
    assert_eq!(all, [1, 2, 3]);
}

#[test]
fn every_sample_is_scaled_by_the_volume() {
    let mut c = cursor();
    let mut q = FrameQueue::unbounded();
    assert!(q.push(frame(&[100, -100, 3, -3, 32767, -32768])).is_none());
    let volume: f64 = 0.5;
    let mut out = [1i16; 8];
    assert_eq!(c.fill(&mut q, &mut out, |s| (s as f64 * volume) as i16), 6);
    assert_eq!(out, [50, -50, 1, -1, 16383, -16384, 0, 0]);
}

#[test]
fn volume_is_not_held_to_a_range() {
    let mut c = cursor();
    let mut q = FrameQueue::unbounded();
    assert!(q.push(frame(&[100, -100, 20000, -20000])).is_none());
    let volume: f64 = 2.0;
    let mut out = [0i16; 4];
    assert_eq!(c.fill(&mut q, &mut out, |s| (s as f64 * volume) as i16), 4);
    assert_eq!(out, [200, -200, 32767, -32768]);
}

#[test]
fn the_volume_may_change_between_buffers() {
    let mut c = cursor();
    let mut q = FrameQueue::unbounded();
    assert!(q.push(frame(&[10, 20, 30, 40])).is_none());
    let mut out = [0i16; 2];
    assert_eq!(c.fill(&mut q, &mut out, |s| (s as f64 * 1.0) as i16), 2);
    assert_eq!(out, [10, 20]);
    assert_eq!(c.fill(&mut q, &mut out, |s| (s as f64 * 0.1) as i16), 2);
    assert_eq!(out, [3, 4]);
}

fn pull_all(frames: &[Vec<i16>], pulls: &[usize]) -> Vec<i16> {
    let mut c = cursor();
    let mut q = FrameQueue::unbounded();
    for f in frames {
        assert!(q.push(frame(f)).is_none());
    }
    let mut heard = Vec::new();
    for &n in pulls {
        let mut out = vec![-1i16; n];
        let written = c.fill(&mut q, &mut out, |s| (s as f64 * 0.5) as i16);
        assert!(written <= n);
        assert!(out[written..].iter().all(|&s| s == 0));
        heard.extend_from_slice(&out[..written]);
    }
    heard
}

#[test]
fn every_sample_is_heard_once_whatever_the_buffer_sizes() {
    let frames: Vec<Vec<i16>> = vec![
        (0..7).map(|i| i * 2).collect(),
        Vec::new(),
        (7..8).map(|i| i * 2).collect(),
        (8..40).map(|i| i * 2).collect(),
        (40..41).map(|i| i * 2).collect(),
    ];
    let want: Vec<i16> = (0..41).collect();
    for pulls in [
        vec![41],
        vec![1; 41],
        vec![3, 0, 5, 1, 1, 31, 100],
        vec![40, 1],
        vec![7, 1, 32, 1],
        vec![6, 2, 31, 2],
        vec![100],
    ] {
        assert_eq!(pull_all(&frames, &pulls), want);
    }
    assert_eq!(pull_all(&frames, &[10, 10]), want[..20].to_vec());
}

#[test]
fn frames_queued_between_buffers_follow_on() {
    let mut c = cursor();
    let mut q = FrameQueue::unbounded();
    assert!(q.push(frame(&[1, 2, 3])).is_none());
    let mut out = [0i16; 2];
    assert_eq!(c.fill(&mut q, &mut out, |s| s), 2);
    assert_eq!(out, [1, 2]);
    assert!(q.push(frame(&[4, 5])).is_none());
    let mut more = [0i16; 4];
    assert_eq!(c.fill(&mut q, &mut more, |s| s), 3);
    assert_eq!(more, [3, 4, 5, 0]);
}

#[test]
fn a_frame_keeps_what_it_was_made_with() {
    let t = TimeInfo { pts: Some(960), timebase: None };
    let f = AudioFrame::new(vec![0; 4], 2, 44_100, 2, t).unwrap();
    assert_eq!(f.channels(), 2);
    assert_eq!(f.rate(), 44_100);
    assert_eq!(f.time(), t);
}

fn there_and_back(samples: &[i16], volume: f64) -> Vec<i16> {
    let mut c = cursor();
    let mut q = FrameQueue::unbounded();
    assert!(q.push(frame(samples)).is_none());
    let mut scaled = vec![0i16; samples.len()];
    assert_eq!(c.fill(&mut q, &mut scaled, |s| (s as f64 * volume) as i16), samples.len());
    assert!(q.push(frame(&scaled)).is_none());
    let mut back = vec![0i16; samples.len()];
    assert_eq!(c.fill(&mut q, &mut back, |s| (s as f64 * (1.0 / volume)) as i16), samples.len());
    back
}

#[test]
fn turning_up_and_down_again_is_off_by_one_at_most() {
    let samples: Vec<i16> = vec![0, 1, -1, 2, -2, 3, 99, -99, 100, 4_321, -4_321, 8_000, -8_000];
    for volume in [1.0f64, 1.5, 2.0, 3.0, 4.0, -1.0, -2.5] {
        let back = there_and_back(&samples, volume);
        for (a, b) in samples.iter().zip(back.iter()) {
            assert!((*a as i32 - *b as i32).abs() <= 1, "{} {} {}", volume, a, b);
        }
    }
}

#[test]
fn turning_down_loses_what_quiet_samples_cannot_hold() {
    let samples: Vec<i16> = vec![0, 1, -1, 2, -2, 3, 99, -99, 100, 12_345, -12_345, 32_767, -32_768];
    for volume in [0.5f64, 0.25, 0.75, 0.9, 0.1] {
        let back = there_and_back(&samples, volume);
        let step = (1.0 / volume).ceil() as i32;
        for (a, b) in samples.iter().zip(back.iter()) {
            assert!((*a as i32 - *b as i32).abs() <= step, "{} {} {}", volume, a, b);
        }
    }
    assert_eq!(there_and_back(&[99], 0.1), vec![90]);
}

#[test]
fn turning_up_too_far_cuts_loud_samples_off() {
    assert_eq!(there_and_back(&[20_000, -20_000, 100], 4.0), vec![8_191, -8_192, 100]);
}
