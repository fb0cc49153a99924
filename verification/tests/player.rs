use flutter_video_plugin::audio::{
    AudioError, AudioInfo, AudioPlayer, Format, SampleFormat, SupportedFormat,
};
use flutter_video_plugin::frame::{
    AudioFrame, DecodedFrame, MediaKind, Planes, TimeInfo, Timebase, VideoFrame,
};
use flutter_video_plugin::player::{
    dispatch_gate, find_codec, frame_queues, route, DecodeStep, Decoding, DemuxEvent,
    DispatchStep, PlaybackContext, Player, PlayerError, Stream, StreamParams,
    VIDEO_QUEUE_CAPACITY,
};
use flutter_video_plugin::state::PlayerState;
use flutter_video_plugin::video::{RenderStep, VideoInfo, VideoPlayer};

fn registry() -> Vec<String> {
    vec!["vp9".to_string(), "opus".to_string(), "vorbis".to_string(), "opus".to_string()]
}

fn stream(index: isize, codec: Option<&str>, kind: Option<StreamParams>) -> Stream {
    Stream { index, codec_id: codec.map(|c| c.to_string()), kind }
}

fn video(width: usize, height: usize) -> Option<StreamParams> {
    Some(StreamParams::Video(VideoInfo { width, height }))
}

fn audio(rate: usize, channels: usize) -> Option<StreamParams> {
    Some(StreamParams::Audio(AudioInfo { rate, channels: Some(channels) }))
}

fn no_time() -> TimeInfo {
    TimeInfo { pts: None, timebase: None }
}

fn sound(first: i16) -> DecodedFrame {
    DecodedFrame::Audio(AudioFrame::new(vec![first, 0], 2, 48_000, 1, no_time()).unwrap())
}

fn picture(luma: u8) -> DecodedFrame {
    let planes = Planes {
        y: vec![luma; 4],
        y_stride: 2,
        u: vec![128],
        u_stride: 1,
        v: vec![128],
        v_stride: 1,
    };
    DecodedFrame::Video(VideoFrame::new(2, 2, planes, no_time()).unwrap())
}

#[test]
fn codecs_are_found_by_their_whole_name() {
    let r = registry();
    assert_eq!(find_codec(&r, "vp9"), Some(0));
    assert_eq!(find_codec(&r, "opus"), Some(1));
    assert_eq!(find_codec(&r, "vorbis"), Some(2));
    assert_eq!(find_codec(&r, "Opus"), None);
    assert_eq!(find_codec(&r, "opu"), None);
    assert_eq!(find_codec(&r, "opus "), None);
    assert_eq!(find_codec(&r, ""), None);
    assert_eq!(find_codec(&Vec::new(), "vp9"), None);
}

#[test]
fn a_container_with_picture_and_sound_is_planned() {
    let streams = vec![
        stream(0, Some("vp9"), video(640, 360)),
        stream(1, Some("opus"), audio(48_000, 2)),
    ];
    let c = PlaybackContext::from_streams(&streams, &registry());
    assert_eq!(
        c.decoders(),
        &vec![
            Decoding { stream: 0, stream_index: 0, codec: 0 },
            Decoding { stream: 1, stream_index: 1, codec: 1 }
        ]
    );
    assert_eq!(c.video(), Some(VideoInfo { width: 640, height: 360 }));
    assert_eq!(c.audio(), Some(AudioInfo { rate: 48_000, channels: Some(2) }));
}

#[test]
fn streams_without_a_decoder_are_passed_over() {
    let streams = vec![
        stream(0, Some("h264"), video(1920, 1080)),
        stream(1, None, audio(44_100, 2)),
        stream(2, Some("vorbis"), audio(22_050, 1)),
        stream(3, Some("vp9"), None),
        stream(4, Some("aac"), audio(48_000, 6)),
    ];
    let c = PlaybackContext::from_streams(&streams, &registry());
    assert_eq!(
        c.decoders(),
        &vec![
            Decoding { stream: 2, stream_index: 2, codec: 2 },
            Decoding { stream: 3, stream_index: 3, codec: 0 }
        ]
    );
    assert_eq!(c.video(), None);
    assert_eq!(c.audio(), Some(AudioInfo { rate: 22_050, channels: Some(1) }));
}

#[test]
fn the_last_stream_of_a_kind_gives_the_parameters() {
    let streams = vec![
        stream(0, Some("vp9"), video(640, 360)),
        stream(1, Some("opus"), audio(48_000, 2)),
        stream(2, Some("vp9"), video(1280, 720)),
        stream(3, Some("vorbis"), audio(44_100, 1)),
        stream(4, Some("theora"), video(320, 240)),
    ];
    let c = PlaybackContext::from_streams(&streams, &registry());
    assert_eq!(c.decoders().len(), 4);
    assert_eq!(c.video(), Some(VideoInfo { width: 1280, height: 720 }));
    assert_eq!(c.audio(), Some(AudioInfo { rate: 44_100, channels: Some(1) }));
}

#[test]
fn an_empty_container_plans_nothing() {
    let c = PlaybackContext::from_streams(&Vec::new(), &registry());
    assert!(c.decoders().is_empty());
    assert_eq!(c.video(), None);
    assert_eq!(c.audio(), None);
    assert_eq!(c.decoder_for(0), None);
}

#[test]
fn packets_go_to_the_decoder_of_their_stream() {
    let streams = vec![
        stream(0, Some("vp9"), video(640, 360)),
        stream(7, Some("opus"), audio(48_000, 2)),
        stream(2, Some("h264"), video(640, 360)),
    ];
    let c = PlaybackContext::from_streams(&streams, &registry());
    assert_eq!(c.decode_one(DemuxEvent::NewPacket(0)), DecodeStep::Decode(0));
    assert_eq!(c.decode_one(DemuxEvent::NewPacket(7)), DecodeStep::Decode(1));
    assert_eq!(c.decode_one(DemuxEvent::NewPacket(2)), DecodeStep::Skip(2));
    assert_eq!(c.decode_one(DemuxEvent::NewPacket(1)), DecodeStep::Skip(1));
    assert_eq!(c.decode_one(DemuxEvent::NewPacket(-1)), DecodeStep::Skip(-1));
}

#[test]
fn the_end_of_the_container_is_no_error() {
    let c = PlaybackContext::from_streams(&Vec::new(), &registry());
    assert_eq!(c.decode_one(DemuxEvent::Eof), DecodeStep::Idle);
}

#[test]
fn other_events_are_reported_as_unsupported() {
    let c = PlaybackContext::from_streams(&Vec::new(), &registry());
    assert_eq!(c.decode_one(DemuxEvent::Other), DecodeStep::Unsupported);
}

#[test]
fn a_later_stream_takes_over_a_shared_index() {
    let streams = vec![
        stream(5, Some("vorbis"), audio(44_100, 2)),
        stream(6, Some("vp9"), video(640, 360)),
        stream(5, Some("opus"), audio(48_000, 2)),
    ];
    let c = PlaybackContext::from_streams(&streams, &registry());
    assert_eq!(c.decoder_for(5), Some(2));
    assert_eq!(c.decoder_for(6), Some(1));
    assert_eq!(c.decoders()[2], Decoding { stream: 2, stream_index: 5, codec: 1 });
}

#[test]
fn the_decode_loop_runs_until_disposal() {
    for s in [PlayerState::Stopped, PlayerState::Paused, PlayerState::Playing] {
        assert_eq!(dispatch_gate(s), (DispatchStep::Decode, s));
    }
    assert_eq!(
        dispatch_gate(PlayerState::Terminating),
        (DispatchStep::Exit, PlayerState::Terminated)
    );
    assert_eq!(
        dispatch_gate(PlayerState::Terminated),
        (DispatchStep::Exit, PlayerState::Terminated)
    );
}

#[test]
fn frames_are_told_apart_by_kind() {
    assert_eq!(sound(1).kind(), MediaKind::Audio);
    assert_eq!(picture(1).kind(), MediaKind::Video);
}

#[test]
fn frames_are_routed_by_kind() {
    let (mut a, mut v) = frame_queues();
    assert!(route(sound(1), &mut a, &mut v).is_none());
    assert!(route(picture(10), &mut a, &mut v).is_none());
    assert!(route(picture(20), &mut a, &mut v).is_none());
    assert!(route(sound(2), &mut a, &mut v).is_none());
    assert_eq!(a.len(), 2);
    assert_eq!(v.len(), 2);
    assert_eq!(a.pop().unwrap().sample(0), 1);
    assert_eq!(a.pop().unwrap().sample(0), 2);
    assert_eq!(v.pop().unwrap().sample(0, 0).0, 10);
    assert_eq!(v.pop().unwrap().sample(0, 0).0, 20);
}

#[test]
fn a_full_video_queue_holds_the_decoder_back() {
    assert_eq!(VIDEO_QUEUE_CAPACITY, 24);
    let (mut a, mut v) = frame_queues();
    for i in 0..24u8 {
        assert!(route(picture(i), &mut a, &mut v).is_none());
    }
    assert!(v.is_full());
    // the frame comes back untouched, and nothing is lost or added
    for _ in 0..3 {
        match route(picture(99), &mut a, &mut v) {
            Some(DecodedFrame::Video(f)) => assert_eq!(f.sample(0, 0).0, 99),
            other => panic!("{:?}", other),
        }
        assert_eq!(v.len(), 24);
    }
    // sound still flows
    assert!(route(sound(5), &mut a, &mut v).is_none());
    assert_eq!(a.len(), 1);
    // once the renderer takes a frame there is room again
    assert_eq!(v.pop().unwrap().sample(0, 0).0, 0);
    assert!(route(picture(99), &mut a, &mut v).is_none());
    for i in 1..24u8 {
        assert_eq!(v.pop().unwrap().sample(0, 0).0, i);
    }
    assert_eq!(v.pop().unwrap().sample(0, 0).0, 99);
    assert!(v.pop().is_none());
}

#[test]
fn the_audio_queue_takes_any_number_of_frames() {
    let (mut a, mut v) = frame_queues();
    for i in 0..1000 {
        assert!(route(sound(i), &mut a, &mut v).is_none());
    }
    assert_eq!(a.len(), 1000);
    assert!(!a.is_full());
    assert!(v.is_empty());
}

#[test]
fn a_session_reports_the_size_of_its_stream() {
    let p = Player::new(&VideoInfo { width: 640, height: 360 });
    assert_eq!(p.width(), 640);
    assert_eq!(p.height(), 360);
    assert_eq!(p.state(), PlayerState::Stopped);
}

#[test]
fn play_and_pause_set_the_state() {
    let mut p = Player::new(&VideoInfo { width: 2, height: 2 });
    assert!(p.play(Ok(())).is_ok());
    assert_eq!(p.state(), PlayerState::Playing);
    assert!(p.pause(Ok(())).is_ok());
    assert_eq!(p.state(), PlayerState::Paused);
    assert!(p.play(Ok(())).is_ok());
    assert_eq!(p.state(), PlayerState::Playing);
}

#[test]
fn a_device_failure_is_handed_on() {
    let mut p = Player::new(&VideoInfo { width: 2, height: 2 });
    match p.play(Err(AudioError::PlayStream("no".to_string()))) {
        Err(PlayerError::Audio(AudioError::PlayStream(m))) => assert_eq!(m, "no"),
        other => panic!("{:?}", other),
    }
    assert_eq!(p.state(), PlayerState::Stopped);
    assert!(p.play(Ok(())).is_ok());
    match p.pause(Err(AudioError::PauseStream("stuck".to_string()))) {
        Err(PlayerError::Audio(AudioError::PauseStream(m))) => assert_eq!(m, "stuck"),
        other => panic!("{:?}", other),
    }
    assert_eq!(p.state(), PlayerState::Playing);
}

#[test]
fn a_disposed_session_ignores_play_and_pause() {
    let mut p = Player::new(&VideoInfo { width: 2, height: 2 });
    assert!(p.play(Ok(())).is_ok());
    p.dispose();
    assert_eq!(p.state(), PlayerState::Terminating);
    assert!(p.play(Ok(())).is_ok());
    assert_eq!(p.state(), PlayerState::Terminating);
    assert!(p.pause(Ok(())).is_ok());
    assert_eq!(p.state(), PlayerState::Terminating);
    assert!(p.play(Err(AudioError::NoOutputDevice)).is_err());
    assert_eq!(p.state(), PlayerState::Terminating);
    p.acknowledge();
    assert_eq!(p.state(), PlayerState::Terminated);
    assert!(p.play(Ok(())).is_ok());
    assert!(p.pause(Ok(())).is_ok());
    p.dispose();
    assert_eq!(p.state(), PlayerState::Terminated);
}

#[test]
fn acknowledging_a_live_session_changes_nothing() {
    let mut p = Player::new(&VideoInfo { width: 2, height: 2 });
    p.acknowledge();
    assert_eq!(p.state(), PlayerState::Stopped);
}

#[test]
fn position_seeking_and_looping_do_nothing() {
    let mut p = Player::new(&VideoInfo { width: 2, height: 2 });
    assert_eq!(p.position(), 0);
    p.seek_to(5000);
    p.set_looping(true);
    assert_eq!(p.position(), 0);
    assert_eq!(p.state(), PlayerState::Stopped);
    assert!(p.play(Ok(())).is_ok());
    p.seek_to(-1);
    p.set_looping(false);
    assert_eq!(p.position(), 0);
    assert_eq!(p.state(), PlayerState::Playing);
}

#[test]
fn a_container_with_picture_and_sound_plays_from_end_to_end() {
    // what the headers say: 64 by 36 pictures, 48 kHz stereo sound
    let streams = vec![
        stream(0, Some("vp9"), video(64, 36)),
        stream(1, Some("opus"), audio(48_000, 2)),
    ];
    let context = PlaybackContext::from_streams(&streams, &registry());
    let size = context.video().unwrap();
    let mut session = Player::new(&size);
    assert_eq!((session.width(), session.height()), (64, 36));

    let offered = vec![SupportedFormat {
        channels: 2,
        min_sample_rate: 44_100,
        max_sample_rate: 48_000,
        data_type: SampleFormat::I16,
    }];
    let device = AudioPlayer::new(&context.audio().unwrap(), &offered).unwrap();
    assert_eq!(
        device.format(),
        Format { channels: 2, sample_rate: 48_000, data_type: SampleFormat::I16 }
    );
    let mut cursor = device.create_stream();
    let mut renderer = VideoPlayer::new(&size).create_stream();
    let (mut outbox, mut pictures) = frame_queues();

    // the decoder hands over three pictures at 25 to the second, and sound between them
    for tick in 0..3i64 {
        assert_eq!(context.decode_one(DemuxEvent::NewPacket(0)), DecodeStep::Decode(0));
        let planes = Planes {
            y: vec![235; 64 * 36],
            y_stride: 64,
            u: vec![128; 32 * 18],
            u_stride: 32,
            v: vec![128; 32 * 18],
            v_stride: 32,
        };
        let time = TimeInfo { pts: Some(tick), timebase: Some(Timebase { num: 1, den: 25 }) };
        let picture = VideoFrame::new(64, 36, planes, time).unwrap();
        assert!(route(DecodedFrame::Video(picture), &mut outbox, &mut pictures).is_none());

        assert_eq!(context.decode_one(DemuxEvent::NewPacket(1)), DecodeStep::Decode(1));
        let samples: Vec<i16> = (0..8).map(|i| (tick * 8 + i) as i16).collect();
        let time = TimeInfo { pts: Some(tick * 4), timebase: Some(Timebase { num: 1, den: 48_000 }) };
        let sound = AudioFrame::new(samples, 2, 48_000, 4, time).unwrap();
        assert!(route(DecodedFrame::Audio(sound), &mut outbox, &mut pictures).is_none());
    }
    assert_eq!(context.decode_one(DemuxEvent::Eof), DecodeStep::Idle);

    // nothing is shown before the session plays
    assert!(matches!(renderer.step(session.state(), &mut pictures, 0), RenderStep::Idle));
    assert!(session.play(Ok(())).is_ok());

    let mut waits = Vec::new();
    let mut published = Vec::new();
    loop {
        match renderer.step(session.state(), &mut pictures, 0) {
            RenderStep::Show { wait, frame } => {
                waits.push(wait);
                published.push(renderer.render(&frame).unwrap());
            }
            RenderStep::Idle => break,
            RenderStep::Exit => panic!("the session plays"),
        }
    }
    assert_eq!(waits, vec![0, 40_000_000, 40_000_000]);
    assert_eq!(published.len(), 3);
    assert_eq!(published[0].len(), 64 * 36 * 4);
    assert!(published[0].chunks(4).all(|p| p == [254, 254, 254, 255]));

    let mut heard = Vec::new();
    for room in [5usize, 7, 11, 6] {
        let mut buffer = vec![-1i16; room];
        let written = cursor.fill(&mut outbox, &mut buffer, |s| s);
        heard.extend_from_slice(&buffer[..written]);
        assert!(buffer[written..].iter().all(|&s| s == 0));
    }
    assert_eq!(heard, (0..24).collect::<Vec<i16>>());

    session.dispose();
    assert!(matches!(renderer.step(session.state(), &mut pictures, 0), RenderStep::Exit));
    assert_eq!(
        dispatch_gate(session.state()),
        (DispatchStep::Exit, PlayerState::Terminated)
    );
}
