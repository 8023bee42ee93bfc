use sonus::decode::{
    next_decode_action, plan_stream, DecodeAction, DecodeEvent, FrameSpan, OpenError, SeekKind, StreamParams,
    TimeBase,
};

fn params() -> StreamParams {
    StreamParams {
        has_default_track: true,
        codec_is_null: false,
        sample_rate: Some(44_100),
        channels: Some(2),
        n_frames: Some(441_000),
        time_base: Some(TimeBase { numer: 1, denom: 44_100 }),
    }
}

#[test]
fn stream_plan_checks_the_track() {
    let mut p = params();
    p.has_default_track = false;
    assert_eq!(plan_stream(p, 0), Err(OpenError::NoDefaultTrack));
    let mut p = params();
    p.codec_is_null = true;
    assert_eq!(plan_stream(p, 0), Err(OpenError::UnsupportedCodec));
    let mut p = params();
    p.sample_rate = None;
    assert_eq!(plan_stream(p, 0), Err(OpenError::MissingSampleRate));
    let mut p = params();
    p.channels = None;
    assert_eq!(plan_stream(p, 0), Err(OpenError::MissingChannels));
}

#[test]
fn stream_plan_seeks_and_duration() {
    let plan = plan_stream(params(), 0).unwrap();
    assert_eq!(plan.seek, None);
    assert_eq!((plan.sample_rate, plan.channels), (44_100, 2));
    assert_eq!(
        plan.duration_from,
        Some(FrameSpan { n_frames: 441_000, time_base: TimeBase { numer: 1, denom: 44_100 } })
    );
    assert_eq!(plan_stream(params(), 5_000).unwrap().seek, Some(SeekKind::ToTimestamp));
    let mut p = params();
    p.time_base = None;
    let plan = plan_stream(p, 5_000).unwrap();
    assert_eq!(plan.seek, Some(SeekKind::ToTime));
    assert_eq!(plan.duration_from, None);
    let mut p = params();
    p.n_frames = None;
    assert_eq!(plan_stream(p, 0).unwrap().duration_from, None);
}

#[test]
fn decode_loop_actions() {
    assert_eq!(next_decode_action(3, DecodeEvent::Packet { track_id: 3 }), DecodeAction::Decode);
    assert_eq!(next_decode_action(3, DecodeEvent::Packet { track_id: 4 }), DecodeAction::Skip);
    assert_eq!(next_decode_action(3, DecodeEvent::Decoded { frames: 0 }), DecodeAction::Skip);
    assert_eq!(next_decode_action(3, DecodeEvent::Decoded { frames: 1152 }), DecodeAction::Deliver);
    assert_eq!(next_decode_action(3, DecodeEvent::ResetRequired), DecodeAction::ResetDecoder);
    assert_eq!(next_decode_action(3, DecodeEvent::Error), DecodeAction::Fail);
}
