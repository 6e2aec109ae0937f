use desplio::encoder::EncodeError;
use desplio::server;
use desplio::webrtc;
use desplio::webrtc::HostSessionState;
use desplio::webrtc::HostWebRtcEngine;
use desplio::webrtc::HostWebRtcError;
use desplio::webrtc::SignalMessage;
use desplio::webrtc::SignalPayload;
use desplio::webrtc::VideoLoop;
use desplio::webrtc::VideoStep;

const OFFER: &str = "v=0\r\no=- 46117317 2 IN IP4 127.0.0.1\r\ns=-\r\nt=0 0\r\n\
m=application 9 UDP/DTLS/SCTP webrtc-datachannel\r\nc=IN IP4 0.0.0.0\r\na=mid:0\r\n";

#[test]
fn sessions_begin_empty() {
    let session = HostSessionState::default();
    assert_eq!(session.peer_id, "");
    assert_eq!(session.note, "");
    assert!(!session.pending_offer);
    assert_eq!(session.pending_ice_candidates, 0);
    assert_eq!(session.video_samples_sent, 0);
    assert!(session.last_offer_from.is_none());
    assert!(session.last_video_error.is_none());
    assert!(session.last_signal_kind.is_none());
}

#[test]
fn offers_are_read() {
    let offer = HostWebRtcEngine::read_offer(OFFER.to_string()).unwrap();
    assert_eq!(offer.sdp, OFFER);
    assert_eq!(offer.description.sdp, OFFER);
    let theirs = ::webrtc::peer_connection::sdp::session_description::RTCSessionDescription::offer(
        OFFER.to_string(),
    );
    assert_eq!(format!("{:?}", offer.description), format!("{:?}", theirs.unwrap()));
    let theirs = ::webrtc::peer_connection::sdp::session_description::RTCSessionDescription::offer(
        "nonsense".to_string(),
    );
    let why = theirs.unwrap_err().to_string();
    match HostWebRtcEngine::read_offer("nonsense".to_string()) {
        Err(HostWebRtcError::MediaEngine(ours)) => assert_eq!(ours, why),
        Ok(_) => panic!("taken"),
    }
}

#[test]
fn offers_are_answered() {
    let mut session = server::initial_session();
    let payload = SignalPayload::Offer { sdp: OFFER.to_string() };
    server::update_host_session(&mut session, "browser-1", &payload);
    assert!(session.pending_offer);
    let (engine, signal) = HostWebRtcEngine::from_offer(
        "desplio-host",
        "browser-1".to_string(),
        Ok("answer".to_string()),
        &mut session,
    )
    .unwrap();
    assert_eq!(engine.remote_peer_id, "browser-1");
    assert_eq!(engine.host_peer_id, "desplio-host");
    assert!(!session.pending_offer);
    assert_eq!(session.last_offer_from, Some("browser-1".to_string()));
    assert_eq!(session.last_signal_kind, Some("answer".to_string()));
    assert_eq!(session.note, "Host generated an SDP answer and started ICE gathering.");
    match signal {
        SignalMessage::Signal { from, to, payload: SignalPayload::Answer { sdp } } => {
            assert_eq!((from.as_str(), to.as_str(), sdp.as_str()), ("desplio-host", "browser-1", "answer"));
        }
        other => panic!("{other:?}"),
    }
}

#[test]
fn offers_without_answer_leave_the_session_alone() {
    let mut session = server::initial_session();
    let payload = SignalPayload::Offer { sdp: OFFER.to_string() };
    server::update_host_session(&mut session, "browser-1", &payload);
    let before = format!("{session:?}");
    let out = HostWebRtcEngine::from_offer(
        "desplio-host",
        "browser-1".to_string(),
        Err("no codec".to_string()),
        &mut session,
    );
    match out {
        Err(HostWebRtcError::MediaEngine(why)) => assert_eq!(why, "no codec"),
        Ok(_) => panic!("answered"),
    }
    assert_eq!(format!("{session:?}"), before);
    assert!(session.pending_offer);
}

#[test]
fn candidates_are_exchanged() {
    let mut session = HostSessionState::default();
    let engine = HostWebRtcEngine {
        host_peer_id: "desplio-host".to_string(),
        remote_peer_id: "browser-1".to_string(),
    };
    assert!(engine.add_remote_ice_candidate(Ok(()), &mut session).is_ok());
    assert_eq!(session.note, "Host accepted remote ICE candidate from browser-1");
    let err = engine.add_remote_ice_candidate(Err("closed".to_string()), &mut session).unwrap_err();
    assert_eq!(err.message(), "failed to initialize media engine: closed");
    assert_eq!(session.note, "Host accepted remote ICE candidate from browser-1");
    match HostWebRtcEngine::candidate_signal("h", "b", "c".to_string(), None, Some(1)) {
        SignalMessage::Signal {
            from,
            to,
            payload: SignalPayload::IceCandidate { candidate, sdp_mid: None, sdp_mline_index: Some(1) },
        } => assert_eq!((from.as_str(), to.as_str(), candidate.as_str()), ("h", "b", "c")),
        other => panic!("{other:?}"),
    }
}

#[test]
fn data_channels_are_answered() {
    let mut session = HostSessionState::default();
    session.note_connection_state("connected");
    assert_eq!(session.note, "Host peer connection state: connected");
    session.note_data_channel("input");
    assert_eq!(session.note, "Host received data channel 'input' and is waiting for it to open.");
    assert_eq!(session.on_channel_open("input"), "desplio-host ready");
    assert_eq!(session.note, "Host data channel 'input' is open.");
    assert_eq!(session.on_channel_message("input", b"hi \xff"), "ack:hi \u{fffd}");
    assert_eq!(session.note, "Host data channel 'input' received: hi \u{fffd}");
    assert_eq!(session.on_channel_text("a", "b"), "ack:b");
}

#[test]
fn frames_are_sent() {
    let mut session = HostSessionState::default();
    let mut video = VideoLoop::new();
    let payload = match video.on_encoded(Ok(vec![1, 2, 3])) {
        VideoStep::Send(payload) => payload,
        other => panic!("{other:?}"),
    };
    assert!(video.on_sent(payload, Ok(()), &mut session));
    assert_eq!(session.video_samples_sent, 1);
    assert!(session.last_video_error.is_none());
    assert_eq!(
        session.note,
        "Host is streaming the latest captured frame over a real WebRTC H.264 video track."
    );
    match video.on_encoded(Err(EncodeError::FfmpegUnavailable)) {
        VideoStep::Repeat { payload, encode_error } => {
            assert_eq!(payload, vec![1, 2, 3]);
            assert!(video.on_repeated(encode_error.as_str(), Ok(()), &mut session));
        }
        other => panic!("{other:?}"),
    }
    assert_eq!(session.video_samples_sent, 2);
    assert_eq!(
        session.last_video_error,
        Some("repeated previous sample after encode error: ffmpeg is not installed or not available on PATH".to_string())
    );
    assert!(!video.on_repeated("x", Err("gone".to_string()), &mut session));
    assert_eq!(
        session.last_video_error,
        Some("failed to repeat previous sample: gone".to_string())
    );
    assert!(!video.on_sent(vec![9], Err("gone".to_string()), &mut session));
    assert_eq!(video.samples_sent, 2);
    assert_eq!(video.last_payload, Some(vec![1, 2, 3]));
}

#[test]
fn frames_that_cannot_be_sent_are_reported() {
    let mut session = HostSessionState::default();
    let video = VideoLoop::new();
    match video.on_encoded(Ok(vec![])) {
        VideoStep::Report(why) => video.on_nothing_sent(why, &mut session),
        other => panic!("{other:?}"),
    }
    assert_eq!(
        session.last_video_error,
        Some("latest-frame encoded to an empty H.264 payload".to_string())
    );
    match video.on_encoded(Err(EncodeError::NoFrames)) {
        VideoStep::Report(why) => assert_eq!(
            why,
            "failed to encode latest frame: no captured frames were available for encoding"
        ),
        other => panic!("{other:?}"),
    }
}

#[test]
fn the_video_track_is_named() {
    assert_eq!(webrtc::STUN_URL, "stun:stun.l.google.com:19302");
    assert_eq!(webrtc::TRACK_ID, "video");
    assert_eq!(webrtc::STREAM_ID, "desplio");
    assert_eq!(webrtc::SAMPLE_MILLIS, 500);
}
