use desplio::peers::PeerHandle;
use desplio::peers::Peers;
use desplio::peers::HOST_PEER_ID;
use desplio::server;
use desplio::server::Action;
use desplio::server::Body;
use desplio::server::Found;
use desplio::server::Incoming;
use desplio::server::PreviewPaths;
use desplio::server::Reply;
use desplio::server::Route;
use desplio::server::Socket;
use desplio::webrtc::HostWebRtcError;
use desplio::webrtc::PeerCapabilities;
use desplio::webrtc::PeerRole;
use desplio::webrtc::SignalMessage;
use desplio::webrtc::SignalPayload;

fn preview() -> PreviewPaths {
    PreviewPaths {
        video_path: "artifacts/m3-preview/latest.mp4".to_string(),
        latest_frame_path: "artifacts/m3-preview/latest-frame.png".to_string(),
    }
}

fn body(reply: &Reply) -> &str {
    match &reply.body {
        Body::Html(s) | Body::Text(s) => s,
        other => panic!("{other:?}"),
    }
}

fn hello(name: &str, role: PeerRole) -> Incoming {
    Incoming::Text(Ok(SignalMessage::Hello {
        peer_id: name.to_string(),
        role,
        capabilities: Some(PeerCapabilities {
            wants_video: true,
            wants_input: false,
            max_resolution: None,
        }),
    }))
}

fn signal(from: &str, to: &str, payload: SignalPayload) -> Incoming {
    Incoming::Text(Ok(SignalMessage::Signal {
        from: from.to_string(),
        to: to.to_string(),
        payload,
    }))
}

fn error_of(action: &Action) -> (u64, &str) {
    match action {
        Action::Send { connection, message: SignalMessage::Error { message } } => {
            (*connection, message)
        }
        other => panic!("{other:?}"),
    }
}

#[test]
fn paths_are_routed() {
    let routes = server::routes();
    assert_eq!(routes.len(), 9);
    assert_eq!(routes[0], ("/", Route::Index));
    assert_eq!(routes[1], ("/latest.mp4", Route::LatestVideo));
    assert_eq!(routes[2], ("/video.mp4", Route::LatestVideo));
    assert_eq!(routes[3], ("/latest-frame.png", Route::LatestFrame));
    assert_eq!(routes[4], ("/latest-frame.txt", Route::LatestFrameStatus));
    assert_eq!(routes[5], ("/status.txt", Route::Status));
    assert_eq!(routes[6], ("/api/peers", Route::Peers));
    assert_eq!(routes[7], ("/api/host-session", Route::HostSession));
    assert_eq!(routes[8], ("/ws", Route::Socket));
    assert_eq!(server::NO_STORE, "no-store, no-cache, must-revalidate");
}

#[test]
fn the_page_is_served() {
    let reply = server::serve_index(Ok("<html>".to_string()));
    assert_eq!(reply.status, 200);
    assert!(reply.no_store);
    assert!(matches!(&reply.body, Body::Html(page) if page == "<html>"));
    let reply = server::serve_index(Err("denied".to_string()));
    assert_eq!((reply.status, reply.no_store), (500, false));
    assert_eq!(body(&reply), "internal error: denied");
}

#[test]
fn artifacts_are_served() {
    let reply = server::serve_latest_mp4(Found::Present(vec![1, 2]));
    assert_eq!((reply.status, reply.content_type, reply.no_store), (200, Some("video/mp4"), true));
    assert!(matches!(&reply.body, Body::Bytes(bytes) if bytes == &vec![1, 2]));
    let reply = server::serve_latest_frame(Found::Present(vec![3]));
    assert_eq!(reply.content_type, Some("image/png"));
    let reply = server::serve_latest_frame(Found::Missing);
    assert_eq!((reply.status, reply.no_store), (404, false));
    assert_eq!(body(&reply), "artifact not found");
    let reply = server::serve_bytes(Found::Failed("io".to_string()), "x/y");
    assert_eq!(reply.status, 500);
    assert_eq!(body(&reply), "internal error: io");
}

#[test]
fn the_latest_frame_is_described() {
    let reply = server::serve_latest_frame_status(&preview(), Found::Present(1234));
    assert_eq!(
        body(&reply),
        "latest_frame=artifacts/m3-preview/latest-frame.png\nsize_bytes=1234\n"
    );
    assert!(reply.no_store);
    let reply = server::serve_latest_frame_status(&preview(), Found::Missing);
    assert_eq!(reply.status, 404);
    assert_eq!(body(&reply), "stable preview frame has not been published yet");
    let reply = server::serve_latest_frame_status(&preview(), Found::Failed("x".to_string()));
    assert_eq!(reply.status, 500);
}

#[test]
fn the_status_counts_peers() {
    let mut peers = Peers::new();
    peers.insert("a", PeerHandle { role: PeerRole::MobileClient, connection: 1 });
    peers.insert("b", PeerHandle { role: PeerRole::MobileClient, connection: 2 });
    peers.insert("a", PeerHandle { role: PeerRole::MobileClient, connection: 3 });
    assert_eq!(
        body(&server::serve_status(&preview(), &peers)),
        "preview=ready\nlatest_segment=artifacts/m3-preview/latest.mp4\nlatest_frame=artifacts/m3-preview/latest-frame.png\nconnected_peers=2\nhost_peer_id=desplio-host\n"
    );
}

#[test]
fn peers_come_and_go() {
    let mut peers = Peers::new();
    assert_eq!(peers.len(), 0);
    assert!(peers.get("a").is_none());
    peers.insert("a", PeerHandle { role: PeerRole::BrowserClient, connection: 1 });
    peers.insert("b", PeerHandle { role: PeerRole::DesktopClient, connection: 2 });
    assert_eq!(peers.get("a").unwrap().connection, 1);
    peers.insert("a", PeerHandle { role: PeerRole::MobileClient, connection: 7 });
    assert_eq!(peers.get("a").unwrap().connection, 7);
    assert_eq!(peers.len(), 2);
    let reply = server::list_peers(&peers);
    assert_eq!((reply.status, reply.content_type, reply.no_store), (200, None, true));
    let list = match reply.body {
        Body::Peers(list) => list,
        other => panic!("{other:?}"),
    };
    assert_eq!(list.len(), 3);
    assert_eq!(list[0].peer_id, HOST_PEER_ID);
    assert_eq!(list[0].role, PeerRole::Host);
    let mut others: Vec<(String, PeerRole)> =
        list[1..].iter().map(|p| (p.peer_id.clone(), p.role)).collect();
    others.sort_by(|a, b| a.0.cmp(&b.0));
    assert_eq!(
        others,
        [("a".to_string(), PeerRole::MobileClient), ("b".to_string(), PeerRole::DesktopClient)]
    );
    peers.remove("a");
    peers.remove("nobody");
    assert!(peers.get("a").is_none());
    assert_eq!(peers.get("b").unwrap().connection, 2);
    assert_eq!(peers.len(), 1);
}

#[test]
fn peers_say_hello() {
    let mut peers = Peers::new();
    let mut session = server::initial_session();
    assert_eq!(session.note, "Host signalling peer is ready for offer/ICE exchange");
    assert_eq!(session.peer_id, "desplio-host");
    let mut socket = Socket::new(5);
    let actions =
        socket.on_incoming(hello("browser-1", PeerRole::BrowserClient), &mut peers, &mut session);
    assert_eq!(socket.peer_id, Some("browser-1".to_string()));
    assert_eq!(actions.len(), 2);
    match &actions[0] {
        Action::Send { connection: 5, message: SignalMessage::Peers { peers } } => {
            assert_eq!(peers.len(), 2);
            assert_eq!(peers[0].peer_id, "desplio-host");
            assert_eq!(peers[1].peer_id, "browser-1");
        }
        other => panic!("{other:?}"),
    }
    match &actions[1] {
        Action::Send { connection: 5, message: SignalMessage::HostSession { session: told } } => {
            assert_eq!(told.note, session.note);
        }
        other => panic!("{other:?}"),
    }
    assert_eq!(peers.len(), 1);
    socket.on_end(&mut peers);
    assert_eq!(peers.len(), 0);
    Socket::new(6).on_end(&mut peers);
    assert_eq!(peers.len(), 0);
}

#[test]
fn signals_are_passed_on_unchanged() {
    let mut peers = Peers::new();
    let mut session = server::initial_session();
    let mut first = Socket::new(1);
    let mut second = Socket::new(2);
    first.on_incoming(hello("a", PeerRole::BrowserClient), &mut peers, &mut session);
    second.on_incoming(hello("b", PeerRole::MobileClient), &mut peers, &mut session);
    let note = session.note.clone();
    let payload = SignalPayload::IceCandidate {
        candidate: "candidate:1".to_string(),
        sdp_mid: Some("0".to_string()),
        sdp_mline_index: Some(0),
    };
    let actions = first.on_incoming(signal("a", "b", payload), &mut peers, &mut session);
    assert_eq!(actions.len(), 1);
    match &actions[0] {
        Action::Send {
            connection: 2,
            message:
                SignalMessage::Signal {
                    from,
                    to,
                    payload: SignalPayload::IceCandidate { candidate, sdp_mid, sdp_mline_index },
                },
        } => {
            assert_eq!((from.as_str(), to.as_str(), candidate.as_str()), ("a", "b", "candidate:1"));
            assert_eq!((sdp_mid.as_deref(), *sdp_mline_index), (Some("0"), Some(0)));
        }
        other => panic!("{other:?}"),
    }
    assert_eq!(session.note, note);
    let actions =
        first.on_incoming(signal("a", "c", SignalPayload::Renegotiate), &mut peers, &mut session);
    assert_eq!(error_of(&actions[0]), (1, "target peer 'c' is not connected"));
}

#[test]
fn signals_for_the_host_are_noted() {
    let mut peers = Peers::new();
    let mut session = server::initial_session();
    let mut socket = Socket::new(1);
    // A peer by the host's name does not get the host's signals.
    socket.on_incoming(hello("desplio-host", PeerRole::BrowserClient), &mut peers, &mut session);
    let offer = SignalPayload::Offer { sdp: "sdp".to_string() };
    let actions = socket.on_incoming(signal("a", "desplio-host", offer), &mut peers, &mut session);
    assert_eq!(actions.len(), 2);
    assert!(matches!(
        &actions[0],
        Action::AnswerOffer { from, sdp } if from == "a" && sdp == "sdp"
    ));
    assert!(matches!(&actions[1], Action::ReportSession));
    assert!(session.pending_offer);
    assert_eq!(session.last_signal_kind, Some("offer".to_string()));
    assert_eq!(
        session.note,
        "Host received an SDP offer; media engine answer path is the next step."
    );
    for n in 1..3 {
        let candidate = SignalPayload::IceCandidate {
            candidate: "c".to_string(),
            sdp_mid: None,
            sdp_mline_index: Some(2),
        };
        let actions =
            socket.on_incoming(signal("b", "desplio-host", candidate), &mut peers, &mut session);
        assert!(matches!(
            &actions[0],
            Action::AddCandidate { candidate, sdp_mid: None, sdp_mline_index: Some(2) }
                if candidate == "c"
        ));
        assert_eq!(session.pending_ice_candidates, n);
    }
    assert_eq!(session.last_offer_from, Some("b".to_string()));
    assert_eq!(
        session.note,
        "Host is collecting ICE candidates for the future WebRTC engine."
    );
    let answer = SignalPayload::Answer { sdp: "x".to_string() };
    let actions = socket.on_incoming(signal("b", "desplio-host", answer), &mut peers, &mut session);
    assert!(matches!(actions[..], [Action::ReportSession]));
    assert_eq!(session.note, "Host received an SDP answer.");
    let actions = server::handle_host_signal(&mut session, "b".to_string(), SignalPayload::Renegotiate);
    assert!(matches!(actions[..], [Action::ReportSession]));
    assert_eq!(session.last_signal_kind, Some("renegotiate".to_string()));
    assert_eq!(session.note, "Host received a renegotiation request.");
    match server::session_report(&session) {
        SignalMessage::HostSession { session: told } => assert_eq!(told.note, session.note),
        other => panic!("{other:?}"),
    }
}

#[test]
fn other_messages_are_answered() {
    let mut peers = Peers::new();
    let mut session = server::initial_session();
    let mut socket = Socket::new(9);
    let actions = socket.on_incoming(
        Incoming::Text(Ok(SignalMessage::Ping { nonce: 77 })),
        &mut peers,
        &mut session,
    );
    assert!(matches!(
        actions[..],
        [Action::Send { connection: 9, message: SignalMessage::Pong { nonce: 77 } }]
    ));
    let actions = socket.on_incoming(
        Incoming::Text(Ok(SignalMessage::Pong { nonce: 1 })),
        &mut peers,
        &mut session,
    );
    assert!(actions.is_empty());
    let actions =
        socket.on_incoming(Incoming::Text(Err("expected value".to_string())), &mut peers, &mut session);
    assert_eq!(error_of(&actions[0]), (9, "invalid signalling message: expected value"));
    let actions = socket.on_incoming(Incoming::Ping(vec![1, 2]), &mut peers, &mut session);
    assert!(matches!(&actions[0], Action::Pong(bytes) if bytes == &vec![1, 2]));
    assert!(matches!(
        socket.on_incoming(Incoming::Close, &mut peers, &mut session)[..],
        [Action::End]
    ));
    assert!(socket.on_incoming(Incoming::Other, &mut peers, &mut session).is_empty());
    assert!(socket.peer_id.is_none());
}

#[test]
fn failures_of_the_engine_are_told() {
    let err = HostWebRtcError::MediaEngine("x".to_string());
    assert!(matches!(
        server::offer_failed(&err),
        SignalMessage::Error { message }
            if message == "failed to create host answer: failed to initialize media engine: x"
    ));
    assert!(matches!(
        server::candidate_failed(&err),
        SignalMessage::Error { message }
            if message == "failed to add remote ICE candidate: failed to initialize media engine: x"
    ));
}

#[test]
fn a_full_count_leaves_other_messages_alone() {
    let mut peers = Peers::new();
    let mut session = server::initial_session();
    session.pending_ice_candidates = usize::MAX;
    let mut socket = Socket::new(1);
    let actions =
        socket.on_incoming(hello("browser", PeerRole::BrowserClient), &mut peers, &mut session);
    assert_eq!(actions.len(), 2);
    assert_eq!(peers.len(), 1);
    let offer = SignalPayload::Offer { sdp: "v=0".to_string() };
    let actions = socket.on_incoming(signal("browser", HOST_PEER_ID, offer), &mut peers, &mut session);
    assert_eq!(actions.len(), 2);
    assert!(session.pending_offer);
    assert_eq!(session.pending_ice_candidates, usize::MAX);
}

#[test]
fn failed_offers_keep_the_engine() {
    let err = || HostWebRtcError::MediaEngine("x".to_string());
    let (kept, told) = server::after_offer(Some(1), Ok(2));
    assert_eq!(kept, Some(2));
    assert!(told.is_none());
    let (kept, told) = server::after_offer(Some(1), Err(err()));
    assert_eq!(kept, Some(1));
    assert!(matches!(
        told,
        Some(SignalMessage::Error { message })
            if message == "failed to create host answer: failed to initialize media engine: x"
    ));
    let (kept, told) = server::after_offer(None::<u8>, Err(err()));
    assert_eq!(kept, None);
    assert!(told.is_some());
}

#[test]
fn only_refused_candidates_are_told() {
    assert!(server::after_candidate(None).is_none());
    assert!(server::after_candidate(Some(Ok(()))).is_none());
    let refused = Err(HostWebRtcError::MediaEngine("x".to_string()));
    assert!(matches!(
        server::after_candidate(Some(refused)),
        Some(SignalMessage::Error { message })
            if message == "failed to add remote ICE candidate: failed to initialize media engine: x"
    ));
}

#[test]
fn the_session_is_served() {
    let mut session = server::initial_session();
    session.video_samples_sent = 3;
    let reply = server::host_session(&session);
    assert_eq!((reply.status, reply.content_type, reply.no_store), (200, None, true));
    match reply.body {
        Body::Session(told) => {
            assert_eq!(told.peer_id, HOST_PEER_ID);
            assert_eq!(told.video_samples_sent, 3);
            assert_eq!(told.note, session.note);
        }
        other => panic!("{other:?}"),
    }
}
