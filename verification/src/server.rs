//! The host's server: what it serves, and how it passes signals between peers.
use vstd::prelude::*;

use crate::number;
use crate::peers;
use crate::peers::PeerHandle;
use crate::peers::Peers;
use crate::peers::HOST_PEER_ID;
use crate::text;
use crate::webrtc::HostSessionState;
use crate::webrtc::HostWebRtcError;
use crate::webrtc::PeerCapabilities;
use crate::webrtc::PeerRole;
use crate::webrtc::PeerSummary;
use crate::webrtc::SessionView;
use crate::webrtc::SignalMessage;
use crate::webrtc::SignalPayload;

verus! {

/// Where the preview is kept.
#[derive(Debug, Clone)]
pub struct PreviewPaths {
    pub video_path: String,
    pub latest_frame_path: String,
}

/// What the server serves.
#[derive(Debug, Clone, Copy, PartialEq, Eq, Structural)]
pub enum Route {
    Index,
    LatestVideo,
    LatestFrame,
    LatestFrameStatus,
    Status,
    Peers,
    HostSession,
    Socket,
}

/// The paths that the server answers, and what it serves there.
pub fn routes() -> (list: Vec<(&'static str, Route)>)
    ensures
        list@ == seq![
            ("/", Route::Index),
            ("/latest.mp4", Route::LatestVideo),
            ("/video.mp4", Route::LatestVideo),
            ("/latest-frame.png", Route::LatestFrame),
            ("/latest-frame.txt", Route::LatestFrameStatus),
            ("/status.txt", Route::Status),
            ("/api/peers", Route::Peers),
            ("/api/host-session", Route::HostSession),
            ("/ws", Route::Socket),
        ],
{
    let mut list: Vec<(&'static str, Route)> = Vec::new();
    list.push(("/", Route::Index));
    list.push(("/latest.mp4", Route::LatestVideo));
    list.push(("/video.mp4", Route::LatestVideo));
    list.push(("/latest-frame.png", Route::LatestFrame));
    list.push(("/latest-frame.txt", Route::LatestFrameStatus));
    list.push(("/status.txt", Route::Status));
    list.push(("/api/peers", Route::Peers));
    list.push(("/api/host-session", Route::HostSession));
    list.push(("/ws", Route::Socket));
    list
}

/// What a reply says about being kept.
pub const NO_STORE: &'static str = "no-store, no-cache, must-revalidate";

/// The body of a reply.
#[derive(Debug)]
pub enum Body {
    Html(String),
    Text(String),
    Bytes(Vec<u8>),
    /// Peers, as JSON.
    Peers(Vec<PeerSummary>),
    /// The host's session, as JSON.
    Session(HostSessionState),
}

/// A reply of the server.
#[derive(Debug)]
pub struct Reply {
    pub status: u16,
    /// The type of the body, where it is not the usual one.
    pub content_type: Option<&'static str>,
    /// Whether the reply may not be kept.
    pub no_store: bool,
    pub body: Body,
}

/// What came of looking for a file.
#[derive(Debug)]
pub enum Found<T> {
    Present(T),
    Missing,
    Failed(String),
}

impl Reply {
    /// A page, which may not be kept.
    pub open spec fn is_page(self, contents: Seq<char>) -> bool {
        &&& self.status == 200
        &&& self.content_type is None
        &&& self.no_store
        &&& self.body matches Body::Html(page) && page@ == contents
    }

    /// A text, which may not be kept.
    pub open spec fn is_fresh_text(self, contents: Seq<char>) -> bool {
        &&& self.status == 200
        &&& self.content_type is None
        &&& self.no_store
        &&& self.body matches Body::Text(said) && said@ == contents
    }

    /// There is no such thing.
    pub open spec fn is_not_found(self, message: Seq<char>) -> bool {
        &&& self.status == 404
        &&& self.content_type is None
        &&& !self.no_store
        &&& self.body matches Body::Text(said) && said@ == message
    }

    /// The server failed.
    pub open spec fn is_internal_error(self, why: Seq<char>) -> bool {
        &&& self.status == 500
        &&& self.content_type is None
        &&& !self.no_store
        &&& self.body matches Body::Text(said) && said@ == "internal error: "@ + why
    }
}

fn fresh_text(contents: String) -> (out: Reply)
    ensures
        out.is_fresh_text(contents@),
{
    Reply { status: 200, content_type: None, no_store: true, body: Body::Text(contents) }
}

fn not_found(message: &str) -> (out: Reply)
    ensures
        out.is_not_found(message@),
{
    Reply { status: 404, content_type: None, no_store: false, body: Body::Text(message.to_owned()) }
}

fn internal_error(why: &str) -> (out: Reply)
    ensures
        out.is_internal_error(why@),
{
    Reply {
        status: 500,
        content_type: None,
        no_store: false,
        body: Body::Text("internal error: ".to_owned().concat(why)),
    }
}

/// The page; `Err` tells why it could not be read.
pub fn serve_index(page: Result<String, String>) -> (out: Reply)
    ensures
        match page {
            Ok(contents) => out.is_page(contents@),
            Err(why) => out.is_internal_error(why@),
        },
{
    match page {
        Ok(contents) => Reply {
            status: 200,
            content_type: None,
            no_store: true,
            body: Body::Html(contents),
        },
        Err(why) => internal_error(why.as_str()),
    }
}

/// A file of the preview, as it is.
pub fn serve_bytes(file: Found<Vec<u8>>, content_type: &'static str) -> (out: Reply)
    ensures
        match file {
            Found::Present(bytes) => out == (Reply {
                status: 200,
                content_type: Some(content_type),
                no_store: true,
                body: Body::Bytes(bytes),
            }),
            Found::Missing => out.is_not_found("artifact not found"@),
            Found::Failed(why) => out.is_internal_error(why@),
        },
{
    match file {
        Found::Present(bytes) => Reply {
            status: 200,
            content_type: Some(content_type),
            no_store: true,
            body: Body::Bytes(bytes),
        },
        Found::Missing => not_found("artifact not found"),
        Found::Failed(why) => internal_error(why.as_str()),
    }
}

/// The latest video.
pub fn serve_latest_mp4(file: Found<Vec<u8>>) -> (out: Reply)
    ensures
        match file {
            Found::Present(bytes) => out.status == 200 && (out.content_type matches Some(t) && t@
                == "video/mp4"@) && out.no_store && out.body == Body::Bytes(bytes),
            Found::Missing => out.is_not_found("artifact not found"@),
            Found::Failed(why) => out.is_internal_error(why@),
        },
{
    serve_bytes(file, "video/mp4")
}

/// The latest frame.
pub fn serve_latest_frame(file: Found<Vec<u8>>) -> (out: Reply)
    ensures
        match file {
            Found::Present(bytes) => out.status == 200 && (out.content_type matches Some(t) && t@
                == "image/png"@) && out.no_store && out.body == Body::Bytes(bytes),
            Found::Missing => out.is_not_found("artifact not found"@),
            Found::Failed(why) => out.is_internal_error(why@),
        },
{
    serve_bytes(file, "image/png")
}

/// Where the latest frame is and how many bytes it takes.
pub fn serve_latest_frame_status(preview: &PreviewPaths, size: Found<u64>) -> (out: Reply)
    ensures
        match size {
            Found::Present(bytes) => out.is_fresh_text(
                "latest_frame="@ + preview.latest_frame_path@ + "\nsize_bytes="@ + number::decimal(
                    bytes as nat,
                ) + "\n"@,
            ),
            Found::Missing => out.is_not_found(
                "stable preview frame has not been published yet"@,
            ),
            Found::Failed(why) => out.is_internal_error(why@),
        },
{
    match size {
        Found::Present(bytes) => {
            let mut body: String = "latest_frame=".to_owned();
            body.append(preview.latest_frame_path.as_str());
            body.append("\nsize_bytes=");
            body.append(number::decimal_text(bytes).as_str());
            body.append("\n");
            fresh_text(body)
        },
        Found::Missing => not_found("stable preview frame has not been published yet"),
        Found::Failed(why) => internal_error(why.as_str()),
    }
}

/// Where the preview is and how many peers are connected.
pub fn serve_status(preview: &PreviewPaths, peers: &Peers) -> (out: Reply)
    requires
        peers.valid(),
    ensures
        out.is_fresh_text(
            "preview=ready\nlatest_segment="@ + preview.video_path@ + "\nlatest_frame="@
                + preview.latest_frame_path@ + "\nconnected_peers="@ + number::decimal(
                peers@.dom().len(),
            ) + "\nhost_peer_id="@ + HOST_PEER_ID@ + "\n"@,
        ),
{
    let mut body: String = "preview=ready\nlatest_segment=".to_owned();
    body.append(preview.video_path.as_str());
    body.append("\nlatest_frame=");
    body.append(preview.latest_frame_path.as_str());
    body.append("\nconnected_peers=");
    body.append(number::decimal_text(peers.len() as u64).as_str());
    body.append("\nhost_peer_id=");
    body.append(HOST_PEER_ID);
    body.append("\n");
    fresh_text(body)
}

/// The peers that the server tells of, in a reply that may not be kept: the host first, then each
/// connected peer.
pub fn list_peers(peers: &Peers) -> (out: Reply)
    requires
        peers.valid(),
    ensures
        out.status == 200,
        out.content_type is None,
        out.no_store,
        out.body matches Body::Peers(list) && peers::lists_peers(list@, peers@),
{
    Reply {
        status: 200,
        content_type: None,
        no_store: true,
        body: Body::Peers(peers.summaries()),
    }
}

/// The host's session as it is, in a reply that may not be kept.
pub fn host_session(session: &HostSessionState) -> (out: Reply)
    ensures
        out == (Reply {
            status: 200,
            content_type: None,
            no_store: true,
            body: Body::Session(*session),
        }),
{
    Reply {
        status: 200,
        content_type: None,
        no_store: true,
        body: Body::Session(session.copy()),
    }
}

/// The host's session before anything happened.
pub fn initial_session() -> (session: HostSessionState)
    ensures
        session.peer_id@ == HOST_PEER_ID@,
        session.last_offer_from is None,
        !session.pending_offer,
        session.pending_ice_candidates == 0,
        session.video_samples_sent == 0,
        session.last_video_error is None,
        session.last_signal_kind is None,
        session.note@ == "Host signalling peer is ready for offer/ICE exchange"@,
{
    let mut session: HostSessionState = HostSessionState::default();
    session.peer_id = HOST_PEER_ID.to_owned();
    session.note = "Host signalling peer is ready for offer/ICE exchange".to_owned();
    session
}

/// Takes note of a signal for the host.
pub fn update_host_session(session: &mut HostSessionState, from: &str, payload: &SignalPayload)
    requires
        *payload is IceCandidate ==> old(session).pending_ice_candidates < usize::MAX,
    ensures
        final(session)@ == old(session)@.after_signal(from@, *payload),
{
    session.last_offer_from = Some(from.to_owned());
    match payload {
        SignalPayload::Offer { .. } => {
            session.pending_offer = true;
            session.last_signal_kind = Some("offer".to_owned());
            session.note =
            "Host received an SDP offer; media engine answer path is the next step.".to_owned();
        },
        SignalPayload::Answer { .. } => {
            session.last_signal_kind = Some("answer".to_owned());
            session.note = "Host received an SDP answer.".to_owned();
        },
        SignalPayload::IceCandidate { .. } => {
            session.pending_ice_candidates = session.pending_ice_candidates + 1;
            session.last_signal_kind = Some("ice_candidate".to_owned());
            session.note =
            "Host is collecting ICE candidates for the future WebRTC engine.".to_owned();
        },
        SignalPayload::Renegotiate => {
            session.last_signal_kind = Some("renegotiate".to_owned());
            session.note = "Host received a renegotiation request.".to_owned();
        },
    }
}

/// A connection to a peer, which may have told its name.
#[derive(Debug)]
pub struct Socket {
    pub connection: u64,
    pub peer_id: Option<String>,
}

/// What a connection brings.
#[derive(Debug)]
pub enum Incoming {
    /// A text: a message, or why it is none.
    Text(Result<SignalMessage, String>),
    /// A request to show life.
    Ping(Vec<u8>),
    /// The end of the connection.
    Close,
    /// Anything else.
    Other,
}

/// What is to be done about what a connection brought.
#[derive(Debug)]
pub enum Action {
    /// Send a message over a connection.
    Send { connection: u64, message: SignalMessage },
    /// Show life with the same bytes.
    Pong(Vec<u8>),
    /// Let the host answer an offer.
    AnswerOffer { from: String, sdp: String },
    /// Hand a candidate to the host's connection with the peer, if there is one.
    AddCandidate { candidate: String, sdp_mid: Option<String>, sdp_mline_index: Option<u16> },
    /// Tell the peer of the host's session as it then is.
    ReportSession,
    /// End the connection.
    End,
}

/// `action` sends `connection` an error message.
pub open spec fn sends_error(action: Action, connection: u64, message: Seq<char>) -> bool {
    action matches Action::Send { connection: c, message: SignalMessage::Error { message: m } } && c
        == connection && m@ == message
}

/// What is to be done about a signal for the host.
pub open spec fn handles_host_signal(
    actions: Seq<Action>,
    from: Seq<char>,
    payload: SignalPayload,
) -> bool {
    match payload {
        SignalPayload::Offer { sdp } => actions.len() == 2 && (actions[0] matches
            Action::AnswerOffer { from: f, sdp: s } && f@ == from && s == sdp) && actions[1]
            == Action::ReportSession,
        SignalPayload::IceCandidate { candidate, sdp_mid, sdp_mline_index } => actions == seq![
            Action::AddCandidate { candidate, sdp_mid, sdp_mline_index },
            Action::ReportSession,
        ],
        _ => actions == seq![Action::ReportSession],
    }
}

/// What is to be done about a message that a connection brought, with the peers as they then are.
pub open spec fn handles(
    actions: Seq<Action>,
    connection: u64,
    message: SignalMessage,
    session: HostSessionState,
    before: Map<Seq<char>, PeerHandle>,
    after: Map<Seq<char>, PeerHandle>,
) -> bool {
    match message {
        SignalMessage::Hello { peer_id, role, capabilities } => {
            &&& actions.len() == 2
            &&& actions[0] matches Action::Send {
                connection: c,
                message: SignalMessage::Peers { peers: list },
            } && c == connection && peers::lists_peers(list@, after)
            &&& actions[1] == (Action::Send {
                connection,
                message: SignalMessage::HostSession { session },
            })
        },
        SignalMessage::Signal { from, to, payload } => if to@ == HOST_PEER_ID@ {
            handles_host_signal(actions, from@, payload)
        } else if before.contains_key(to@) {
            actions == seq![
                Action::Send {
                    connection: before[to@].connection,
                    message: SignalMessage::Signal { from, to, payload },
                },
            ]
        } else {
            actions.len() == 1 && sends_error(
                actions[0],
                connection,
                "target peer '"@ + to@ + "' is not connected"@,
            )
        },
        SignalMessage::Ping { nonce } => actions == seq![
            Action::Send { connection, message: SignalMessage::Pong { nonce } },
        ],
        _ => actions.len() == 0,
    }
}

/// The peers after a connection brought a message: one that says hello is known by its name.
pub open spec fn peers_after(
    before: Map<Seq<char>, PeerHandle>,
    connection: u64,
    incoming: Incoming,
) -> Map<Seq<char>, PeerHandle> {
    match incoming {
        Incoming::Text(Ok(SignalMessage::Hello { peer_id, role, capabilities })) => before.insert(
            peer_id@,
            PeerHandle { role, connection },
        ),
        _ => before,
    }
}

/// The host's session after a connection brought a message: signals for the host are noted.
pub open spec fn session_notes(
    before: HostSessionState,
    after: HostSessionState,
    incoming: Incoming,
) -> bool {
    match incoming {
        Incoming::Text(Ok(SignalMessage::Signal { from, to, payload })) => if to@ == HOST_PEER_ID@ {
            after@ == before@.after_signal(from@, payload)
        } else {
            after == before
        },
        _ => after == before,
    }
}

/// A connection brought a candidate for the host.
pub open spec fn brings_candidate(incoming: Incoming) -> bool {
    incoming matches Incoming::Text(Ok(SignalMessage::Signal { from, to, payload })) && to@
        == HOST_PEER_ID@ && payload is IceCandidate
}

fn error_to(connection: u64, message: String) -> (out: Action)
    ensures
        sends_error(out, connection, message@),
{
    Action::Send { connection, message: SignalMessage::Error { message } }
}

/// What is to be done about a signal for the host, which is noted in its session.
pub fn handle_host_signal(
    session: &mut HostSessionState,
    from: String,
    payload: SignalPayload,
) -> (actions: Vec<Action>)
    requires
        payload is IceCandidate ==> old(session).pending_ice_candidates < usize::MAX,
    ensures
        final(session)@ == old(session)@.after_signal(from@, payload),
        handles_host_signal(actions@, from@, payload),
{
    update_host_session(session, from.as_str(), &payload);
    let ghost told = payload;
    let mut actions: Vec<Action> = Vec::new();
    match payload {
        SignalPayload::Offer { sdp } => {
            actions.push(Action::AnswerOffer { from, sdp });
        },
        SignalPayload::IceCandidate { candidate, sdp_mid, sdp_mline_index } => {
            actions.push(Action::AddCandidate { candidate, sdp_mid, sdp_mline_index });
        },
        _ => {},
    }
    actions.push(Action::ReportSession);
    proof {
        match told {
            SignalPayload::Offer { sdp } => {},
            SignalPayload::IceCandidate { candidate, sdp_mid, sdp_mline_index } => {
                assert(actions@ =~= seq![
                    Action::AddCandidate { candidate, sdp_mid, sdp_mline_index },
                    Action::ReportSession,
                ]);
            },
            _ => {
                assert(actions@ =~= seq![Action::ReportSession]);
            },
        }
    }
    actions
}

impl Socket {
    /// A connection that has not told its name.
    pub fn new(connection: u64) -> (socket: Socket)
        ensures
            socket == (Socket { connection, peer_id: None }),
    {
        Socket { connection, peer_id: None }
    }

    /// The name that the connection goes by after it brought something.
    pub open spec fn name_after(self, incoming: Incoming) -> Option<Seq<char>> {
        match incoming {
            Incoming::Text(Ok(SignalMessage::Hello { peer_id, role, capabilities })) => Some(
                peer_id@,
            ),
            _ => text::opt_text(self.peer_id),
        }
    }

    /// What is to be done about what the connection brought.
    pub fn on_incoming(
        &mut self,
        incoming: Incoming,
        peers: &mut Peers,
        session: &mut HostSessionState,
    ) -> (actions: Vec<Action>)
        requires
            old(peers).valid(),
            brings_candidate(incoming) ==> old(session).pending_ice_candidates < usize::MAX,
        ensures
            final(self).connection == old(self).connection,
            text::opt_text(final(self).peer_id) == old(self).name_after(incoming),
            final(peers).valid(),
            final(peers)@ == peers_after(old(peers)@, old(self).connection, incoming),
            session_notes(*old(session), *final(session), incoming),
            match incoming {
                Incoming::Text(Ok(message)) => handles(
                    actions@,
                    old(self).connection,
                    message,
                    *old(session),
                    old(peers)@,
                    final(peers)@,
                ),
                Incoming::Text(Err(why)) => actions@.len() == 1 && sends_error(
                    actions@[0],
                    old(self).connection,
                    "invalid signalling message: "@ + why@,
                ),
                Incoming::Ping(bytes) => actions@ == seq![Action::Pong(bytes)],
                Incoming::Close => actions@ == seq![Action::End],
                Incoming::Other => actions@.len() == 0,
            },
    {
        let mut actions: Vec<Action> = Vec::new();
        let connection: u64 = self.connection;
        match incoming {
            Incoming::Text(Ok(SignalMessage::Hello { peer_id, role, capabilities: _ })) => {
                peers.insert(peer_id.as_str(), PeerHandle { role, connection });
                self.peer_id = Some(peer_id);
                let list: Vec<PeerSummary> = peers.summaries();
                actions.push(
                    Action::Send { connection, message: SignalMessage::Peers { peers: list } },
                );
                actions.push(
                    Action::Send {
                        connection,
                        message: SignalMessage::HostSession { session: session.copy() },
                    },
                );
            },
            Incoming::Text(Ok(SignalMessage::Signal { from, to, payload })) => {
                if text::same(to.as_str(), HOST_PEER_ID) {
                    return handle_host_signal(session, from, payload);
                }
                match peers.get(to.as_str()) {
                    Some(target) => {
                        actions.push(
                            Action::Send {
                                connection: target.connection,
                                message: SignalMessage::Signal { from, to, payload },
                            },
                        );
                    },
                    None => {
                        let mut why: String = "target peer '".to_owned();
                        why.append(to.as_str());
                        why.append("' is not connected");
                        actions.push(error_to(connection, why));
                    },
                }
            },
            Incoming::Text(Ok(SignalMessage::Ping { nonce })) => {
                actions.push(Action::Send { connection, message: SignalMessage::Pong { nonce } });
            },
            Incoming::Text(Ok(_)) => {},
            Incoming::Text(Err(why)) => {
                actions.push(
                    error_to(
                        connection,
                        "invalid signalling message: ".to_owned().concat(why.as_str()),
                    ),
                );
            },
            Incoming::Ping(bytes) => {
                actions.push(Action::Pong(bytes));
            },
            Incoming::Close => {
                actions.push(Action::End);
            },
            Incoming::Other => {},
        }
        actions
    }

    /// Forgets the peer of a connection that is over.
    pub fn on_end(&self, peers: &mut Peers)
        requires
            old(peers).valid(),
        ensures
            final(peers).valid(),
            final(peers)@ == match self.peer_id {
                Some(name) => old(peers)@.remove(name@),
                None => old(peers)@,
            },
    {
        match &self.peer_id {
            Some(name) => peers.remove(name.as_str()),
            None => {},
        }
    }
}

/// The message that tells a peer of the host's session.
pub fn session_report(session: &HostSessionState) -> (out: SignalMessage)
    ensures
        out == (SignalMessage::HostSession { session: *session }),
{
    SignalMessage::HostSession { session: session.copy() }
}

/// The message that tells a peer why its offer got no answer.
pub fn offer_failed(err: &HostWebRtcError) -> (out: SignalMessage)
    ensures
        out matches SignalMessage::Error { message } && message@ == "failed to create host answer: "@
            + err.text(),
{
    SignalMessage::Error {
        message: "failed to create host answer: ".to_owned().concat(err.message().as_str()),
    }
}

/// The message that tells a peer why its candidate was not taken.
pub fn candidate_failed(err: &HostWebRtcError) -> (out: SignalMessage)
    ensures
        out matches SignalMessage::Error { message } && message@
            == "failed to add remote ICE candidate: "@ + err.text(),
{
    SignalMessage::Error {
        message: "failed to add remote ICE candidate: ".to_owned().concat(err.message().as_str()),
    }
}

/// What an attempt to answer an offer leaves: the engine that the host has from then on, and what
/// the peer is told. An attempt that failed leaves the engine that there was.
pub fn after_offer<E>(engine: Option<E>, answered: Result<E, HostWebRtcError>) -> (out: (
    Option<E>,
    Option<SignalMessage>,
))
    ensures
        match answered {
            Ok(made) => out.0 == Some(made) && out.1 is None,
            Err(err) => out.0 == engine && (out.1 matches Some(SignalMessage::Error { message })
                && message@ == "failed to create host answer: "@ + err.text()),
        },
{
    match answered {
        Ok(made) => (Some(made), None),
        Err(err) => (engine, Some(offer_failed(&err))),
    }
}

/// What the peer is told after its candidate was handed to the host's engine; `None` stands for a
/// host without engine. Only a refusal is told.
pub fn after_candidate(added: Option<Result<(), HostWebRtcError>>) -> (out: Option<SignalMessage>)
    ensures
        match added {
            Some(Err(err)) => out matches Some(SignalMessage::Error { message }) && message@
                == "failed to add remote ICE candidate: "@ + err.text(),
            _ => out is None,
        },
{
    match added {
        Some(Err(err)) => Some(candidate_failed(&err)),
        _ => None,
    }
}

/// A peer that joins and leaves again is forgotten, and the others stay as they were.
pub proof fn leaving_undoes_joining(
    peers: Map<Seq<char>, PeerHandle>,
    connection: u64,
    peer_id: String,
    role: PeerRole,
    capabilities: Option<PeerCapabilities>,
)
    requires
        !peers.contains_key(peer_id@),
    ensures
        peers_after(
            peers,
            connection,
            Incoming::Text(Ok(SignalMessage::Hello { peer_id, role, capabilities })),
        ).remove(peer_id@) == peers,
{
    assert(peers.insert(peer_id@, PeerHandle { role, connection }).remove(peer_id@) =~= peers);
}

/// A signal reaches the peer that it names: what another connection sends to a peer that said
/// hello goes over the connection of that peer, unchanged.
pub proof fn signals_reach_the_peer_they_name(
    peers: Map<Seq<char>, PeerHandle>,
    connection: u64,
    peer_id: String,
    role: PeerRole,
    capabilities: Option<PeerCapabilities>,
    sender: u64,
    from: String,
    to: String,
    payload: SignalPayload,
    session: HostSessionState,
    actions: Seq<Action>,
    after: Map<Seq<char>, PeerHandle>,
)
    requires
        to@ == peer_id@,
        to@ != HOST_PEER_ID@,
        handles(
            actions,
            sender,
            SignalMessage::Signal { from, to, payload },
            session,
            peers_after(
                peers,
                connection,
                Incoming::Text(Ok(SignalMessage::Hello { peer_id, role, capabilities })),
            ),
            after,
        ),
    ensures
        actions == seq![
            Action::Send { connection, message: SignalMessage::Signal { from, to, payload } },
        ],
{
}

/// A signal for the host is never passed on, even where a peer said hello by the host's name.
pub proof fn signals_for_the_host_stay_there(
    actions: Seq<Action>,
    sender: u64,
    from: String,
    to: String,
    payload: SignalPayload,
    session: HostSessionState,
    before: Map<Seq<char>, PeerHandle>,
    after: Map<Seq<char>, PeerHandle>,
)
    requires
        to@ == HOST_PEER_ID@,
        handles(actions, sender, SignalMessage::Signal { from, to, payload }, session, before, after),
    ensures
        forall|i: int| 0 <= i < actions.len() ==> !(#[trigger] actions[i] is Send),
        actions.len() > 0,
        actions.last() == Action::ReportSession,
{
}

/// The session after a series of signals for the host.
pub open spec fn session_after(
    start: SessionView,
    signals: Seq<(Seq<char>, SignalPayload)>,
) -> SessionView
    decreases signals.len(),
{
    if signals.len() == 0 {
        start
    } else {
        session_after(start, signals.drop_last()).after_signal(signals.last().0, signals.last().1)
    }
}

/// How many of the signals carry a candidate.
pub open spec fn candidates_among(signals: Seq<(Seq<char>, SignalPayload)>) -> nat
    decreases signals.len(),
{
    if signals.len() == 0 {
        0
    } else {
        candidates_among(signals.drop_last()) + if signals.last().1 is IceCandidate {
            1nat
        } else {
            0nat
        }
    }
}

/// The host counts the candidates that it is sent, remembers who signalled last, and has an offer
/// pending once one came, until it makes an answer.
pub proof fn signals_are_counted(start: SessionView, signals: Seq<(Seq<char>, SignalPayload)>)
    ensures
        session_after(start, signals).pending_ice_candidates == start.pending_ice_candidates
            + candidates_among(signals),
        signals.len() > 0 ==> session_after(start, signals).last_offer_from == Some(
            signals.last().0,
        ),
        session_after(start, signals).pending_offer <==> start.pending_offer || exists|i: int|
            0 <= i < signals.len() && (#[trigger] signals[i]).1 is Offer,
        session_after(start, signals).peer_id == start.peer_id,
        session_after(start, signals).video_samples_sent == start.video_samples_sent,
        !session_after(start, signals).after_answer().pending_offer,
    decreases signals.len(),
{
    if signals.len() > 0 {
        let init = signals.drop_last();
        signals_are_counted(start, init);
        if exists|i: int| 0 <= i < init.len() && (#[trigger] init[i]).1 is Offer {
            let i = choose|i: int| 0 <= i < init.len() && (#[trigger] init[i]).1 is Offer;
            assert(signals[i].1 is Offer);
        }
        if signals.last().1 is Offer {
            assert(signals[signals.len() - 1].1 is Offer);
        }
        if exists|i: int| 0 <= i < signals.len() && (#[trigger] signals[i]).1 is Offer {
            let i = choose|i: int| 0 <= i < signals.len() && (#[trigger] signals[i]).1 is Offer;
            if i < init.len() {
                assert(init[i].1 is Offer);
            }
        }
    }
}

/// Whatever its `sdp_mid` and `sdp_mline_index`, a candidate that a peer signals to the host is
/// handed on exactly once, as it is, before the peer is told of the session; nothing else is done.
pub proof fn candidates_reach_the_host(
    actions: Seq<Action>,
    sender: u64,
    from: String,
    to: String,
    candidate: String,
    sdp_mid: Option<String>,
    sdp_mline_index: Option<u16>,
    session: HostSessionState,
    before: Map<Seq<char>, PeerHandle>,
    after: Map<Seq<char>, PeerHandle>,
)
    requires
        to@ == "desplio-host"@,
        handles(
            actions,
            sender,
            SignalMessage::Signal {
                from,
                to,
                payload: SignalPayload::IceCandidate { candidate, sdp_mid, sdp_mline_index },
            },
            session,
            before,
            after,
        ),
    ensures
        actions.len() == 2,
        actions[0] matches Action::AddCandidate { candidate: c, sdp_mid: m, sdp_mline_index: i }
            && c == candidate && m == sdp_mid && i == sdp_mline_index,
        actions[1] == Action::ReportSession,
{
}

/// An offer that a peer signals to the host is answered exactly once, for that peer and with the
/// text that it sent, before the peer is told of the session.
pub proof fn offers_reach_the_host(
    actions: Seq<Action>,
    sender: u64,
    from: String,
    to: String,
    sdp: String,
    session: HostSessionState,
    before: Map<Seq<char>, PeerHandle>,
    after: Map<Seq<char>, PeerHandle>,
)
    requires
        to@ == "desplio-host"@,
        handles(
            actions,
            sender,
            SignalMessage::Signal { from, to, payload: SignalPayload::Offer { sdp } },
            session,
            before,
            after,
        ),
    ensures
        actions.len() == 2,
        actions[0] matches Action::AnswerOffer { from: f, sdp: s } && f@ == from@ && s == sdp,
        actions[1] == Action::ReportSession,
{
}

/// Of an answer or a request to renegotiate, the host only tells the peer its session.
pub proof fn other_signals_are_only_noted(
    actions: Seq<Action>,
    sender: u64,
    from: String,
    to: String,
    payload: SignalPayload,
    session: HostSessionState,
    before: Map<Seq<char>, PeerHandle>,
    after: Map<Seq<char>, PeerHandle>,
)
    requires
        to@ == "desplio-host"@,
        payload is Answer || payload is Renegotiate,
        handles(actions, sender, SignalMessage::Signal { from, to, payload }, session, before, after),
    ensures
        actions == seq![Action::ReportSession],
{
}

/// A signal for a peer that is not connected is answered with an error that names that peer, to the
/// one who sent it and to nobody else.
pub proof fn unknown_peers_are_named(
    actions: Seq<Action>,
    sender: u64,
    from: String,
    to: String,
    payload: SignalPayload,
    session: HostSessionState,
    before: Map<Seq<char>, PeerHandle>,
    after: Map<Seq<char>, PeerHandle>,
)
    requires
        to@ != "desplio-host"@,
        !before.contains_key(to@),
        handles(actions, sender, SignalMessage::Signal { from, to, payload }, session, before, after),
    ensures
        actions.len() == 1,
        actions[0] matches Action::Send { connection, message: SignalMessage::Error { message } }
            && connection == sender && message@ == "target peer '"@ + to@ + "' is not connected"@
            && text::contains(message@, to@),
{
    text::middle_is_found("target peer '"@, to@, "' is not connected"@);
}

/// A signal for a connected peer is sent to the connection of that peer as it is, and to nobody
/// else, whoever sends it.
pub proof fn signals_are_passed_on_unchanged(
    actions: Seq<Action>,
    sender: u64,
    from: String,
    to: String,
    payload: SignalPayload,
    session: HostSessionState,
    before: Map<Seq<char>, PeerHandle>,
    after: Map<Seq<char>, PeerHandle>,
)
    requires
        to@ != "desplio-host"@,
        before.contains_key(to@),
        handles(actions, sender, SignalMessage::Signal { from, to, payload }, session, before, after),
    ensures
        actions.len() == 1,
        actions[0] matches Action::Send { connection, message: SignalMessage::Signal {
            from: f,
            to: t,
            payload: p,
        } } && connection == before[to@].connection && f == from && t == to && p == payload,
{
}

/// A ping is answered to the one who sent it with the same nonce; other messages that a peer has no
/// reason to send are not answered.
pub proof fn pings_are_answered(
    actions: Seq<Action>,
    sender: u64,
    message: SignalMessage,
    session: HostSessionState,
    before: Map<Seq<char>, PeerHandle>,
    after: Map<Seq<char>, PeerHandle>,
)
    requires
        handles(actions, sender, message, session, before, after),
    ensures
        message matches SignalMessage::Ping { nonce } ==> actions.len() == 1 && (actions[0] matches
            Action::Send { connection, message: SignalMessage::Pong { nonce: back } } && connection
            == sender && back == nonce),
        message is Peers || message is HostSession || message is Pong || message is Error
            ==> actions.len() == 0,
{
}

/// A peer that says hello is known by its name from then on, with the role that it told and over
/// its own connection; it is told of the peers, among which it is with that role, and then of the
/// session. No other peer is touched.
pub proof fn newcomers_are_known(
    actions: Seq<Action>,
    sender: u64,
    peer_id: String,
    role: PeerRole,
    capabilities: Option<PeerCapabilities>,
    session: HostSessionState,
    before: Map<Seq<char>, PeerHandle>,
    after: Map<Seq<char>, PeerHandle>,
    other: Seq<char>,
)
    requires
        after == peers_after(
            before,
            sender,
            Incoming::Text(Ok(SignalMessage::Hello { peer_id, role, capabilities })),
        ),
        handles(
            actions,
            sender,
            SignalMessage::Hello { peer_id, role, capabilities },
            session,
            before,
            after,
        ),
        other != peer_id@,
    ensures
        after.contains_key(peer_id@),
        after[peer_id@].role == role,
        after[peer_id@].connection == sender,
        after.contains_key(other) <==> before.contains_key(other),
        before.contains_key(other) ==> after[other] == before[other],
        actions.len() == 2,
        actions[0] matches Action::Send { connection, message: SignalMessage::Peers { peers: list } }
            && connection == sender && list@.len() > 1 && list@[0].peer_id@ == "desplio-host"@
            && list@[0].role == PeerRole::Host && exists|i: int|
            1 <= i < list@.len() && #[trigger] list@[i].peer_id@ == peer_id@ && list@[i].role
                == role,
        actions[1] matches Action::Send { connection, message: SignalMessage::HostSession {
            session: told,
        } } && connection == sender && told == session,
{
    if let Action::Send { connection, message: SignalMessage::Peers { peers: list } } = actions[0] {
        assert(after.contains_key(peer_id@));
        let i = choose|i: int| 1 <= i < list@.len() && #[trigger] list@[i].peer_id@ == peer_id@;
        assert(list@[i].peer_id@ == peer_id@);
    }
}

/// Only a hello changes who is known, and only it gives a connection a name.
pub proof fn only_hello_makes_known(
    before: Map<Seq<char>, PeerHandle>,
    connection: u64,
    socket: Socket,
    incoming: Incoming,
)
    ensures
        incoming matches Incoming::Text(Ok(SignalMessage::Hello { peer_id, role, capabilities }))
            ==> socket.name_after(incoming) == Some(peer_id@),
        !(incoming matches Incoming::Text(Ok(message)) && message is Hello) ==> peers_after(
            before,
            connection,
            incoming,
        ) == before && socket.name_after(incoming) == text::opt_text(socket.peer_id),
{
}

/// The session takes note of every signal for the host: who sent it, what it was, that an offer is
/// pending, and one candidate more where it was one. Of anything else it takes no note.
pub proof fn sessions_note_signals_for_the_host(
    before: HostSessionState,
    after: HostSessionState,
    incoming: Incoming,
)
    requires
        session_notes(before, after, incoming),
    ensures
        match incoming {
            Incoming::Text(Ok(SignalMessage::Signal { from, to, payload })) => if to@
                == "desplio-host"@ {
                &&& text::opt_text(after.last_offer_from) == Some(from@)
                &&& after.pending_offer <==> before.pending_offer || payload is Offer
                &&& payload is IceCandidate ==> after.pending_ice_candidates
                    == before.pending_ice_candidates + 1
                &&& payload !is IceCandidate ==> after.pending_ice_candidates
                    == before.pending_ice_candidates
                &&& text::opt_text(after.last_signal_kind) == Some(
                    match payload {
                        SignalPayload::Offer { .. } => "offer"@,
                        SignalPayload::Answer { .. } => "answer"@,
                        SignalPayload::IceCandidate { .. } => "ice_candidate"@,
                        SignalPayload::Renegotiate => "renegotiate"@,
                    },
                )
                &&& after.peer_id@ == before.peer_id@
                &&& after.video_samples_sent == before.video_samples_sent
                &&& text::opt_text(after.last_video_error) == text::opt_text(
                    before.last_video_error,
                )
            } else {
                after == before
            },
            _ => after == before,
        },
{
}

/// A candidate for the host is one that a signal to its name carries, and nothing else is.
pub proof fn candidates_come_in_signals(incoming: Incoming)
    ensures
        brings_candidate(incoming) <==> (incoming matches Incoming::Text(Ok(SignalMessage::Signal {
            from,
            to,
            payload: SignalPayload::IceCandidate { candidate, sdp_mid, sdp_mline_index },
        })) && to@ == "desplio-host"@),
{
}

/// What a reply says of itself: a page and a fresh text come with 200 and may not be kept; what is
/// not found comes with 404 and a failure with 500, which tells its reason after `internal error:
/// `.
pub proof fn replies_tell_what_they_are(reply: Reply, contents: Seq<char>)
    ensures
        reply.is_page(contents) ==> reply.status == 200 && reply.no_store
            && reply.content_type is None && (reply.body matches Body::Html(page) && page@ == contents),
        reply.is_fresh_text(contents) ==> reply.status == 200 && reply.no_store
            && reply.content_type is None && (reply.body matches Body::Text(said) && said@
            == contents),
        reply.is_not_found(contents) ==> reply.status == 404 && !reply.no_store
            && reply.content_type is None && (reply.body matches Body::Text(said) && said@
            == contents),
        reply.is_internal_error(contents) ==> reply.status == 500 && !reply.no_store
            && reply.content_type is None && (reply.body matches Body::Text(said) && said@
            == "internal error: "@ + contents),
{
}

/// An error is sent over the connection that it is for, and says what it is to say.
pub proof fn errors_are_sent_to_the_sender(action: Action, connection: u64, message: Seq<char>)
    requires
        sends_error(action, connection, message),
    ensures
        action matches Action::Send { connection: c, message: SignalMessage::Error { message: m } }
            && c == connection && m@ == message,
{
}

/// A file of the preview is served byte for byte as what it is, and may not be kept; one that is
/// missing is not found, and one that could not be read is told with the reason.
pub proof fn files_are_served_as_they_are(
    bytes: Vec<u8>,
    why: String,
    video: Reply,
    frame: Reply,
    missing: Reply,
    failed: Reply,
)
    requires
        call_ensures(serve_latest_mp4, (Found::Present(bytes),), video),
        call_ensures(serve_latest_frame, (Found::Present(bytes),), frame),
        call_ensures(serve_latest_frame, (Found::Missing,), missing),
        call_ensures(serve_latest_frame, (Found::Failed(why),), failed),
    ensures
        video.status == 200 && video.no_store && video.body == Body::Bytes(bytes) && (
        video.content_type matches Some(kind) && kind@ == "video/mp4"@),
        frame.status == 200 && frame.no_store && frame.body == Body::Bytes(bytes) && (
        frame.content_type matches Some(kind) && kind@ == "image/png"@),
        missing.status == 404,
        failed.status == 500 && (failed.body matches Body::Text(said) && text::has_suffix(
            said@,
            why@,
        )),
{
    text::parts_are_found("internal error: "@, why@);
}

/// The status tells where the preview is and how many peers are connected: the number reads back
/// between `connected_peers=` and the end of its line.
pub proof fn status_tells_the_peers(preview: PreviewPaths, peers: Peers, out: Reply)
    requires
        peers.valid(),
        call_ensures(serve_status, (&preview, &peers), out),
    ensures
        out.status == 200,
        out.no_store,
        out.body matches Body::Text(said) && text::contains(
            said@,
            "\nconnected_peers="@ + number::decimal(peers@.dom().len()) + "\nhost_peer_id="@,
        ) && text::has_prefix(said@, "preview=ready\nlatest_segment="@ + preview.video_path@)
            && text::contains(said@, "\nlatest_frame="@ + preview.latest_frame_path@),
{
    if out.body is Text {
        lemma_status_parts(
            "preview=ready\nlatest_segment="@,
            preview.video_path@,
            "\nlatest_frame="@,
            preview.latest_frame_path@,
            "\nconnected_peers="@,
            number::decimal(peers@.dom().len()),
            "\nhost_peer_id="@,
            HOST_PEER_ID@,
            "\n"@,
        );
    }
}

proof fn lemma_status_parts(
    a: Seq<char>,
    b: Seq<char>,
    c: Seq<char>,
    d: Seq<char>,
    e: Seq<char>,
    f: Seq<char>,
    g: Seq<char>,
    h: Seq<char>,
    i: Seq<char>,
)
    ensures
        text::has_prefix(a + b + c + d + e + f + g + h + i, a + b),
        text::contains(a + b + c + d + e + f + g + h + i, c + d),
        text::contains(a + b + c + d + e + f + g + h + i, e + f + g),
{
    let all = a + b + c + d + e + f + g + h + i;
    assert(text::has_prefix(all, a + b)) by {
        assert(all =~= (a + b) + (c + d + e + f + g + h + i));
        text::parts_are_found(a + b, c + d + e + f + g + h + i);
    }
    assert(text::contains(all, c + d)) by {
        assert(all =~= (a + b) + (c + d) + (e + f + g + h + i));
        text::middle_is_found(a + b, c + d, e + f + g + h + i);
    }
    assert(text::contains(all, e + f + g)) by {
        assert(all =~= (a + b + c + d) + (e + f + g) + (h + i));
        text::middle_is_found(a + b + c + d, e + f + g, h + i);
    }
}

/// The status of the latest frame tells its file and its size.
pub proof fn frame_status_tells_the_size(preview: PreviewPaths, bytes: u64, out: Reply)
    requires
        call_ensures(serve_latest_frame_status, (&preview, Found::Present(bytes)), out),
    ensures
        out.status == 200,
        out.no_store,
        out.body matches Body::Text(said) && text::has_suffix(
            said@,
            "\nsize_bytes="@ + number::decimal(bytes as nat) + "\n"@,
        ) && text::has_prefix(said@, "latest_frame="@ + preview.latest_frame_path@),
{
    let head = "latest_frame="@ + preview.latest_frame_path@;
    let tail = "\nsize_bytes="@ + number::decimal(bytes as nat) + "\n"@;
    if let Body::Text(said) = out.body {
        assert(said@ =~= head + tail);
        text::parts_are_found(head, tail);
    }
}

/// An offer that was answered gives the host a new engine and tells the peer nothing more; one that
/// was not leaves the engine that there was, and tells the peer why. A candidate that was refused
/// is told, and no other.
pub proof fn failures_are_told_to_the_peer<E>(
    engine: Option<E>,
    made: E,
    err: HostWebRtcError,
    answered: (Option<E>, Option<SignalMessage>),
    failed: (Option<E>, Option<SignalMessage>),
    taken: Option<SignalMessage>,
    refused: Option<SignalMessage>,
)
    requires
        call_ensures(after_offer::<E>, (engine, Ok(made)), answered),
        call_ensures(after_offer::<E>, (engine, Err(err)), failed),
        call_ensures(after_candidate, (Some(Ok(())),), taken),
        call_ensures(after_candidate, (Some(Err(err)),), refused),
    ensures
        answered == (Some(made), None::<SignalMessage>),
        failed.0 == engine,
        failed.1 matches Some(SignalMessage::Error { message }) && text::has_suffix(
            message@,
            err.text(),
        ),
        taken is None,
        refused matches Some(SignalMessage::Error { message }) && text::has_suffix(
            message@,
            err.text(),
        ),
{
    text::parts_are_found("failed to create host answer: "@, err.text());
    text::parts_are_found("failed to add remote ICE candidate: "@, err.text());
}

} // verus!
