//! The host's side of a WebRTC session: signals, the session's state, and the video that is sent.
use vstd::prelude::*;

use crate::encoder::EncodeError;
use crate::process;
use crate::text;

verus! {

/// A message between peers, or between a peer and the host.
#[derive(Debug, Clone)]
pub enum SignalMessage {
    Hello { peer_id: String, role: PeerRole, capabilities: Option<PeerCapabilities> },
    Peers { peers: Vec<PeerSummary> },
    Signal { from: String, to: String, payload: SignalPayload },
    HostSession { session: HostSessionState },
    Ping { nonce: u64 },
    Pong { nonce: u64 },
    Error { message: String },
}

/// What a peer is.
#[derive(Debug, Clone, Copy, PartialEq, Eq, Structural)]
pub enum PeerRole {
    Host,
    BrowserClient,
    MobileClient,
    DesktopClient,
}

/// What a peer wants.
#[derive(Debug, Clone)]
pub struct PeerCapabilities {
    pub wants_video: bool,
    pub wants_input: bool,
    pub max_resolution: Option<String>,
}

/// A peer as others see it.
#[derive(Debug, Clone)]
pub struct PeerSummary {
    pub peer_id: String,
    pub role: PeerRole,
}

/// What has happened in the host's session so far.
#[derive(Debug, Clone)]
pub struct HostSessionState {
    pub peer_id: String,
    pub last_offer_from: Option<String>,
    pub pending_offer: bool,
    pub pending_ice_candidates: usize,
    pub video_samples_sent: usize,
    pub last_video_error: Option<String>,
    pub last_signal_kind: Option<String>,
    pub note: String,
}

/// What a signal carries.
#[derive(Debug, Clone)]
pub enum SignalPayload {
    Offer { sdp: String },
    Answer { sdp: String },
    IceCandidate { candidate: String, sdp_mid: Option<String>, sdp_mline_index: Option<u16> },
    Renegotiate,
}

/// Why the host cannot take part in a session.
#[derive(Debug, Clone)]
pub enum HostWebRtcError {
    MediaEngine(String),
}

impl HostWebRtcError {
    /// The error in words.
    pub open spec fn text(self) -> Seq<char> {
        match self {
            HostWebRtcError::MediaEngine(why) => "failed to initialize media engine: "@ + why@,
        }
    }

    /// The error in words.
    pub fn message(&self) -> (out: String)
        ensures
            out@ == self.text(),
    {
        match self {
            HostWebRtcError::MediaEngine(why) =>
                "failed to initialize media engine: ".to_owned().concat(why.as_str()),
        }
    }
}

impl Default for HostSessionState {
    fn default() -> (out: Self)
        ensures
            out.peer_id@ == Seq::<char>::empty(),
            out.last_offer_from is None,
            !out.pending_offer,
            out.pending_ice_candidates == 0,
            out.video_samples_sent == 0,
            out.last_video_error is None,
            out.last_signal_kind is None,
            out.note@ == Seq::<char>::empty(),
    {
        HostSessionState {
            peer_id: String::new(),
            last_offer_from: None,
            pending_offer: false,
            pending_ice_candidates: 0,
            video_samples_sent: 0,
            last_video_error: None,
            last_signal_kind: None,
            note: String::new(),
        }
    }
}

/// The contents of a session's state.
pub struct SessionView {
    pub peer_id: Seq<char>,
    pub last_offer_from: Option<Seq<char>>,
    pub pending_offer: bool,
    pub pending_ice_candidates: nat,
    pub video_samples_sent: nat,
    pub last_video_error: Option<Seq<char>>,
    pub last_signal_kind: Option<Seq<char>>,
    pub note: Seq<char>,
}

impl View for HostSessionState {
    type V = SessionView;

    open spec fn view(&self) -> SessionView {
        SessionView {
            peer_id: self.peer_id@,
            last_offer_from: text::opt_text(self.last_offer_from),
            pending_offer: self.pending_offer,
            pending_ice_candidates: self.pending_ice_candidates as nat,
            video_samples_sent: self.video_samples_sent as nat,
            last_video_error: text::opt_text(self.last_video_error),
            last_signal_kind: text::opt_text(self.last_signal_kind),
            note: self.note@,
        }
    }
}

impl SessionView {
    /// The session after the peer `from` sent the host a signal.
    pub open spec fn after_signal(self, from: Seq<char>, payload: SignalPayload) -> SessionView {
        match payload {
            SignalPayload::Offer { .. } => SessionView {
                last_offer_from: Some(from),
                pending_offer: true,
                last_signal_kind: Some("offer"@),
                note: "Host received an SDP offer; media engine answer path is the next step."@,
                ..self
            },
            SignalPayload::Answer { .. } => SessionView {
                last_offer_from: Some(from),
                last_signal_kind: Some("answer"@),
                note: "Host received an SDP answer."@,
                ..self
            },
            SignalPayload::IceCandidate { .. } => SessionView {
                last_offer_from: Some(from),
                pending_ice_candidates: self.pending_ice_candidates + 1,
                last_signal_kind: Some("ice_candidate"@),
                note: "Host is collecting ICE candidates for the future WebRTC engine."@,
                ..self
            },
            SignalPayload::Renegotiate => SessionView {
                last_offer_from: Some(from),
                last_signal_kind: Some("renegotiate"@),
                note: "Host received a renegotiation request."@,
                ..self
            },
        }
    }

    /// The session after the host made an answer.
    pub open spec fn after_answer(self) -> SessionView {
        SessionView {
            pending_offer: false,
            last_signal_kind: Some("answer"@),
            note: "Host generated an SDP answer and started ICE gathering."@,
            ..self
        }
    }
}

fn copy_text(s: &Option<String>) -> (out: Option<String>)
    ensures
        out == *s,
{
    match s {
        Some(t) => Some(t.clone()),
        None => None,
    }
}

impl HostSessionState {
    /// A copy that others get.
    pub fn copy(&self) -> (out: HostSessionState)
        ensures
            out == *self,
    {
        HostSessionState {
            peer_id: self.peer_id.clone(),
            last_offer_from: copy_text(&self.last_offer_from),
            pending_offer: self.pending_offer,
            pending_ice_candidates: self.pending_ice_candidates,
            video_samples_sent: self.video_samples_sent,
            last_video_error: copy_text(&self.last_video_error),
            last_signal_kind: copy_text(&self.last_signal_kind),
            note: self.note.clone(),
        }
    }

    /// Only the note changed, and says `note`.
    pub open spec fn noted(self, after: HostSessionState, note: Seq<char>) -> bool {
        &&& after.note@ == note
        &&& after == (HostSessionState { note: after.note, ..self })
    }

    /// Only the last video error changed, and says `error`.
    pub open spec fn reported(self, after: HostSessionState, error: Seq<char>) -> bool {
        &&& text::opt_text(after.last_video_error) == Some(error)
        &&& after == (HostSessionState { last_video_error: after.last_video_error, ..self })
    }

    fn set_note(&mut self, note: String)
        ensures
            old(self).noted(*final(self), note@),
    {
        self.note = note;
    }

    fn report(&mut self, error: String)
        ensures
            old(self).reported(*final(self), error@),
    {
        self.last_video_error = Some(error);
    }

    /// Takes note of the connection's state.
    pub fn note_connection_state(&mut self, state: &str)
        ensures
            old(self).noted(*final(self), "Host peer connection state: "@ + state@),
    {
        self.set_note("Host peer connection state: ".to_owned().concat(state));
    }

    /// Takes note of a data channel that the peer made.
    pub fn note_data_channel(&mut self, label: &str)
        ensures
            old(self).noted(
                *final(self),
                "Host received data channel '"@ + label@ + "' and is waiting for it to open."@,
            ),
    {
        let mut note: String = "Host received data channel '".to_owned();
        note.append(label);
        note.append("' and is waiting for it to open.");
        self.set_note(note);
    }

    /// Takes note of a data channel that opened, and greets the peer.
    pub fn on_channel_open(&mut self, label: &str) -> (greeting: &'static str)
        ensures
            old(self).noted(*final(self), "Host data channel '"@ + label@ + "' is open."@),
            greeting@ == "desplio-host ready"@,
    {
        let mut note: String = "Host data channel '".to_owned();
        note.append(label);
        note.append("' is open.");
        self.set_note(note);
        "desplio-host ready"
    }

    /// Takes note of a message on a data channel; the reply acknowledges it.
    pub fn on_channel_message(&mut self, label: &str, data: &[u8]) -> (reply: String)
        ensures
            old(self).noted(
                *final(self),
                "Host data channel '"@ + label@ + "' received: "@ + process::lossy_text(data@),
            ),
            reply@ == "ack:"@ + process::lossy_text(data@),
    {
        let received: String = process::text_of(data);
        self.on_channel_text(label, received.as_str())
    }

    /// Takes note of a text on a data channel; the reply acknowledges it.
    pub fn on_channel_text(&mut self, label: &str, received: &str) -> (reply: String)
        ensures
            old(self).noted(
                *final(self),
                "Host data channel '"@ + label@ + "' received: "@ + received@,
            ),
            reply@ == "ack:"@ + received@,
    {
        let mut note: String = "Host data channel '".to_owned();
        note.append(label);
        note.append("' received: ");
        note.append(received);
        self.set_note(note);
        "ack:".to_owned().concat(received)
    }
}

/// A session description of the `webrtc` crate.
#[verifier::external_type_specification]
#[verifier::external_body]
pub struct ExRTCSessionDescription(
    webrtc::peer_connection::sdp::session_description::RTCSessionDescription,
);

/// What `RTCSessionDescription::offer` makes of a text: a description, or why there is none, in
/// words.
pub uninterp spec fn offered(sdp: Seq<char>) -> Result<
    webrtc::peer_connection::sdp::session_description::RTCSessionDescription,
    Seq<char>,
>;

/// An offer that was read: its description, and the text that the description holds.
pub struct Offer {
    pub description: webrtc::peer_connection::sdp::session_description::RTCSessionDescription,
    pub sdp: String,
}

/// Calls `RTCSessionDescription::offer`, which parses the text as SDP and keeps it in the field
/// `sdp`. The description, or the words in which the text is refused, depend on the text alone.
#[verifier::external_body]
fn parse_offer(sdp: String) -> (out: Result<Offer, String>)
    ensures
        offered(sdp@) == match out {
            Ok(offer) => Ok(offer.description),
            Err(why) => Err(why@),
        },
        out matches Ok(offer) ==> offer.sdp@ == sdp@,
{
    match webrtc::peer_connection::sdp::session_description::RTCSessionDescription::offer(sdp) {
        Ok(description) => Ok(Offer { sdp: description.sdp.clone(), description }),
        Err(err) => Err(err.to_string()),
    }
}

/// The host's end of a session with a peer.
#[derive(Debug, Clone)]
pub struct HostWebRtcEngine {
    pub host_peer_id: String,
    pub remote_peer_id: String,
}

/// The server that tells the host its address.
pub const STUN_URL: &'static str = "stun:stun.l.google.com:19302";

/// The name of the video track.
pub const TRACK_ID: &'static str = "video";

/// The name of the stream that the track belongs to.
pub const STREAM_ID: &'static str = "desplio";

/// How long a video sample is shown, in milliseconds.
pub const SAMPLE_MILLIS: u64 = 500;

impl HostWebRtcEngine {
    /// The offer of a peer, where it can be read.
    pub fn read_offer(sdp: String) -> (out: Result<Offer, HostWebRtcError>)
        ensures
            offered(sdp@) == match out {
                Ok(offer) => Ok(offer.description),
                Err(HostWebRtcError::MediaEngine(why)) => Err(why@),
            },
            out matches Ok(offer) ==> offer.sdp@ == sdp@,
    {
        match parse_offer(sdp) {
            Ok(offer) => Ok(offer),
            Err(why) => Err(HostWebRtcError::MediaEngine(why)),
        }
    }

    /// Answers the offer of a peer: the session has an answer, and the peer is sent it. Where there
    /// is no answer, `Err` tells why, and nothing is sent or noted.
    pub fn from_offer(
        host_peer_id: &str,
        remote_peer_id: String,
        answer: Result<String, String>,
        session: &mut HostSessionState,
    ) -> (out: Result<(HostWebRtcEngine, SignalMessage), HostWebRtcError>)
        ensures
            match answer {
                Ok(sdp) => {
                    &&& final(session)@ == old(session)@.after_answer()
                    &&& out matches Ok((engine, signal)) && engine.host_peer_id@ == host_peer_id@
                        && engine.remote_peer_id == remote_peer_id && (signal matches
                        SignalMessage::Signal { from, to, payload } && from@ == host_peer_id@ && to
                        == remote_peer_id && payload == (SignalPayload::Answer { sdp }))
                },
                Err(why) => {
                    &&& *final(session) == *old(session)
                    &&& out == Err::<(HostWebRtcEngine, SignalMessage), HostWebRtcError>(
                        HostWebRtcError::MediaEngine(why),
                    )
                },
            },
    {
        let sdp: String = match answer {
            Ok(sdp) => sdp,
            Err(why) => {
                return Err(HostWebRtcError::MediaEngine(why));
            },
        };
        session.pending_offer = false;
        session.last_signal_kind = Some("answer".to_owned());
        session.note = "Host generated an SDP answer and started ICE gathering.".to_owned();
        let signal: SignalMessage = SignalMessage::Signal {
            from: host_peer_id.to_owned(),
            to: remote_peer_id.clone(),
            payload: SignalPayload::Answer { sdp },
        };
        Ok((HostWebRtcEngine { host_peer_id: host_peer_id.to_owned(), remote_peer_id }, signal))
    }

    /// The signal that tells a peer of a candidate of the host.
    pub fn candidate_signal(
        host_peer_id: &str,
        remote_peer_id: &str,
        candidate: String,
        sdp_mid: Option<String>,
        sdp_mline_index: Option<u16>,
    ) -> (out: SignalMessage)
        ensures
            out matches SignalMessage::Signal { from, to, payload } && from@ == host_peer_id@ && to@
                == remote_peer_id@ && payload == (SignalPayload::IceCandidate {
                candidate,
                sdp_mid,
                sdp_mline_index,
            }),
    {
        SignalMessage::Signal {
            from: host_peer_id.to_owned(),
            to: remote_peer_id.to_owned(),
            payload: SignalPayload::IceCandidate { candidate, sdp_mid, sdp_mline_index },
        }
    }

    /// Takes note of a candidate of the peer that the connection took; `Err` tells why it did
    /// not.
    pub fn add_remote_ice_candidate(
        &self,
        added: Result<(), String>,
        session: &mut HostSessionState,
    ) -> (out: Result<(), HostWebRtcError>)
        ensures
            match added {
                Ok(()) => out == Ok::<(), HostWebRtcError>(()) && old(session).noted(
                    *final(session),
                    "Host accepted remote ICE candidate from "@ + self.remote_peer_id@,
                ),
                Err(why) => out == Err::<(), HostWebRtcError>(HostWebRtcError::MediaEngine(why))
                    && *final(session) == *old(session),
            },
    {
        match added {
            Ok(()) => {
                session.set_note(
                    "Host accepted remote ICE candidate from ".to_owned().concat(
                        self.remote_peer_id.as_str(),
                    ),
                );
                Ok(())
            },
            Err(why) => Err(HostWebRtcError::MediaEngine(why)),
        }
    }
}

/// The video that is sent: the sample that was sent last, and how many were sent.
#[derive(Debug)]
pub struct VideoLoop {
    pub last_payload: Option<Vec<u8>>,
    pub samples_sent: usize,
}

/// What to do with the latest frame.
#[derive(Debug)]
pub enum VideoStep {
    /// Send it.
    Send(Vec<u8>),
    /// Send the sample that was sent last once more; the frame could not be encoded.
    Repeat { payload: Vec<u8>, encode_error: String },
    /// Send nothing, and report why.
    Report(String),
}

fn copy_bytes(bytes: &Vec<u8>) -> (out: Vec<u8>)
    ensures
        out@ == bytes@,
{
    let mut out: Vec<u8> = Vec::new();
    let mut i: usize = 0;
    assert(bytes@.take(0) =~= out@);
    while i < bytes.len()
        invariant
            i <= bytes.len(),
            out@ == bytes@.take(i as int),
        decreases bytes.len() - i,
    {
        out.push(bytes[i]);
        assert(bytes@.take(i + 1) =~= bytes@.take(i as int).push(bytes@[i as int]));
        i = i + 1;
    }
    assert(bytes@.take(bytes@.len() as int) =~= bytes@);
    out
}

impl VideoLoop {
    /// No sample was sent.
    pub fn new() -> (out: VideoLoop)
        ensures
            out == (VideoLoop { last_payload: None, samples_sent: 0 }),
    {
        VideoLoop { last_payload: None, samples_sent: 0 }
    }

    /// What to do with the latest frame: it is sent where it could be encoded to anything; where it
    /// could not be encoded the last sample is sent again, if there is one.
    pub fn on_encoded(&self, encoded: Result<Vec<u8>, EncodeError>) -> (step: VideoStep)
        ensures
            match encoded {
                Ok(payload) => if payload@.len() > 0 {
                    step == VideoStep::Send(payload)
                } else {
                    step matches VideoStep::Report(why) && why@
                        == "latest-frame encoded to an empty H.264 payload"@
                },
                Err(err) => match self.last_payload {
                    Some(last) => step matches VideoStep::Repeat { payload, encode_error }
                        && payload@ == last@ && encode_error@ == err.text(),
                    None => step matches VideoStep::Report(why) && why@
                        == "failed to encode latest frame: "@ + err.text(),
                },
            },
    {
        match encoded {
            Ok(payload) => if payload.len() > 0 {
                VideoStep::Send(payload)
            } else {
                VideoStep::Report("latest-frame encoded to an empty H.264 payload".to_owned())
            },
            Err(err) => match &self.last_payload {
                Some(last) => VideoStep::Repeat {
                    payload: copy_bytes(last),
                    encode_error: err.message(),
                },
                None => VideoStep::Report(
                    "failed to encode latest frame: ".to_owned().concat(err.message().as_str()),
                ),
            },
        }
    }

    /// Reports why nothing was sent.
    pub fn on_nothing_sent(&self, why: String, session: &mut HostSessionState)
        ensures
            old(session).reported(*final(session), why@),
    {
        session.report(why);
    }

    /// After a frame was sent, or could not be: whether the video goes on.
    pub fn on_sent(
        &mut self,
        payload: Vec<u8>,
        written: Result<(), String>,
        session: &mut HostSessionState,
    ) -> (goes_on: bool)
        requires
            old(self).samples_sent < usize::MAX,
        ensures
            goes_on == written is Ok,
            match written {
                Ok(()) => {
                    &&& *final(self) == (VideoLoop {
                        last_payload: Some(payload),
                        samples_sent: (old(self).samples_sent + 1) as usize,
                    })
                    &&& final(session).video_samples_sent == old(self).samples_sent + 1
                    &&& final(session).last_video_error is None
                    &&& final(session).note@
                        == "Host is streaming the latest captured frame over a real WebRTC H.264 video track."@
                    &&& *final(session) == (HostSessionState {
                        video_samples_sent: final(session).video_samples_sent,
                        last_video_error: final(session).last_video_error,
                        note: final(session).note,
                        ..*old(session)
                    })
                },
                Err(_) => *final(self) == *old(self) && *final(session) == *old(session),
            },
    {
        match written {
            Ok(()) => {
                self.last_payload = Some(payload);
                self.samples_sent = self.samples_sent + 1;
                session.video_samples_sent = self.samples_sent;
                session.last_video_error = None;
                session.note =
                "Host is streaming the latest captured frame over a real WebRTC H.264 video track.".to_owned();
                true
            },
            Err(_) => false,
        }
    }

    /// After the last sample was sent once more, or could not be: whether the video goes on.
    pub fn on_repeated(
        &mut self,
        encode_error: &str,
        written: Result<(), String>,
        session: &mut HostSessionState,
    ) -> (goes_on: bool)
        requires
            old(self).samples_sent < usize::MAX,
        ensures
            goes_on == written is Ok,
            match written {
                Ok(()) => {
                    &&& *final(self) == (VideoLoop {
                        samples_sent: (old(self).samples_sent + 1) as usize,
                        ..*old(self)
                    })
                    &&& final(session).video_samples_sent == old(self).samples_sent + 1
                    &&& text::opt_text(final(session).last_video_error) == Some(
                        "repeated previous sample after encode error: "@ + encode_error@,
                    )
                    &&& *final(session) == (HostSessionState {
                        video_samples_sent: final(session).video_samples_sent,
                        last_video_error: final(session).last_video_error,
                        ..*old(session)
                    })
                },
                Err(why) => {
                    &&& *final(self) == *old(self)
                    &&& old(session).reported(
                        *final(session),
                        "failed to repeat previous sample: "@ + why@,
                    )
                },
            },
    {
        match written {
            Ok(()) => {
                self.samples_sent = self.samples_sent + 1;
                session.video_samples_sent = self.samples_sent;
                session.last_video_error = Some(
                    "repeated previous sample after encode error: ".to_owned().concat(encode_error),
                );
                true
            },
            Err(why) => {
                session.report(
                    "failed to repeat previous sample: ".to_owned().concat(why.as_str()),
                );
                false
            },
        }
    }
}

/// A session's contents tell everything of its state.
pub proof fn contents_tell_everything(one: HostSessionState, other: HostSessionState)
    requires
        one@ == other@,
    ensures
        one.peer_id@ == other.peer_id@,
        text::opt_text(one.last_offer_from) == text::opt_text(other.last_offer_from),
        one.pending_offer == other.pending_offer,
        one.pending_ice_candidates == other.pending_ice_candidates,
        one.video_samples_sent == other.video_samples_sent,
        text::opt_text(one.last_video_error) == text::opt_text(other.last_video_error),
        text::opt_text(one.last_signal_kind) == text::opt_text(other.last_signal_kind),
        one.note@ == other.note@,
{
    let a = one@;
    let b = other@;
    assert(a.pending_ice_candidates == b.pending_ice_candidates);
    assert(a.video_samples_sent == b.video_samples_sent);
    assert(a.last_offer_from == b.last_offer_from);
    assert(a.last_video_error == b.last_video_error);
    assert(a.last_signal_kind == b.last_signal_kind);
}

/// A signal is noted by its kind and its sender; an offer becomes pending, a candidate is counted,
/// and what the signal does not concern stays as it was.
pub proof fn signals_are_noted(session: SessionView, from: Seq<char>, payload: SignalPayload)
    ensures
        ({
            let after = session.after_signal(from, payload);
            &&& after.last_offer_from == Some(from)
            &&& after.peer_id == session.peer_id
            &&& after.video_samples_sent == session.video_samples_sent
            &&& after.last_video_error == session.last_video_error
            &&& payload is Offer ==> after.pending_offer && after.last_signal_kind == Some("offer"@)
                && after.note
                == "Host received an SDP offer; media engine answer path is the next step."@
            &&& payload is Answer ==> after.last_signal_kind == Some("answer"@) && after.note
                == "Host received an SDP answer."@
            &&& payload is IceCandidate ==> after.pending_ice_candidates
                == session.pending_ice_candidates + 1 && after.last_signal_kind == Some(
                "ice_candidate"@,
            ) && after.note == "Host is collecting ICE candidates for the future WebRTC engine."@
            &&& payload is Renegotiate ==> after.last_signal_kind == Some("renegotiate"@)
                && after.note == "Host received a renegotiation request."@
            &&& payload !is Offer ==> after.pending_offer == session.pending_offer
            &&& payload !is IceCandidate ==> after.pending_ice_candidates
                == session.pending_ice_candidates
        }),
{
}

/// What a signal carries makes no difference to what is noted of it, but for its kind.
pub proof fn contents_of_signals_are_not_noted(
    session: SessionView,
    from: Seq<char>,
    one: SignalPayload,
    other: SignalPayload,
)
    requires
        one is Offer <==> other is Offer,
        one is Answer <==> other is Answer,
        one is IceCandidate <==> other is IceCandidate,
    ensures
        session.after_signal(from, one) == session.after_signal(from, other),
{
}

/// An answer ends what an offer began: no offer is pending after it, and the rest of the session
/// stays as it was.
pub proof fn answers_end_offers(session: SessionView)
    ensures
        ({
            let after = session.after_answer();
            &&& !after.pending_offer
            &&& after.last_signal_kind == Some("answer"@)
            &&& after.note == "Host generated an SDP answer and started ICE gathering."@
            &&& after.peer_id == session.peer_id
            &&& after.last_offer_from == session.last_offer_from
            &&& after.pending_ice_candidates == session.pending_ice_candidates
            &&& after.video_samples_sent == session.video_samples_sent
            &&& after.last_video_error == session.last_video_error
        }),
{
}

/// A note, or a report of a failure, changes nothing but itself.
pub proof fn notes_change_nothing_else(
    before: HostSessionState,
    after: HostSessionState,
    said: Seq<char>,
)
    ensures
        before.noted(after, said) ==> after.note@ == said && after.last_video_error
            == before.last_video_error,
        before.reported(after, said) ==> text::opt_text(after.last_video_error) == Some(said)
            && after.note == before.note,
        before.noted(after, said) || before.reported(after, said) ==> after.peer_id
            == before.peer_id && after.last_offer_from == before.last_offer_from
            && after.pending_offer == before.pending_offer && after.pending_ice_candidates
            == before.pending_ice_candidates && after.video_samples_sent
            == before.video_samples_sent && after.last_signal_kind == before.last_signal_kind,
{
}

/// An error in words ends with the reason that it carries.
pub proof fn errors_tell_their_reason(err: HostWebRtcError)
    ensures
        err matches HostWebRtcError::MediaEngine(why) && text::has_suffix(err.text(), why@),
{
    match err {
        HostWebRtcError::MediaEngine(why) => text::parts_are_found(
            "failed to initialize media engine: "@,
            why@,
        ),
    }
}

/// A frame that was encoded to anything is sent as it is; one that could not be encoded lets the
/// last sample be sent again, and is reported with the reason where there is none.
pub proof fn frames_are_sent_as_they_are(
    video: VideoLoop,
    payload: Vec<u8>,
    err: EncodeError,
    sent: VideoStep,
    failed: VideoStep,
)
    requires
        call_ensures(VideoLoop::on_encoded, (&video, Ok(payload)), sent),
        call_ensures(VideoLoop::on_encoded, (&video, Err(err)), failed),
    ensures
        payload@.len() > 0 ==> (sent matches VideoStep::Send(bytes) && bytes@ == payload@),
        payload@.len() == 0 ==> sent is Report,
        video.last_payload matches Some(last) ==> (failed matches VideoStep::Repeat {
            payload: again,
            encode_error,
        } && again@ == last@ && encode_error@ == err.text()),
        video.last_payload is None ==> (failed matches VideoStep::Report(why) && text::has_suffix(
            why@,
            err.text(),
        )),
{
    text::parts_are_found("failed to encode latest frame: "@, err.text());
}

/// A candidate of the host goes from the host to the peer as it is.
pub proof fn candidates_are_signalled_unchanged(
    host_peer_id: &str,
    remote_peer_id: &str,
    candidate: String,
    sdp_mid: Option<String>,
    sdp_mline_index: Option<u16>,
    out: SignalMessage,
)
    requires
        call_ensures(
            HostWebRtcEngine::candidate_signal,
            (host_peer_id, remote_peer_id, candidate, sdp_mid, sdp_mline_index),
            out,
        ),
    ensures
        out matches SignalMessage::Signal {
            from,
            to,
            payload: SignalPayload::IceCandidate {
                candidate: c,
                sdp_mid: m,
                sdp_mline_index: i,
            },
        } && from@ == host_peer_id@ && to@ == remote_peer_id@ && c == candidate && m == sdp_mid && i
            == sdp_mline_index,
{
}

} // verus!
