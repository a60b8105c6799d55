//! The session: the state machine that turns a handshake relayed by the
//! signaling server into a live peer channel.
//!
//! The machine decides; it performs nothing. Each step takes in what
//! happened (a message, a timeout, the outcome of a call into the peer
//! library) and says what is to be written to the relay, what is to be
//! recorded, and what is to be done next.
use vstd::prelude::*;
use vstd::string::*;
use crate::audit::AuditEvent;
use crate::config::Config;
use crate::error_codes::NETWORK_INVALID_MESSAGE;
use crate::error::{
    coded, description, fails_with, plain, ErrorKind, ErrorView, GhostHandError, Result,
};
use crate::network::{
    answer_signal, connect_request_signal, connection_accepted_signal,
    connection_rejected_signal, decoded, ice_candidate_signal, lemma_constructed_writable,
    offer_signal, registers, wire_text, written, ConnectStep, Incoming, LinkState, SignalMessage, SignalView,
    SignalingClient,
    CONNECTION_TIMEOUT_SECS,
};
use crate::peer::{
    after_answer, after_offer, answer_error, fresh_peer, offer_error,
    remote_description_error, texts, webrtc_error, AnswerOutcome, DescriptionOutcome, OfferOutcome,
    PeerConnectionState, PeerView, SdpType, WebRTCConnection,
};
use crate::text::{concat, str_equal};

verus! {

/// Where a handshake stands.
#[derive(Debug, Clone, Copy, PartialEq, Eq, Structural)]
pub enum SessionPhase {
    /// No handshake is under way and no peer channel stands.
    Idle,
    /// Outbound: the request is out, the peer has not answered it yet.
    AwaitingAcceptance,
    /// A peer connection is being made.
    CreatingPeer,
    /// Outbound: the offer is being made.
    CreatingOffer,
    /// Outbound: the offer is out; the answer, candidates and the report
    /// that the channel is connected are awaited.
    AwaitingAnswer,
    /// Outbound: the answer is being set as the remote description.
    ApplyingAnswer,
    /// A candidate of the peer is being added.
    AddingCandidate,
    /// Inbound: the acceptance is out, the offer is awaited.
    AwaitingOffer,
    /// Inbound: the answer is being made.
    CreatingAnswer,
    /// Inbound: the answer is out; candidates and the report that the
    /// channel is connected are awaited.
    AwaitingConnection,
    /// The handshake succeeded: the peer channel stands.
    Connected,
}

/// What happened.
#[derive(Debug)]
pub enum SessionEvent {
    /// A message came in from the relay.
    Message(SignalMessage),
    /// The timer that the last step armed has run out.
    Timeout,
    /// The making of the peer connection ended; `failure` is `None` where it
    /// was made.
    PeerCreated { failure: Option<String> },
    /// The making of the offer ended.
    OfferCreated(OfferOutcome),
    /// The answering of the offer ended.
    AnswerCreated(AnswerOutcome),
    /// The setting of the answer as the remote description ended.
    AnswerApplied(DescriptionOutcome),
    /// The adding of a candidate of the peer ended; `failure` is `None`
    /// where it was added.
    CandidateAdded { failure: Option<String> },
    /// The peer connection reports its state.
    PeerState(PeerConnectionState),
    /// The peer opened a data channel towards this side.
    DataChannel,
}

/// What is to be done next.
#[derive(Debug)]
pub enum NextAction {
    /// Wait for the next event; with `arm_timer`, first arm a fresh timer
    /// of that many seconds in place of any that runs.
    Wait { arm_timer: Option<u64> },
    /// Make a peer connection, and report `PeerCreated`.
    CreatePeer,
    /// Open the data channel and make an offer, and report `OfferCreated`.
    CreateOffer,
    /// Answer this offer, and report `AnswerCreated`.
    CreateAnswer { offer_sdp: String },
    /// Set this answer as the remote description, and report
    /// `AnswerApplied`.
    ApplyAnswer { sdp: String },
    /// Add this candidate of the peer, and report `CandidateAdded`.
    AddIceCandidate { candidate: String },
    /// The call is over and succeeded.
    Complete,
    /// The call is over and failed. Whatever peer connection was being made
    /// is to be dropped.
    Fail(GhostHandError),
}

/// The outcome of a step: the text to write to the relay, if any; the event
/// to record in the audit trail, if any; and what is to be done next.
#[derive(Debug)]
pub struct SessionStep {
    pub transmit: Option<String>,
    pub audit: Option<AuditEvent>,
    pub next: NextAction,
}

/// What is to be done next, as mathematics.
pub enum NextView {
    Wait { arm_timer: Option<u64> },
    CreatePeer,
    CreateOffer,
    CreateAnswer { offer_sdp: Seq<char> },
    ApplyAnswer { sdp: Seq<char> },
    AddIceCandidate { candidate: Seq<char> },
    Complete,
    Fail(ErrorView),
}

/// What is to be recorded in the audit trail, as mathematics.
pub enum AuditNote {
    Nothing,
    Accepted { peer_id: Seq<char> },
    Rejected { peer_id: Seq<char>, reason: Seq<char> },
    Established { peer_id: Seq<char>, direction: Seq<char>, password_used: Option<bool> },
}

/// The outcome of a step, as mathematics: the message to write to the
/// relay, what to record, what to do next.
pub struct StepView {
    pub transmit: Option<SignalView>,
    pub audit: AuditNote,
    pub next: NextView,
}

/// What a session holds, as mathematics.
pub struct SessionView {
    /// The local identity.
    pub device_id: Seq<char>,
    /// The STUN servers of the configuration.
    pub stun_servers: Seq<Seq<char>>,
    /// Where the link to the relay stands; `None` without signaling client.
    pub link: Option<LinkState>,
    /// The peer channel that stands.
    pub peer: Option<PeerView>,
    /// The peer channel that the handshake under way is making.
    pub partial: Option<PeerView>,
    pub phase: SessionPhase,
    /// Whether the handshake under way was started from this side.
    pub outbound: bool,
    /// The peer of the handshake under way.
    pub peer_id: Seq<char>,
    /// Whether the outbound request was made with a password.
    pub password_used: bool,
    /// Outbound: whether the answer is set as the remote description.
    pub answer_received: bool,
    /// Whether the channel being made has reported that it is connected.
    pub peer_connected: bool,
    /// Inbound: the offer to answer.
    pub offer_sdp: Seq<char>,
}

impl View for NextAction {
    type V = NextView;

    open spec fn view(&self) -> NextView {
        match self {
            NextAction::Wait { arm_timer } => NextView::Wait { arm_timer: *arm_timer },
            NextAction::CreatePeer => NextView::CreatePeer,
            NextAction::CreateOffer => NextView::CreateOffer,
            NextAction::CreateAnswer { offer_sdp } => NextView::CreateAnswer {
                offer_sdp: offer_sdp@,
            },
            NextAction::ApplyAnswer { sdp } => NextView::ApplyAnswer { sdp: sdp@ },
            NextAction::AddIceCandidate { candidate } => NextView::AddIceCandidate {
                candidate: candidate@,
            },
            NextAction::Complete => NextView::Complete,
            NextAction::Fail(error) => NextView::Fail(error@),
        }
    }
}

/// What the audit event `audit` records.
pub open spec fn audit_note(audit: Option<AuditEvent>) -> AuditNote {
    match audit {
        Some(AuditEvent::ConnectionRequestAccepted { peer_id }) => AuditNote::Accepted {
            peer_id: peer_id@,
        },
        Some(AuditEvent::ConnectionRequestRejected { peer_id, reason }) => AuditNote::Rejected {
            peer_id: peer_id@,
            reason: reason@,
        },
        Some(AuditEvent::ConnectionEstablished { peer_id, direction, password_used }) =>
            AuditNote::Established {
            peer_id: peer_id@,
            direction: direction@,
            password_used,
        },
        _ => AuditNote::Nothing,
    }
}

/// The step `step` is the step `want`: it writes to the relay the text of
/// the wanted message, which reads back as that message, records the wanted
/// event and does the wanted thing next.
pub open spec fn step_is(step: SessionStep, want: StepView) -> bool {
    &&& match want.transmit {
        Some(message) => step.transmit matches Some(text) && text@ == wire_text(message)
            && decoded(text@) == Some(message),
        None => step.transmit is None,
    }
    &&& audit_note(step.audit) == want.audit
    &&& step.next@ == want.next
}

/// The step that only does `next`.
pub open spec fn only(next: NextView) -> StepView {
    StepView { transmit: None, audit: AuditNote::Nothing, next }
}

/// The step that carries on waiting.
pub open spec fn carry_on() -> StepView {
    only(NextView::Wait { arm_timer: None })
}

/// The step that writes `message` to the relay and waits for what comes
/// back, for at most the connection timeout.
pub open spec fn send_and_wait(message: SignalView) -> StepView {
    StepView {
        transmit: Some(message),
        audit: AuditNote::Nothing,
        next: NextView::Wait { arm_timer: Some(CONNECTION_TIMEOUT_SECS) },
    }
}

/// The session after a handshake was given up: idle, and without the peer
/// channel that was being made. A peer channel that stood before still
/// stands.
pub open spec fn aborted(s: SessionView) -> SessionView {
    SessionView { phase: SessionPhase::Idle, partial: None, ..s }
}

/// The session after the handshake succeeded: the peer channel that was
/// made is the one that stands.
pub open spec fn established(s: SessionView) -> SessionView {
    SessionView { phase: SessionPhase::Connected, peer: s.partial, partial: None, ..s }
}

/// The step that ends a handshake in success and records it.
pub open spec fn complete_step(s: SessionView) -> StepView {
    StepView {
        transmit: None,
        audit: AuditNote::Established {
            peer_id: s.peer_id,
            direction: if s.outbound {
                "outgoing"@
            } else {
                "incoming"@
            },
            password_used: if s.outbound {
                Some(s.password_used)
            } else {
                None
            },
        },
        next: NextView::Complete,
    }
}

/// The error that nothing can be written to the relay; `None` where the
/// link stands.
pub open spec fn send_error(link: Option<LinkState>) -> Option<ErrorView> {
    match link {
        Some(LinkState::Connected) => None,
        Some(LinkState::Closed) => Some(
            plain(ErrorKind::Network, "Failed to send message: channel closed"@),
        ),
        _ => Some(plain(ErrorKind::Network, "Not connected to signaling server"@)),
    }
}

/// The error of a request that the peer refused: a rejection that carries
/// the reason the peer gave.
pub open spec fn rejection_error(message: SignalView) -> ErrorView {
    plain(
        ErrorKind::Rejected,
        match message.text("reason"@) {
            Some(reason) => reason,
            None => "aucune raison donnée"@,
        },
    )
}

/// The error that the relay reported.
pub open spec fn server_error(message: SignalView) -> ErrorView {
    coded(
        ErrorKind::Network,
        NETWORK_INVALID_MESSAGE@,
        match message.text("message"@) {
            Some(text) => "Erreur serveur: "@ + text,
            None => "Erreur inconnue du serveur"@,
        },
    )
}

/// The error of an acceptance that did not come in time.
pub open spec fn acceptance_timeout() -> ErrorView {
    plain(ErrorKind::Timeout, "30 secondes en attente de l'acceptation de connexion"@)
}

/// The error of an offer that did not come in time.
pub open spec fn offer_timeout() -> ErrorView {
    plain(ErrorKind::Timeout, "30 secondes en attente de l'Offer"@)
}

/// The error of a peer channel that was not connected in time.
pub open spec fn connection_timeout() -> ErrorView {
    plain(ErrorKind::Timeout, "30 secondes en attente de la connexion du canal"@)
}

/// The session ends a handshake with the error `error`.
pub open spec fn abort_with(s: SessionView, error: ErrorView) -> (SessionView, StepView) {
    (aborted(s), only(NextView::Fail(error)))
}

/// The session after the peer channel being made reported `state`: the
/// state is kept, and that the channel was connected once is remembered.
pub open spec fn with_peer_state(s: SessionView, state: PeerConnectionState) -> SessionView {
    match s.partial {
        Some(peer) => SessionView {
            partial: Some(PeerView { state, ..peer }),
            peer_connected: s.peer_connected || state == PeerConnectionState::Connected,
            ..s
        },
        None => s,
    }
}

/// The session after the peer opened a data channel towards this side.
pub open spec fn with_data_channel(s: SessionView) -> SessionView {
    match s.partial {
        Some(peer) => SessionView { partial: Some(PeerView { data_channel: true, ..peer }), ..s },
        None => s,
    }
}

/// The handshake has all it needs: the channel reported that it is
/// connected and, outbound, the answer is set.
pub open spec fn ready(s: SessionView) -> bool {
    s.peer_connected && (s.outbound ==> s.answer_received)
}

/// The phase in which the handshake waits for the relay and the channel.
pub open spec fn waiting_phase(s: SessionView) -> SessionPhase {
    if s.outbound {
        SessionPhase::AwaitingAnswer
    } else {
        SessionPhase::AwaitingConnection
    }
}

/// The session settles after something came in while it waited: where the
/// handshake has all it needs it ends in success, else it carries on.
pub open spec fn settle(s: SessionView) -> (SessionView, StepView) {
    if ready(s) {
        (established(s), complete_step(s))
    } else {
        (SessionView { phase: waiting_phase(s), ..s }, carry_on())
    }
}

/// The message is of the type `msg_type`, comes from the peer of the
/// handshake and holds a text under `field`.
pub open spec fn from_peer_with(
    s: SessionView,
    message: SignalView,
    msg_type: Seq<char>,
    field: Seq<char>,
) -> bool {
    message.msg_type == msg_type && message.text("from"@) == Some(s.peer_id) && message.text(
        field,
    ) is Some
}

/// What a session in the state `s` makes of the event `event`: the state it
/// goes to and the step it answers with.
pub open spec fn transition(s: SessionView, event: SessionEvent) -> (SessionView, StepView) {
    match s.phase {
        SessionPhase::Idle => (s, carry_on()),
        SessionPhase::Connected => (s, carry_on()),
        SessionPhase::AwaitingAcceptance => match event {
            SessionEvent::Message(message) => if message@.msg_type == "ConnectionAccepted"@ {
                (
                    SessionView { phase: SessionPhase::CreatingPeer, ..s },
                    only(NextView::CreatePeer),
                )
            } else if message@.msg_type == "ConnectionRejected"@ {
                abort_with(s, rejection_error(message@))
            } else if message@.msg_type == "Error"@ {
                abort_with(s, server_error(message@))
            } else {
                (s, carry_on())
            },
            SessionEvent::Timeout => abort_with(s, acceptance_timeout()),
            _ => (s, carry_on()),
        },
        SessionPhase::AwaitingOffer => match event {
            SessionEvent::Message(message) => if from_peer_with(s, message@, "Offer"@, "sdp"@) {
                (
                    SessionView {
                        phase: SessionPhase::CreatingPeer,
                        offer_sdp: message@.text("sdp"@).unwrap(),
                        ..s
                    },
                    only(NextView::CreatePeer),
                )
            } else if message@.msg_type == "Error"@ {
                abort_with(s, server_error(message@))
            } else {
                (s, carry_on())
            },
            SessionEvent::Timeout => abort_with(s, offer_timeout()),
            _ => (s, carry_on()),
        },
        SessionPhase::CreatingPeer => match event {
            SessionEvent::PeerCreated { failure: Some(reason) } => abort_with(
                s,
                webrtc_error("Erreur de création de peer connection: "@, reason@),
            ),
            SessionEvent::PeerCreated { failure: None } => if s.link is None {
                abort_with(s, plain(ErrorKind::Network, "Not connected to signaling server"@))
            } else if s.link != Some(LinkState::Connected) {
                abort_with(s, plain(ErrorKind::Network, "Signaling sender not available"@))
            } else if s.outbound {
                (
                    SessionView {
                        phase: SessionPhase::CreatingOffer,
                        partial: Some(fresh_peer(s.stun_servers)),
                        answer_received: false,
                        peer_connected: false,
                        ..s
                    },
                    only(NextView::CreateOffer),
                )
            } else {
                (
                    SessionView {
                        phase: SessionPhase::CreatingAnswer,
                        partial: Some(fresh_peer(s.stun_servers)),
                        answer_received: false,
                        peer_connected: false,
                        ..s
                    },
                    only(NextView::CreateAnswer { offer_sdp: s.offer_sdp }),
                )
            },
            _ => (s, carry_on()),
        },
        SessionPhase::CreatingOffer => match event {
            SessionEvent::OfferCreated(outcome) => match offer_error(outcome) {
                Some(error) => abort_with(s, error),
                None => match send_error(s.link) {
                    Some(error) => abort_with(s, error),
                    None => (
                        SessionView {
                            phase: SessionPhase::AwaitingAnswer,
                            partial: Some(after_offer(s.partial.unwrap(), outcome)),
                            ..s
                        },
                        send_and_wait(
                            offer_signal(s.device_id, s.peer_id, outcome->Created_0@),
                        ),
                    ),
                },
            },
            SessionEvent::PeerState(state) => (with_peer_state(s, state), carry_on()),
            SessionEvent::DataChannel => (with_data_channel(s), carry_on()),
            _ => (s, carry_on()),
        },
        SessionPhase::CreatingAnswer => match event {
            SessionEvent::AnswerCreated(outcome) => match answer_error(outcome) {
                Some(error) => abort_with(s, error),
                None => match send_error(s.link) {
                    Some(error) => abort_with(s, error),
                    None => (
                        SessionView {
                            phase: SessionPhase::AwaitingConnection,
                            partial: Some(after_answer(s.partial.unwrap(), outcome)),
                            ..s
                        },
                        send_and_wait(
                            answer_signal(s.device_id, s.peer_id, outcome->Created_0@),
                        ),
                    ),
                },
            },
            SessionEvent::PeerState(state) => (with_peer_state(s, state), carry_on()),
            SessionEvent::DataChannel => (with_data_channel(s), carry_on()),
            _ => (s, carry_on()),
        },
        SessionPhase::AwaitingAnswer => match event {
            SessionEvent::Message(message) => if from_peer_with(s, message@, "Answer"@, "sdp"@) {
                (
                    SessionView { phase: SessionPhase::ApplyingAnswer, ..s },
                    only(NextView::ApplyAnswer { sdp: message@.text("sdp"@).unwrap() }),
                )
            } else if from_peer_with(s, message@, "IceCandidate"@, "candidate"@) {
                (
                    SessionView { phase: SessionPhase::AddingCandidate, ..s },
                    only(
                        NextView::AddIceCandidate {
                            candidate: message@.text("candidate"@).unwrap(),
                        },
                    ),
                )
            } else {
                (s, carry_on())
            },
            SessionEvent::Timeout => abort_with(s, connection_timeout()),
            SessionEvent::PeerState(state) => settle(with_peer_state(s, state)),
            SessionEvent::DataChannel => (with_data_channel(s), carry_on()),
            _ => (s, carry_on()),
        },
        SessionPhase::AwaitingConnection => match event {
            SessionEvent::Message(message) => if from_peer_with(
                s,
                message@,
                "IceCandidate"@,
                "candidate"@,
            ) {
                (
                    SessionView { phase: SessionPhase::AddingCandidate, ..s },
                    only(
                        NextView::AddIceCandidate {
                            candidate: message@.text("candidate"@).unwrap(),
                        },
                    ),
                )
            } else {
                (s, carry_on())
            },
            SessionEvent::Timeout => abort_with(s, connection_timeout()),
            SessionEvent::PeerState(state) => settle(with_peer_state(s, state)),
            SessionEvent::DataChannel => (with_data_channel(s), carry_on()),
            _ => (s, carry_on()),
        },
        SessionPhase::ApplyingAnswer => match event {
            SessionEvent::AnswerApplied(outcome) => match remote_description_error(
                SdpType::Answer,
                outcome,
            ) {
                Some(error) => abort_with(s, error),
                None => settle(
                    SessionView {
                        partial: Some(
                            PeerView {
                                remote_description: Some(SdpType::Answer),
                                ..s.partial.unwrap()
                            },
                        ),
                        answer_received: true,
                        ..s
                    },
                ),
            },
            SessionEvent::PeerState(state) => (with_peer_state(s, state), carry_on()),
            SessionEvent::DataChannel => (with_data_channel(s), carry_on()),
            _ => (s, carry_on()),
        },
        SessionPhase::AddingCandidate => match event {
            SessionEvent::CandidateAdded { failure: Some(reason) } => abort_with(
                s,
                webrtc_error("Erreur d'ajout du candidat ICE: "@, reason@),
            ),
            SessionEvent::CandidateAdded { failure: None } => settle(s),
            SessionEvent::PeerState(state) => (with_peer_state(s, state), carry_on()),
            SessionEvent::DataChannel => (with_data_channel(s), carry_on()),
            _ => (s, carry_on()),
        },
    }
}

/// A handshake is under way.
pub open spec fn busy(phase: SessionPhase) -> bool {
    phase != SessionPhase::Idle && phase != SessionPhase::Connected
}

/// A peer channel is being made in the phase `phase`.
pub open spec fn negotiating_phase(phase: SessionPhase) -> bool {
    phase == SessionPhase::CreatingOffer || phase == SessionPhase::CreatingAnswer || phase
        == SessionPhase::AwaitingAnswer || phase == SessionPhase::AwaitingConnection || phase
        == SessionPhase::ApplyingAnswer || phase == SessionPhase::AddingCandidate
}

/// What holds of every session: a peer channel is being made exactly in the
/// phases that make one; the phases of the outbound handshake are entered
/// outbound only, those of the inbound one inbound only.
pub open spec fn consistent(s: SessionView) -> bool {
    &&& s.partial is Some <==> negotiating_phase(s.phase)
    &&& (s.phase == SessionPhase::AwaitingAcceptance || s.phase == SessionPhase::CreatingOffer
        || s.phase == SessionPhase::AwaitingAnswer || s.phase == SessionPhase::ApplyingAnswer)
        ==> s.outbound
    &&& (s.phase == SessionPhase::AwaitingOffer || s.phase == SessionPhase::CreatingAnswer
        || s.phase == SessionPhase::AwaitingConnection) ==> !s.outbound
}


/// The session `pre` took the event `event` in, went to `post` and answered
/// with `step`: as `transition` says.
pub open spec fn advanced(
    pre: SessionView,
    event: SessionEvent,
    post: SessionView,
    step: SessionStep,
) -> bool {
    post == transition(pre, event).0 && step_is(step, transition(pre, event).1)
}

/// The step gives the connection to the relay up for `reason`.
pub open spec fn fails_to_connect(step: ConnectStep, reason: Seq<char>) -> bool {
    step matches ConnectStep::Failed(e) && e@ == plain(
        ErrorKind::Network,
        crate::network::retries_exhausted_message(reason),
    )
}

/// The session of one device: its configuration and identity, the client of
/// the relay, the peer channel that stands, and where a handshake under way
/// has got to.
pub struct SessionManager {
    config: Config,
    device_id: String,
    signaling: Option<SignalingClient>,
    /// The peer channel that stands.
    pub webrtc: Option<WebRTCConnection>,
    pending_offers: Vec<(String, String)>,
    negotiating: Option<WebRTCConnection>,
    phase: SessionPhase,
    outbound: bool,
    peer_id: String,
    password_used: bool,
    answer_received: bool,
    peer_connected: bool,
    offer_sdp: String,
}

impl View for SessionManager {
    type V = SessionView;

    closed spec fn view(&self) -> SessionView {
        SessionView {
            device_id: self.device_id@,
            stun_servers: texts(self.config.stun_servers@),
            link: match self.signaling {
                Some(client) => Some(client.state()),
                None => None,
            },
            peer: match self.webrtc {
                Some(peer) => Some(peer@),
                None => None,
            },
            partial: match self.negotiating {
                Some(peer) => Some(peer@),
                None => None,
            },
            phase: self.phase,
            outbound: self.outbound,
            peer_id: self.peer_id@,
            password_used: self.password_used,
            answer_received: self.answer_received,
            peer_connected: self.peer_connected,
            offer_sdp: self.offer_sdp@,
        }
    }
}

fn wait_step() -> (step: SessionStep)
    ensures
        step_is(step, carry_on()),
{
    SessionStep { transmit: None, audit: None, next: NextAction::Wait { arm_timer: None } }
}

fn do_next(next: NextAction) -> (step: SessionStep)
    ensures
        step_is(step, only(next@)),
{
    SessionStep { transmit: None, audit: None, next }
}

impl SessionManager {
    /// The client of the relay, where there is one, keeps count of no more
    /// failed attempts than it may; and the session is consistent.
    pub closed spec fn wf(&self) -> bool {
        consistent(self@) && self.link_wf()
    }

    /// The client of the relay, where there is one, is well formed and
    /// speaks for the local identity.
    pub closed spec fn link_wf(&self) -> bool {
        self.signaling matches Some(client) ==> client.wf() && client.device_id()
            == self.device_id@
    }

    /// Attempts to connect to the relay that failed in a row; none without
    /// signaling client.
    pub closed spec fn link_failures(&self) -> nat {
        match self.signaling {
            Some(client) => client.failures(),
            None => 0,
        }
    }

    /// The offers that came in and wait for a decision, each with the
    /// identity of its sender.
    pub closed spec fn pending(&self) -> Seq<(Seq<char>, Seq<char>)> {
        Seq::new(
            self.pending_offers@.len(),
            |i: int| (self.pending_offers@[i].0@, self.pending_offers@[i].1@),
        )
    }

    /// A session without signaling client, peer channel or handshake.
    pub fn new(config: Config, device_id: String) -> (session: Self)
        ensures
            session.wf(),
            session@.device_id == device_id@,
            session@.stun_servers == texts(config.stun_servers@),
            session@.link is None,
            session@.peer is None,
            session@.partial is None,
            session@.phase == SessionPhase::Idle,
            session.pending().len() == 0,
            session.link_failures() == 0,
    {
        SessionManager {
            config,
            device_id,
            signaling: None,
            webrtc: None,
            pending_offers: Vec::new(),
            negotiating: None,
            phase: SessionPhase::Idle,
            outbound: false,
            peer_id: String::new(),
            password_used: false,
            answer_received: false,
            peer_connected: false,
            offer_sdp: String::new(),
        }
    }

    /// The local identity.
    pub fn device_id(&self) -> (id: &String)
        ensures
            id@ == self@.device_id,
    {
        &self.device_id
    }

    /// The configuration.
    pub fn config(&self) -> (config: &Config)
        ensures
            texts(config.stun_servers@) == self@.stun_servers,
    {
        &self.config
    }

    /// Where the handshake stands.
    pub fn phase(&self) -> (phase: SessionPhase)
        ensures
            phase == self@.phase,
    {
        self.phase
    }

    /// The pending offers.
    pub fn get_pending_offers(&self) -> (offers: Vec<(String, String)>)
        ensures
            offers@.len() == self.pending().len(),
            forall|i: int|
                0 <= i < offers@.len() ==> (#[trigger] offers@[i]).0@ == self.pending()[i].0
                    && offers@[i].1@ == self.pending()[i].1,
    {
        let mut offers: Vec<(String, String)> = Vec::new();
        let mut i: usize = 0;
        while i < self.pending_offers.len()
            invariant
                i <= self.pending_offers.len(),
                offers@.len() == i,
                forall|k: int|
                    0 <= k < i ==> (#[trigger] offers@[k]).0@ == self.pending_offers@[k].0@
                        && offers@[k].1@ == self.pending_offers@[k].1@,
            decreases self.pending_offers.len() - i,
        {
            let entry = &self.pending_offers[i];
            offers.push((entry.0.clone(), entry.1.clone()));
            i += 1;
        }
        offers
    }

    /// Forgets the pending offers.
    pub fn clear_pending_offers(&mut self)
        ensures
            final(self).pending().len() == 0,
            final(self)@ == old(self)@,
            old(self).wf() ==> final(self).wf(),
    {
        self.pending_offers.clear();
    }

    /// Takes in how an attempt to connect to the relay ended; `failure` is
    /// `None` where the link stands. The client is made at the first
    /// attempt, for the relay of the configuration and the local identity.
    ///
    /// On success the link is connected and the `Register` message of the
    /// local identity goes out. A failure is counted: up to three times in a
    /// row the session waits one, two, then four seconds and tries again;
    /// the fourth failure in a row is final, a network error, and the count
    /// starts over.
    pub fn initialize(&mut self, failure: Option<String>) -> (step: ConnectStep)
        requires
            old(self).wf(),
        ensures
            final(self).wf(),
            final(self).pending() == old(self).pending(),
            final(self)@ == (SessionView { link: final(self)@.link, ..old(self)@ }),
            match failure {
                None => final(self).link_failures() == 0 && final(self)@.link == Some(
                    LinkState::Connected,
                ) && registers(step, old(self)@.device_id),
                Some(reason) => final(self)@.link == Some(LinkState::Disconnected) && if old(
                    self,
                ).link_failures() < crate::network::MAX_RETRY_ATTEMPTS {
                    final(self).link_failures() == old(self).link_failures() + 1 && step
                        == (ConnectStep::RetryAfter {
                        seconds: crate::network::backoff_seconds(final(self).link_failures()) as u64,
                    })
                } else {
                    final(self).link_failures() == 0 && fails_to_connect(step, reason@)
                },
            },
    {
        let mut client = match self.signaling.take() {
            Some(client) => client,
            None => SignalingClient::new(self.config.server_url.clone(), self.device_id.clone()),
        };
        let step = client.connect(failure);
        self.signaling = Some(client);
        step
    }

    /// Takes in what came in on the link to the relay, as
    /// `SignalingClient::receive` does. Without signaling client nothing is
    /// received: a network error.
    pub fn receive_message(&mut self, frame: Incoming) -> (r: Result<Option<SignalMessage>>)
        requires
            old(self).wf(),
        ensures
            final(self).wf(),
            final(self).pending() == old(self).pending(),
            final(self).link_failures() == old(self).link_failures(),
            final(self)@ == (SessionView { link: final(self)@.link, ..old(self)@ }),
            match old(self)@.link {
                None => final(self)@.link is None && fails_with(
                    r,
                    plain(ErrorKind::Network, "Not connected to signaling server"@),
                ),
                Some(LinkState::Disconnected) => final(self)@.link == old(self)@.link
                    && fails_with(
                    r,
                    plain(ErrorKind::Network, "Not connected to signaling server"@),
                ),
                Some(LinkState::Closed) => final(self)@.link == old(self)@.link && fails_with(
                    r,
                    plain(ErrorKind::Network, "Signaling channel closed"@),
                ),
                Some(LinkState::Connected) => match frame {
                    Incoming::Text(text) => final(self)@.link == old(self)@.link && match decoded(
                        text@,
                    ) {
                        Some(message) => r matches Ok(Some(m)) && m@ == message,
                        None => r matches Ok(None),
                    },
                    Incoming::Other => final(self)@.link == old(self)@.link && (
                    r matches Ok(None)),
                    _ => final(self)@.link == Some(LinkState::Closed) && fails_with(
                        r,
                        plain(ErrorKind::Network, "Signaling channel closed"@),
                    ),
                },
            },
    {
        match self.signaling.take() {
            Some(mut client) => {
                let r = client.receive(frame);
                self.signaling = Some(client);
                r
            },
            None => Err(GhostHandError::Network("Not connected to signaling server".to_string())),
        }
    }

    /// Takes in what came in on the link within a bounded wait; `frame` is
    /// `None` where the wait ran out. A message is handed on; whatever else
    /// came in, and a failure to receive, come to nothing. Without signaling
    /// client nothing is received: a network error.
    pub fn try_receive_message(&mut self, frame: Option<Incoming>) -> (r: Result<
        Option<SignalMessage>,
    >)
        requires
            old(self).wf(),
        ensures
            final(self).wf(),
            final(self).pending() == old(self).pending(),
            final(self).link_failures() == old(self).link_failures(),
            final(self)@ == (SessionView { link: final(self)@.link, ..old(self)@ }),
            match old(self)@.link {
                None => fails_with(
                    r,
                    plain(ErrorKind::Network, "Not connected to signaling server"@),
                ),
                Some(link) => match r {
                    Ok(Some(m)) => link == LinkState::Connected && (
                    frame matches Some(Incoming::Text(text)) && decoded(text@) == Some(m@)),
                    Ok(None) => !(link == LinkState::Connected && (
                    frame matches Some(Incoming::Text(text)) && decoded(text@) is Some)),
                    Err(_) => false,
                },
            },
    {
        if self.signaling.is_none() {
            return Err(GhostHandError::Network("Not connected to signaling server".to_string()));
        }
        match frame {
            None => Ok(None),
            Some(frame) => match self.receive_message(frame) {
                Ok(delivery) => Ok(delivery),
                Err(_) => Ok(None),
            },
        }
    }
}


/// The message that hands a candidate gathered on this side on to the peer:
/// an `IceCandidate` from the local identity to the peer of the handshake,
/// with an empty `sdp_mid` and the index 0 where the candidate has none.
/// `None` where no peer connection is under way or the link to the relay
/// does not stand.
pub open spec fn forwarded_candidate(
    s: SessionView,
    candidate: Seq<char>,
    sdp_mid: Option<Seq<char>>,
    sdp_mline_index: Option<u16>,
) -> Option<SignalView> {
    if s.partial is Some && send_error(s.link) is None {
        Some(
            ice_candidate_signal(
                s.device_id,
                s.peer_id,
                candidate,
                match sdp_mid {
                    Some(mid) => mid,
                    None => Seq::<char>::empty(),
                },
                match sdp_mline_index {
                    Some(index) => index,
                    None => 0,
                },
            ),
        )
    } else {
        None
    }
}

/// What a call that begins a handshake comes to where it cannot begin: the
/// session is left as it was, nothing is written, and the call fails. A
/// handshake cannot begin while another is under way, nor without a link to
/// the relay that stands.
pub open spec fn refused_to_begin(pre: SessionView, post: SessionView, step: SessionStep) -> bool {
    &&& post == pre
    &&& step.transmit is None
    &&& step.audit is None
    &&& match step.next {
        NextAction::Fail(e) => if busy(pre.phase) {
            e@ == plain(ErrorKind::Internal, "Handshake already in progress"@)
        } else {
            send_error(pre.link) == Some(e@)
        },
        _ => false,
    }
}

/// The session after an outbound handshake with `target_id` began.
pub open spec fn requesting(pre: SessionView, target_id: Seq<char>, with_password: bool)
    -> SessionView {
    SessionView {
        phase: SessionPhase::AwaitingAcceptance,
        outbound: true,
        peer_id: target_id,
        password_used: with_password,
        answer_received: false,
        peer_connected: false,
        ..pre
    }
}

/// The session after the request of `from` was accepted.
pub open spec fn accepting(pre: SessionView, from: Seq<char>) -> SessionView {
    SessionView {
        phase: SessionPhase::AwaitingOffer,
        outbound: false,
        peer_id: from,
        password_used: false,
        answer_received: false,
        peer_connected: false,
        ..pre
    }
}

/// The session after the answering of the offer `offer_sdp` of `from`
/// began.
pub open spec fn answering(pre: SessionView, from: Seq<char>, offer_sdp: Seq<char>)
    -> SessionView {
    SessionView {
        phase: SessionPhase::CreatingPeer,
        outbound: false,
        peer_id: from,
        password_used: false,
        answer_received: false,
        peer_connected: false,
        offer_sdp,
        ..pre
    }
}

impl SessionManager {
    fn transmit(&self, message: &SignalMessage) -> (r: Result<String>)
        requires
            message@.writable(),
        ensures
            match send_error(self@.link) {
                Some(error) => fails_with(r, error),
                None => written(message@, r),
            },
    {
        match &self.signaling {
            Some(client) => client.send(message),
            None => Err(GhostHandError::Network("Not connected to signaling server".to_string())),
        }
    }

    fn abort(&mut self, error: GhostHandError) -> (step: SessionStep)
        requires
            old(self).link_wf(),
            consistent(aborted(old(self)@)),
        ensures
            final(self).wf(),
            final(self)@ == aborted(old(self)@),
            final(self).pending() == old(self).pending(),
            final(self).link_failures() == old(self).link_failures(),
            step_is(step, only(NextView::Fail(error@))),
            step.transmit is None,
            step.audit is None,
            step.next == NextAction::Fail(error),
    {
        self.negotiating = None;
        self.phase = SessionPhase::Idle;
        SessionStep { transmit: None, audit: None, next: NextAction::Fail(error) }
    }

    fn settle(&mut self) -> (step: SessionStep)
        requires
            old(self).wf(),
            old(self)@.partial is Some,
        ensures
            final(self).wf(),
            final(self).pending() == old(self).pending(),
            final(self).link_failures() == old(self).link_failures(),
            final(self)@ == settle(old(self)@).0,
            step_is(step, settle(old(self)@).1),
    {
        let is_ready = self.peer_connected && (!self.outbound || self.answer_received);
        if is_ready {
            self.webrtc = self.negotiating.take();
            self.phase = SessionPhase::Connected;
            let audit = if self.outbound {
                AuditEvent::ConnectionEstablished {
                    peer_id: self.peer_id.clone(),
                    direction: "outgoing".to_string(),
                    password_used: Some(self.password_used),
                }
            } else {
                AuditEvent::ConnectionEstablished {
                    peer_id: self.peer_id.clone(),
                    direction: "incoming".to_string(),
                    password_used: None,
                }
            };
            SessionStep { transmit: None, audit: Some(audit), next: NextAction::Complete }
        } else {
            self.phase = if self.outbound {
                SessionPhase::AwaitingAnswer
            } else {
                SessionPhase::AwaitingConnection
            };
            wait_step()
        }
    }

    fn note_peer_state(&mut self, state: PeerConnectionState)
        requires
            old(self).wf(),
        ensures
            final(self).wf(),
            final(self).pending() == old(self).pending(),
            final(self).link_failures() == old(self).link_failures(),
            final(self)@ == with_peer_state(old(self)@, state),
    {
        match self.negotiating.take() {
            Some(mut peer) => {
                peer.set_connection_state(state);
                self.negotiating = Some(peer);
                let connected = match state {
                    PeerConnectionState::Connected => true,
                    _ => false,
                };
                self.peer_connected = self.peer_connected || connected;
            },
            None => {},
        }
    }

    fn note_data_channel(&mut self)
        requires
            old(self).wf(),
        ensures
            final(self).wf(),
            final(self).pending() == old(self).pending(),
            final(self).link_failures() == old(self).link_failures(),
            final(self)@ == with_data_channel(old(self)@),
    {
        match self.negotiating.take() {
            Some(mut peer) => {
                peer.data_channel_received();
                self.negotiating = Some(peer);
            },
            None => {},
        }
    }

    fn is_busy(&self) -> (r: bool)
        ensures
            r == busy(self@.phase),
    {
        match self.phase {
            SessionPhase::Idle => false,
            SessionPhase::Connected => false,
            _ => true,
        }
    }

    fn from_peer_with(&self, message: &SignalMessage, msg_type: &str, field: &str) -> (r: Option<
        String,
    >)
        ensures
            match r {
                Some(text) => from_peer_with(self@, message@, msg_type@, field@) && message@.text(
                    field@,
                ) == Some(text@),
                None => !from_peer_with(self@, message@, msg_type@, field@),
            },
    {
        if !message.is_type(msg_type) {
            return None;
        }
        match message.get_str("from") {
            Some(from) => {
                if !str_equal(from.as_str(), self.peer_id.as_str()) {
                    return None;
                }
                message.get_str(field)
            },
            None => None,
        }
    }

    /// Begins the outbound handshake with `target_id`: the request goes out
    /// to the relay, and the acceptance of the peer is awaited for at most
    /// the connection timeout. The password is not sent; only that one is in
    /// use is remembered. Without link to the relay, or while another
    /// handshake is under way, the call fails and nothing changes.
    pub fn connect_to_device(&mut self, target_id: String, password: Option<String>) -> (step:
        SessionStep)
        requires
            old(self).wf(),
        ensures
            final(self).wf(),
            final(self).pending() == old(self).pending(),
            final(self).link_failures() == old(self).link_failures(),
            if !busy(old(self)@.phase) && send_error(old(self)@.link) is None {
                final(self)@ == requesting(old(self)@, target_id@, password is Some) && step_is(
                    step,
                    send_and_wait(connect_request_signal(target_id@, None)),
                )
            } else {
                refused_to_begin(old(self)@, final(self)@, step)
            },
    {
        if self.is_busy() {
            return SessionStep {
                transmit: None,
                audit: None,
                next: NextAction::Fail(
                    GhostHandError::Internal("Handshake already in progress".to_string()),
                ),
            };
        }
        let request = SignalMessage::connect_request(target_id.clone(), None);
        proof {
            lemma_constructed_writable();
        }
        match self.transmit(&request) {
            Ok(text) => {
                self.phase = SessionPhase::AwaitingAcceptance;
                self.outbound = true;
                self.peer_id = target_id;
                self.password_used = password.is_some();
                self.answer_received = false;
                self.peer_connected = false;
                SessionStep {
                    transmit: Some(text),
                    audit: None,
                    next: NextAction::Wait { arm_timer: Some(CONNECTION_TIMEOUT_SECS) },
                }
            },
            Err(error) => SessionStep {
                transmit: None,
                audit: None,
                next: NextAction::Fail(error),
            },
        }
    }

    /// Begins the inbound handshake with `from`: the acceptance goes out to
    /// the relay and is recorded, and the offer of the peer is awaited for
    /// at most the connection timeout. Without link to the relay, or while
    /// another handshake is under way, the call fails and nothing changes.
    pub fn accept_connection(&mut self, from: String) -> (step: SessionStep)
        requires
            old(self).wf(),
        ensures
            final(self).wf(),
            final(self).pending() == old(self).pending(),
            final(self).link_failures() == old(self).link_failures(),
            if !busy(old(self)@.phase) && send_error(old(self)@.link) is None {
                final(self)@ == accepting(old(self)@, from@) && step_is(
                    step,
                    StepView {
                        audit: AuditNote::Accepted { peer_id: from@ },
                        ..send_and_wait(connection_accepted_signal(from@))
                    },
                )
            } else {
                refused_to_begin(old(self)@, final(self)@, step)
            },
    {
        if self.is_busy() {
            return SessionStep {
                transmit: None,
                audit: None,
                next: NextAction::Fail(
                    GhostHandError::Internal("Handshake already in progress".to_string()),
                ),
            };
        }
        let acceptance = SignalMessage::connection_accepted(from.clone());
        proof {
            lemma_constructed_writable();
        }
        match self.transmit(&acceptance) {
            Ok(text) => {
                self.phase = SessionPhase::AwaitingOffer;
                self.outbound = false;
                self.peer_id = from.clone();
                self.password_used = false;
                self.answer_received = false;
                self.peer_connected = false;
                SessionStep {
                    transmit: Some(text),
                    audit: Some(AuditEvent::ConnectionRequestAccepted { peer_id: from }),
                    next: NextAction::Wait { arm_timer: Some(CONNECTION_TIMEOUT_SECS) },
                }
            },
            Err(error) => SessionStep {
                transmit: None,
                audit: None,
                next: NextAction::Fail(error),
            },
        }
    }

    /// Begins the answering of the offer `offer_sdp` of `from`: a peer
    /// connection is to be made. While another handshake is under way,
    /// unless it is the one that awaited this offer, the call fails and
    /// nothing changes.
    pub fn handle_connection_request(&mut self, from: String, offer_sdp: String) -> (step:
        SessionStep)
        requires
            old(self).wf(),
        ensures
            final(self).wf(),
            final(self).pending() == old(self).pending(),
            final(self).link_failures() == old(self).link_failures(),
            if !busy(old(self)@.phase) || old(self)@.phase == SessionPhase::AwaitingOffer {
                final(self)@ == answering(old(self)@, from@, offer_sdp@) && step_is(
                    step,
                    only(NextView::CreatePeer),
                )
            } else {
                refused_to_begin(old(self)@, final(self)@, step)
            },
    {
        let awaiting_offer = match self.phase {
            SessionPhase::AwaitingOffer => true,
            _ => false,
        };
        if self.is_busy() && !awaiting_offer {
            return SessionStep {
                transmit: None,
                audit: None,
                next: NextAction::Fail(
                    GhostHandError::Internal("Handshake already in progress".to_string()),
                ),
            };
        }
        self.phase = SessionPhase::CreatingPeer;
        self.outbound = false;
        self.peer_id = from;
        self.password_used = false;
        self.answer_received = false;
        self.peer_connected = false;
        self.offer_sdp = offer_sdp;
        do_next(NextAction::CreatePeer)
    }

    /// Refuses the request of `from` for `reason`: the refusal goes out to
    /// the relay and is recorded; nothing is awaited and the session stays
    /// as it is. Without link to the relay the call fails.
    pub fn reject_connection(&self, from: String, reason: String) -> (step: SessionStep)
        ensures
            match send_error(self@.link) {
                Some(error) => step_is(step, only(NextView::Fail(error))),
                None => step_is(
                    step,
                    StepView {
                        transmit: Some(connection_rejected_signal(from@, reason@)),
                        audit: AuditNote::Rejected { peer_id: from@, reason: reason@ },
                        next: NextView::Complete,
                    },
                ),
            },
    {
        let refusal = SignalMessage::connection_rejected(from.clone(), reason.clone());
        proof {
            lemma_constructed_writable();
        }
        match self.transmit(&refusal) {
            Ok(text) => SessionStep {
                transmit: Some(text),
                audit: Some(AuditEvent::ConnectionRequestRejected { peer_id: from, reason }),
                next: NextAction::Complete,
            },
            Err(error) => SessionStep {
                transmit: None,
                audit: None,
                next: NextAction::Fail(error),
            },
        }
    }

    /// The text to write to the relay for a candidate that the peer
    /// connection under way gathered on this side: the wire text of an
    /// `IceCandidate` message from the local identity to the peer of the
    /// handshake, with an empty `sdp_mid` and the index 0 where the candidate
    /// has none. Every candidate is handed on while a peer connection is
    /// under way and the link to the relay stands; `None` otherwise.
    pub fn local_candidate(
        &self,
        candidate: String,
        sdp_mid: Option<String>,
        sdp_mline_index: Option<u16>,
    ) -> (r: Option<String>)
        ensures
            match forwarded_candidate(
                self@,
                candidate@,
                match sdp_mid {
                    Some(mid) => Some(mid@),
                    None => None,
                },
                sdp_mline_index,
            ) {
                Some(message) => r matches Some(text) && text@ == wire_text(message) && decoded(
                    text@,
                ) == Some(message),
                None => r is None,
            },
    {
        if self.negotiating.is_none() {
            return None;
        }
        let mid = match sdp_mid {
            Some(mid) => mid,
            None => String::new(),
        };
        let index: u16 = match sdp_mline_index {
            Some(index) => index,
            None => 0,
        };
        let message = SignalMessage::ice_candidate(
            self.device_id.clone(),
            self.peer_id.clone(),
            candidate,
            mid,
            index,
        );
        proof {
            lemma_constructed_writable();
        }
        match self.transmit(&message) {
            Ok(text) => Some(text),
            Err(_) => None,
        }
    }

    /// Tears the session down: the link to the relay is closed and dropped,
    /// and so are the peer channel that stands and the one being made.
    pub fn disconnect(&mut self)
        ensures
            final(self).wf(),
            final(self)@ == (SessionView {
                link: None,
                peer: None,
                partial: None,
                phase: SessionPhase::Idle,
                ..old(self)@
            }),
    {
        self.signaling = None;
        self.webrtc = None;
        self.negotiating = None;
        self.phase = SessionPhase::Idle;
    }
}


impl SessionManager {
    fn coded_error(code: &str, message: String) -> (e: GhostHandError)
        ensures
            e@ == coded(ErrorKind::Network, code@, message@),
    {
        GhostHandError::network_with_code(code, message)
    }

    fn rejection(message: &SignalMessage) -> (e: GhostHandError)
        ensures
            e@ == rejection_error(message@),
    {
        match message.get_str("reason") {
            Some(reason) => GhostHandError::Rejected(reason),
            None => GhostHandError::Rejected("aucune raison donnée".to_string()),
        }
    }

    fn relay_error(message: &SignalMessage) -> (e: GhostHandError)
        ensures
            e@ == server_error(message@),
    {
        match message.get_str("message") {
            Some(text) => Self::coded_error(
                NETWORK_INVALID_MESSAGE,
                concat("Erreur serveur: ", text.as_str()),
            ),
            None => Self::coded_error(
                NETWORK_INVALID_MESSAGE,
                "Erreur inconnue du serveur".to_string(),
            ),
        }
    }

    fn while_awaiting_acceptance(&mut self, event: SessionEvent) -> (step: SessionStep)
        requires
            old(self).wf(),
            old(self)@.phase == SessionPhase::AwaitingAcceptance,
        ensures
            final(self).wf(),
            final(self).pending() == old(self).pending(),
            final(self).link_failures() == old(self).link_failures(),
            advanced(old(self)@, event, final(self)@, step),
    {
        match event {
            SessionEvent::Message(message) => {
                if message.is_type("ConnectionAccepted") {
                    self.phase = SessionPhase::CreatingPeer;
                    do_next(NextAction::CreatePeer)
                } else if message.is_type("ConnectionRejected") {
                    let error = Self::rejection(&message);
                    self.abort(error)
                } else if message.is_type("Error") {
                    let error = Self::relay_error(&message);
                    self.abort(error)
                } else {
                    wait_step()
                }
            },
            SessionEvent::Timeout => {
                let error = GhostHandError::Timeout(
                    "30 secondes en attente de l'acceptation de connexion".to_string(),
                );
                self.abort(error)
            },
            _ => wait_step(),
        }
    }

    fn while_awaiting_offer(&mut self, event: SessionEvent) -> (step: SessionStep)
        requires
            old(self).wf(),
            old(self)@.phase == SessionPhase::AwaitingOffer,
        ensures
            final(self).wf(),
            final(self).pending() == old(self).pending(),
            final(self).link_failures() == old(self).link_failures(),
            advanced(old(self)@, event, final(self)@, step),
    {
        match event {
            SessionEvent::Message(message) => {
                match self.from_peer_with(&message, "Offer", "sdp") {
                    Some(sdp) => {
                        self.phase = SessionPhase::CreatingPeer;
                        self.offer_sdp = sdp;
                        do_next(NextAction::CreatePeer)
                    },
                    None => {
                        if message.is_type("Error") {
                            let error = Self::relay_error(&message);
                            self.abort(error)
                        } else {
                            wait_step()
                        }
                    },
                }
            },
            SessionEvent::Timeout => {
                let error = GhostHandError::Timeout(
                    "30 secondes en attente de l'Offer".to_string(),
                );
                self.abort(error)
            },
            _ => wait_step(),
        }
    }

    fn while_creating_peer(&mut self, event: SessionEvent) -> (step: SessionStep)
        requires
            old(self).wf(),
            old(self)@.phase == SessionPhase::CreatingPeer,
        ensures
            final(self).wf(),
            final(self).pending() == old(self).pending(),
            final(self).link_failures() == old(self).link_failures(),
            advanced(old(self)@, event, final(self)@, step),
    {
        match event {
            SessionEvent::PeerCreated { failure } => {
                match WebRTCConnection::new(&self.config, failure) {
                    Err(error) => self.abort(error),
                    Ok(peer) => {
                        let link = match &self.signaling {
                            Some(client) => Some(client.link_state()),
                            None => None,
                        };
                        match link {
                            None => self.abort(
                                GhostHandError::Network(
                                    "Not connected to signaling server".to_string(),
                                ),
                            ),
                            Some(LinkState::Connected) => {
                                self.negotiating = Some(peer);
                                self.answer_received = false;
                                self.peer_connected = false;
                                if self.outbound {
                                    self.phase = SessionPhase::CreatingOffer;
                                    do_next(NextAction::CreateOffer)
                                } else {
                                    self.phase = SessionPhase::CreatingAnswer;
                                    do_next(
                                        NextAction::CreateAnswer {
                                            offer_sdp: self.offer_sdp.clone(),
                                        },
                                    )
                                }
                            },
                            Some(_) => self.abort(
                                GhostHandError::Network(
                                    "Signaling sender not available".to_string(),
                                ),
                            ),
                        }
                    },
                }
            },
            _ => wait_step(),
        }
    }

    fn while_creating_offer(&mut self, event: SessionEvent) -> (step: SessionStep)
        requires
            old(self).wf(),
            old(self)@.phase == SessionPhase::CreatingOffer,
        ensures
            final(self).wf(),
            final(self).pending() == old(self).pending(),
            final(self).link_failures() == old(self).link_failures(),
            advanced(old(self)@, event, final(self)@, step),
    {
        match event {
            SessionEvent::OfferCreated(outcome) => {
                let mut peer = match self.negotiating.take() {
                    Some(peer) => peer,
                    None => {
                        return wait_step();
                    },
                };
                match peer.create_offer(outcome) {
                    Err(error) => self.abort(error),
                    Ok(sdp) => {
                        let offer = SignalMessage::offer(
                            self.device_id.clone(),
                            self.peer_id.clone(),
                            sdp,
                        );
                        proof {
                            lemma_constructed_writable();
                        }
                        match self.transmit(&offer) {
                            Err(error) => self.abort(error),
                            Ok(text) => {
                                self.negotiating = Some(peer);
                                self.phase = SessionPhase::AwaitingAnswer;
                                SessionStep {
                                    transmit: Some(text),
                                    audit: None,
                                    next: NextAction::Wait {
                                        arm_timer: Some(CONNECTION_TIMEOUT_SECS),
                                    },
                                }
                            },
                        }
                    },
                }
            },
            SessionEvent::PeerState(state) => {
                self.note_peer_state(state);
                wait_step()
            },
            SessionEvent::DataChannel => {
                self.note_data_channel();
                wait_step()
            },
            _ => wait_step(),
        }
    }

    fn while_creating_answer(&mut self, event: SessionEvent) -> (step: SessionStep)
        requires
            old(self).wf(),
            old(self)@.phase == SessionPhase::CreatingAnswer,
        ensures
            final(self).wf(),
            final(self).pending() == old(self).pending(),
            final(self).link_failures() == old(self).link_failures(),
            advanced(old(self)@, event, final(self)@, step),
    {
        match event {
            SessionEvent::AnswerCreated(outcome) => {
                let mut peer = match self.negotiating.take() {
                    Some(peer) => peer,
                    None => {
                        return wait_step();
                    },
                };
                match peer.create_answer(outcome) {
                    Err(error) => self.abort(error),
                    Ok(sdp) => {
                        let answer = SignalMessage::answer(
                            self.device_id.clone(),
                            self.peer_id.clone(),
                            sdp,
                        );
                        proof {
                            lemma_constructed_writable();
                        }
                        match self.transmit(&answer) {
                            Err(error) => self.abort(error),
                            Ok(text) => {
                                self.negotiating = Some(peer);
                                self.phase = SessionPhase::AwaitingConnection;
                                SessionStep {
                                    transmit: Some(text),
                                    audit: None,
                                    next: NextAction::Wait {
                                        arm_timer: Some(CONNECTION_TIMEOUT_SECS),
                                    },
                                }
                            },
                        }
                    },
                }
            },
            SessionEvent::PeerState(state) => {
                self.note_peer_state(state);
                wait_step()
            },
            SessionEvent::DataChannel => {
                self.note_data_channel();
                wait_step()
            },
            _ => wait_step(),
        }
    }

    fn while_waiting(&mut self, event: SessionEvent) -> (step: SessionStep)
        requires
            old(self).wf(),
            old(self)@.phase == SessionPhase::AwaitingAnswer || old(self)@.phase
                == SessionPhase::AwaitingConnection,
        ensures
            final(self).wf(),
            final(self).pending() == old(self).pending(),
            final(self).link_failures() == old(self).link_failures(),
            advanced(old(self)@, event, final(self)@, step),
    {
        match event {
            SessionEvent::Message(message) => {
                if self.outbound {
                    match self.from_peer_with(&message, "Answer", "sdp") {
                        Some(sdp) => {
                            self.phase = SessionPhase::ApplyingAnswer;
                            return do_next(NextAction::ApplyAnswer { sdp });
                        },
                        None => {},
                    }
                }
                match self.from_peer_with(&message, "IceCandidate", "candidate") {
                    Some(candidate) => {
                        self.phase = SessionPhase::AddingCandidate;
                        do_next(NextAction::AddIceCandidate { candidate })
                    },
                    None => wait_step(),
                }
            },
            SessionEvent::Timeout => self.abort(
                GhostHandError::Timeout(
                    "30 secondes en attente de la connexion du canal".to_string(),
                ),
            ),
            SessionEvent::PeerState(state) => {
                self.note_peer_state(state);
                self.settle()
            },
            SessionEvent::DataChannel => {
                self.note_data_channel();
                wait_step()
            },
            _ => wait_step(),
        }
    }

    fn while_applying_answer(&mut self, event: SessionEvent) -> (step: SessionStep)
        requires
            old(self).wf(),
            old(self)@.phase == SessionPhase::ApplyingAnswer,
        ensures
            final(self).wf(),
            final(self).pending() == old(self).pending(),
            final(self).link_failures() == old(self).link_failures(),
            advanced(old(self)@, event, final(self)@, step),
    {
        match event {
            SessionEvent::AnswerApplied(outcome) => {
                let mut peer = match self.negotiating.take() {
                    Some(peer) => peer,
                    None => {
                        return wait_step();
                    },
                };
                match peer.set_remote_description(SdpType::Answer, outcome) {
                    Err(error) => self.abort(error),
                    Ok(()) => {
                        self.negotiating = Some(peer);
                        self.answer_received = true;
                        self.settle()
                    },
                }
            },
            SessionEvent::PeerState(state) => {
                self.note_peer_state(state);
                wait_step()
            },
            SessionEvent::DataChannel => {
                self.note_data_channel();
                wait_step()
            },
            _ => wait_step(),
        }
    }

    fn while_adding_candidate(&mut self, event: SessionEvent) -> (step: SessionStep)
        requires
            old(self).wf(),
            old(self)@.phase == SessionPhase::AddingCandidate,
        ensures
            final(self).wf(),
            final(self).pending() == old(self).pending(),
            final(self).link_failures() == old(self).link_failures(),
            advanced(old(self)@, event, final(self)@, step),
    {
        match event {
            SessionEvent::CandidateAdded { failure } => {
                let outcome = match &self.negotiating {
                    Some(peer) => peer.add_ice_candidate(failure),
                    None => {
                        return wait_step();
                    },
                };
                match outcome {
                    Err(error) => self.abort(error),
                    Ok(()) => self.settle(),
                }
            },
            SessionEvent::PeerState(state) => {
                self.note_peer_state(state);
                wait_step()
            },
            SessionEvent::DataChannel => {
                self.note_data_channel();
                wait_step()
            },
            _ => wait_step(),
        }
    }

    /// Takes the event `event` in: the session goes to the state and answers
    /// with the step that `transition` gives for it.
    pub fn advance(&mut self, event: SessionEvent) -> (step: SessionStep)
        requires
            old(self).wf(),
        ensures
            final(self).wf(),
            final(self).pending() == old(self).pending(),
            final(self).link_failures() == old(self).link_failures(),
            advanced(old(self)@, event, final(self)@, step),
    {
        match self.phase {
            SessionPhase::Idle => wait_step(),
            SessionPhase::Connected => wait_step(),
            SessionPhase::AwaitingAcceptance => self.while_awaiting_acceptance(event),
            SessionPhase::AwaitingOffer => self.while_awaiting_offer(event),
            SessionPhase::CreatingPeer => self.while_creating_peer(event),
            SessionPhase::CreatingOffer => self.while_creating_offer(event),
            SessionPhase::CreatingAnswer => self.while_creating_answer(event),
            SessionPhase::AwaitingAnswer => self.while_waiting(event),
            SessionPhase::AwaitingConnection => self.while_waiting(event),
            SessionPhase::ApplyingAnswer => self.while_applying_answer(event),
            SessionPhase::AddingCandidate => self.while_adding_candidate(event),
        }
    }
}


/// A consistent session stays consistent, whatever comes in.
pub proof fn lemma_transition_consistent(s: SessionView, event: SessionEvent)
    requires
        consistent(s),
    ensures
        consistent(transition(s, event).0),
        consistent(aborted(s)),
{
}

/// A step that fails leaves the session idle and without the peer channel
/// that was being made; the peer channel that stood before is untouched. No
/// step but one that fails or succeeds ends a handshake.
pub proof fn lemma_failure_discards(s: SessionView, event: SessionEvent)
    requires
        consistent(s),
    ensures
        transition(s, event).1.next is Fail ==> transition(s, event).0 == aborted(s),
        aborted(s).phase == SessionPhase::Idle && aborted(s).partial is None && aborted(s).peer
            == s.peer,
        busy(s.phase) && !busy(transition(s, event).0.phase) ==> transition(s, event).1.next is Fail
            || transition(s, event).1.next is Complete,
{
}

/// The peer channel that stands changes only when a handshake succeeds. It
/// then is the channel that the handshake made, which has reported that it
/// is connected; in an outbound handshake the answer of the peer was set as
/// its remote description before. No other step ends in success.
pub proof fn lemma_success_populates(s: SessionView, event: SessionEvent)
    requires
        consistent(s),
    ensures
        transition(s, event).1.next is Complete <==> transition(s, event).0.peer != s.peer
            || (transition(s, event).0.phase == SessionPhase::Connected && busy(s.phase)),
        transition(s, event).1.next is Complete ==> {
            let post = transition(s, event).0;
            &&& post.phase == SessionPhase::Connected
            &&& post.peer is Some
            &&& post.partial is None
            &&& post.peer_connected
            &&& post.outbound ==> post.answer_received
        },
        transition(s, event).1.next !is Complete ==> transition(s, event).0.peer == s.peer,
{
}

/// While the session waits, a message that does not come from the peer of
/// the handshake changes nothing, unless it is the error of the relay while
/// the offer is awaited: answers and candidates of others are passed over.
pub proof fn lemma_foreign_message_ignored(s: SessionView, message: SignalMessage)
    requires
        consistent(s),
        s.phase == SessionPhase::AwaitingAnswer || s.phase == SessionPhase::AwaitingConnection
            || s.phase == SessionPhase::AwaitingOffer,
        message@.text("from"@) != Some(s.peer_id),
        s.phase == SessionPhase::AwaitingOffer ==> message@.msg_type != "Error"@,
    ensures
        transition(s, SessionEvent::Message(message)) == (s, carry_on()),
{
}

/// Every candidate of the peer that comes in while the session waits is to
/// be added, not the first one only.
pub proof fn lemma_every_candidate_applied(s: SessionView, message: SignalMessage)
    requires
        consistent(s),
        s.phase == SessionPhase::AwaitingAnswer || s.phase == SessionPhase::AwaitingConnection,
        from_peer_with(s, message@, "IceCandidate"@, "candidate"@),
    ensures
        transition(s, SessionEvent::Message(message)).1.next == (NextView::AddIceCandidate {
            candidate: message@.text("candidate"@).unwrap(),
        }),
{
    reveal_strlit("IceCandidate");
    reveal_strlit("Answer");
    assert("IceCandidate"@ != "Answer"@) by {
        assert("IceCandidate"@.len() == 12);
        assert("Answer"@.len() == 6);
    }
}

/// A wait that runs out ends the handshake with a timeout error, and the
/// session is idle again, ready for another attempt.
pub proof fn lemma_timeout_ends_handshake(s: SessionView)
    requires
        consistent(s),
        s.phase == SessionPhase::AwaitingAcceptance || s.phase == SessionPhase::AwaitingOffer
            || s.phase == SessionPhase::AwaitingAnswer || s.phase
            == SessionPhase::AwaitingConnection,
    ensures
        transition(s, SessionEvent::Timeout).0 == aborted(s),
        transition(s, SessionEvent::Timeout).1.next matches NextView::Fail(e) && e.kind
            == ErrorKind::Timeout,
        !busy(transition(s, SessionEvent::Timeout).0.phase),
{
}

/// A refusal of the peer ends the outbound handshake with a rejection
/// error whose message is the reason given, and whose description holds it;
/// no peer channel is made.
pub proof fn lemma_rejection_ends_handshake(s: SessionView, message: SignalMessage)
    requires
        consistent(s),
        s.phase == SessionPhase::AwaitingAcceptance,
        message@.msg_type == "ConnectionRejected"@,
    ensures
        transition(s, SessionEvent::Message(message)).0 == aborted(s),
        transition(s, SessionEvent::Message(message)).1.next == NextView::Fail(
            rejection_error(message@),
        ),
        aborted(s).partial is None,
        rejection_error(message@).kind == ErrorKind::Rejected,
        message@.text("reason"@) matches Some(reason) ==> rejection_error(message@).message
            == reason && description(rejection_error(message@)) == "Connexion rejetée: "@
            + reason,
{
    reveal_strlit("ConnectionRejected");
    reveal_strlit("ConnectionAccepted");
    assert("ConnectionRejected"@ != "ConnectionAccepted"@) by {
        assert("ConnectionRejected"@[10] == 'R');
        assert("ConnectionAccepted"@[10] == 'A');
    }
}

} // verus!
