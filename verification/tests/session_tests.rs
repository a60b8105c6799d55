use ghost_hand_client::audit::AuditEvent;
use ghost_hand_client::config::Config;
use ghost_hand_client::error::{ErrorKind, GhostHandError};
use ghost_hand_client::network::{ConnectStep, Incoming, SignalMessage};
use ghost_hand_client::peer::{
    AnswerOutcome, DescriptionOutcome, OfferOutcome, PeerConnectionState,
};
use ghost_hand_client::session::{
    NextAction, SessionEvent, SessionManager, SessionPhase, SessionStep,
};

fn connected_session(device_id: &str) -> SessionManager {
    let mut session = SessionManager::new(Config::default(), device_id.to_string());
    match session.initialize(None) {
        ConnectStep::Connected { register } => {
            let message = SignalMessage::from_json(&register).unwrap();
            assert!(message.is_type("Register"));
            assert_eq!(message.get_str("device_id").unwrap(), device_id);
        }
        other => panic!("expected a connection, got {:?}", other),
    }
    session
}

fn sent(step: &SessionStep) -> SignalMessage {
    SignalMessage::from_json(step.transmit.as_ref().expect("a text for the relay")).unwrap()
}

fn expect_wait(step: &SessionStep, armed: Option<u64>) {
    match step.next {
        NextAction::Wait { arm_timer } => assert_eq!(arm_timer, armed),
        ref other => panic!("expected a wait, got {:?}", other),
    }
}

fn expect_quiet(step: &SessionStep) {
    assert!(step.transmit.is_none());
    assert!(step.audit.is_none());
    expect_wait(step, None);
}

fn failure(step: SessionStep) -> GhostHandError {
    assert!(step.transmit.is_none());
    assert!(step.audit.is_none());
    match step.next {
        NextAction::Fail(error) => error,
        other => panic!("expected a failure, got {:?}", other),
    }
}

/// Device A asks for B, B accepts and answers, candidates come in, and the
/// channel reports that it is connected.
#[test]
fn outbound_handshake_succeeds_and_populates_the_peer_channel() {
    let mut a = connected_session("A");
    assert!(a.webrtc.is_none());

    let step = a.connect_to_device("B".to_string(), None);
    let request = sent(&step);
    assert!(request.is_type("ConnectRequest"));
    assert_eq!(request.get_str("target_id").unwrap(), "B");
    assert_eq!(request.get_str("password"), None);
    expect_wait(&step, Some(30));
    assert_eq!(a.phase(), SessionPhase::AwaitingAcceptance);

    // What does not belong to the handshake is passed over.
    expect_quiet(&a.advance(SessionEvent::Message(SignalMessage::ping())));

    let step = a.advance(SessionEvent::Message(SignalMessage::connection_accepted("B".into())));
    assert!(matches!(step.next, NextAction::CreatePeer));
    let step = a.advance(SessionEvent::PeerCreated { failure: None });
    assert!(matches!(step.next, NextAction::CreateOffer));

    let candidate = a.local_candidate("candidate:local".into(), None, None).unwrap();
    let candidate = SignalMessage::from_json(&candidate).unwrap();
    assert!(candidate.is_type("IceCandidate"));
    assert_eq!(candidate.get_str("from").unwrap(), "A");
    assert_eq!(candidate.get_str("to").unwrap(), "B");
    assert_eq!(candidate.get_str("candidate").unwrap(), "candidate:local");
    assert_eq!(candidate.get_str("sdp_mid").unwrap(), "");
    assert_eq!(candidate.get_u16("sdp_mline_index"), Some(0));

    let step = a.advance(SessionEvent::OfferCreated(OfferOutcome::Created("offer-sdp".into())));
    let offer = sent(&step);
    assert!(offer.is_type("Offer"));
    assert_eq!(offer.get_str("from").unwrap(), "A");
    assert_eq!(offer.get_str("to").unwrap(), "B");
    assert_eq!(offer.get_str("sdp").unwrap(), "offer-sdp");
    expect_wait(&step, Some(30));
    assert_eq!(a.phase(), SessionPhase::AwaitingAnswer);

    // A candidate and an answer of somebody else are passed over.
    let foreign =
        SignalMessage::ice_candidate("C".into(), "A".into(), "candidate:c".into(), "0".into(), 0);
    expect_quiet(&a.advance(SessionEvent::Message(foreign)));
    let foreign = SignalMessage::answer("C".into(), "A".into(), "sdp".into());
    expect_quiet(&a.advance(SessionEvent::Message(foreign)));

    let answer = SignalMessage::answer("B".into(), "A".into(), "answer-sdp".into());
    let step = a.advance(SessionEvent::Message(answer));
    match step.next {
        NextAction::ApplyAnswer { sdp } => assert_eq!(sdp, "answer-sdp"),
        other => panic!("expected the answer to be applied, got {:?}", other),
    }
    expect_quiet(&a.advance(SessionEvent::AnswerApplied(DescriptionOutcome::Applied)));

    for name in ["candidate:1", "candidate:2"] {
        let candidate =
            SignalMessage::ice_candidate("B".into(), "A".into(), name.into(), "0".into(), 0);
        let step = a.advance(SessionEvent::Message(candidate));
        match step.next {
            NextAction::AddIceCandidate { candidate } => assert_eq!(candidate, name),
            other => panic!("expected a candidate to be added, got {:?}", other),
        }
        expect_quiet(&a.advance(SessionEvent::CandidateAdded { failure: None }));
    }

    expect_quiet(&a.advance(SessionEvent::PeerState(PeerConnectionState::Connecting)));
    assert!(a.webrtc.is_none());
    let step = a.advance(SessionEvent::PeerState(PeerConnectionState::Connected));
    assert!(matches!(step.next, NextAction::Complete));
    match step.audit {
        Some(AuditEvent::ConnectionEstablished { peer_id, direction, password_used }) => {
            assert_eq!(peer_id, "B");
            assert_eq!(direction, "outgoing");
            assert_eq!(password_used, Some(false));
        }
        other => panic!("expected the connection to be recorded, got {:?}", other),
    }
    assert_eq!(a.phase(), SessionPhase::Connected);
    let peer = a.webrtc.as_ref().expect("the peer channel");
    assert!(peer.is_connected());
    assert!(peer.has_data_channel());
    assert!(a.local_candidate("late".into(), None, None).is_none());
}

/// The report that the channel is connected may come before the answer is
/// applied: the handshake then ends as soon as the answer is.
#[test]
fn outbound_handshake_waits_for_the_answer_even_when_connected() {
    let mut a = connected_session("A");
    let _ = a.connect_to_device("B".to_string(), Some("secret".to_string()));
    let _ = a.advance(SessionEvent::Message(SignalMessage::connection_accepted("B".into())));
    let _ = a.advance(SessionEvent::PeerCreated { failure: None });
    let _ = a.advance(SessionEvent::OfferCreated(OfferOutcome::Created("o".into())));
    expect_quiet(&a.advance(SessionEvent::PeerState(PeerConnectionState::Connected)));
    assert!(a.webrtc.is_none());
    let answer = SignalMessage::answer("B".into(), "A".into(), "s".into());
    let _ = a.advance(SessionEvent::Message(answer));
    let step = a.advance(SessionEvent::AnswerApplied(DescriptionOutcome::Applied));
    assert!(matches!(step.next, NextAction::Complete));
    match step.audit {
        Some(AuditEvent::ConnectionEstablished { password_used, .. }) => {
            assert_eq!(password_used, Some(true))
        }
        other => panic!("expected the connection to be recorded, got {:?}", other),
    }
    assert!(a.webrtc.is_some());
}

/// B refuses with the reason "busy".
#[test]
fn rejection_fails_with_the_reason_and_creates_no_peer_channel() {
    let mut a = connected_session("A");
    let _ = a.connect_to_device("B".to_string(), None);
    let refusal = SignalMessage::connection_rejected("B".into(), "busy".into());
    let error = failure(a.advance(SessionEvent::Message(refusal)));
    assert!(error.describe().contains("busy"));
    assert_eq!(error.describe(), "Connexion rejetée: busy");
    assert_eq!(error.kind(), ErrorKind::Rejected);
    match error {
        GhostHandError::Rejected(reason) => assert_eq!(reason, "busy"),
        other => panic!("expected a rejection, got {:?}", other),
    }
    assert!(a.webrtc.is_none());
    assert_eq!(a.phase(), SessionPhase::Idle);
    assert!(a.local_candidate("c".into(), None, None).is_none());

    let _ = a.connect_to_device("B".to_string(), None);
    let bare = SignalMessage::from_json("{\"type\":\"ConnectionRejected\"}").unwrap();
    match failure(a.advance(SessionEvent::Message(bare))) {
        GhostHandError::Rejected(reason) => assert_eq!(reason, "aucune raison donnée"),
        other => panic!("expected a rejection, got {:?}", other),
    }
}

/// Nothing arrives within the timeout.
#[test]
fn timeout_fails_and_leaves_the_session_ready_for_a_retry() {
    let mut a = connected_session("A");
    let _ = a.connect_to_device("B".to_string(), None);
    let error = failure(a.advance(SessionEvent::Timeout));
    assert_eq!(error.kind(), ErrorKind::Timeout);
    assert_eq!(
        error.describe(),
        "Délai dépassé: 30 secondes en attente de l'acceptation de connexion"
    );
    assert_eq!(a.phase(), SessionPhase::Idle);
    assert!(a.webrtc.is_none());

    // The session can try again, and time out later in the handshake.
    let step = a.connect_to_device("B".to_string(), None);
    assert!(step.transmit.is_some());
    let _ = a.advance(SessionEvent::Message(SignalMessage::connection_accepted("B".into())));
    let _ = a.advance(SessionEvent::PeerCreated { failure: None });
    let _ = a.advance(SessionEvent::OfferCreated(OfferOutcome::Created("o".into())));
    let error = failure(a.advance(SessionEvent::Timeout));
    assert_eq!(error.kind(), ErrorKind::Timeout);
    assert_eq!(
        error.describe(),
        "Délai dépassé: 30 secondes en attente de la connexion du canal"
    );
    assert_eq!(a.phase(), SessionPhase::Idle);
    assert!(a.webrtc.is_none());
    assert!(a.local_candidate("c".into(), None, None).is_none());
    assert!(a.connect_to_device("B".to_string(), None).transmit.is_some());
}

#[test]
fn server_errors_and_library_failures_end_the_handshake() {
    let mut a = connected_session("A");
    let _ = a.connect_to_device("B".to_string(), None);
    let error_message =
        SignalMessage::from_json("{\"type\":\"Error\",\"data\":{\"message\":\"unknown device\"}}")
            .unwrap();
    assert_eq!(
        failure(a.advance(SessionEvent::Message(error_message))).describe(),
        "[E1004] Réseau: Erreur serveur: unknown device"
    );
    let _ = a.connect_to_device("B".to_string(), None);
    let bare = SignalMessage::from_json("{\"type\":\"Error\"}").unwrap();
    assert_eq!(
        failure(a.advance(SessionEvent::Message(bare))).describe(),
        "[E1004] Réseau: Erreur inconnue du serveur"
    );

    let _ = a.connect_to_device("B".to_string(), None);
    let _ = a.advance(SessionEvent::Message(SignalMessage::connection_accepted("B".into())));
    assert_eq!(
        failure(a.advance(SessionEvent::PeerCreated { failure: Some("boom".into()) })).describe(),
        "Erreur WebRTC: Erreur de création de peer connection: boom"
    );
    assert_eq!(a.phase(), SessionPhase::Idle);

    let _ = a.connect_to_device("B".to_string(), None);
    let _ = a.advance(SessionEvent::Message(SignalMessage::connection_accepted("B".into())));
    let _ = a.advance(SessionEvent::PeerCreated { failure: None });
    assert_eq!(
        failure(a.advance(SessionEvent::OfferCreated(OfferOutcome::OfferFailed("no".into()))))
            .describe(),
        "Erreur WebRTC: Erreur de création de l'offre: no"
    );
    assert!(a.local_candidate("c".into(), None, None).is_none());

    let _ = a.connect_to_device("B".to_string(), None);
    let _ = a.advance(SessionEvent::Message(SignalMessage::connection_accepted("B".into())));
    let _ = a.advance(SessionEvent::PeerCreated { failure: None });
    let _ = a.advance(SessionEvent::OfferCreated(OfferOutcome::Created("o".into())));
    let _ = a.advance(SessionEvent::Message(SignalMessage::answer("B".into(), "A".into(), "s".into())));
    assert_eq!(
        failure(a.advance(SessionEvent::AnswerApplied(DescriptionOutcome::Failed("bad".into()))))
            .describe(),
        "Erreur WebRTC: Erreur de définition de la description distante: bad"
    );

    let _ = a.connect_to_device("B".to_string(), None);
    let _ = a.advance(SessionEvent::Message(SignalMessage::connection_accepted("B".into())));
    let _ = a.advance(SessionEvent::PeerCreated { failure: None });
    let _ = a.advance(SessionEvent::OfferCreated(OfferOutcome::Created("o".into())));
    let candidate =
        SignalMessage::ice_candidate("B".into(), "A".into(), "candidate:1".into(), "0".into(), 0);
    let _ = a.advance(SessionEvent::Message(candidate));
    assert_eq!(
        failure(a.advance(SessionEvent::CandidateAdded { failure: Some("malformed".into()) }))
            .describe(),
        "Erreur WebRTC: Erreur d'ajout du candidat ICE: malformed"
    );
    assert!(a.webrtc.is_none());
}

#[test]
fn handshakes_need_the_relay_and_do_not_overlap() {
    let mut alone = SessionManager::new(Config::default(), "A".to_string());
    let error = failure(alone.connect_to_device("B".to_string(), None));
    assert_eq!(error.describe(), "Erreur réseau: Not connected to signaling server");
    let error = failure(alone.accept_connection("B".to_string()));
    assert_eq!(error.describe(), "Erreur réseau: Not connected to signaling server");
    let error = failure(alone.reject_connection("B".to_string(), "no".to_string()));
    assert_eq!(error.describe(), "Erreur réseau: Not connected to signaling server");
    assert!(alone.receive_message(Incoming::Other).is_err());
    assert!(alone.try_receive_message(None).is_err());
    assert_eq!(alone.phase(), SessionPhase::Idle);

    let mut a = connected_session("A");
    let _ = a.connect_to_device("B".to_string(), None);
    let error = failure(a.connect_to_device("C".to_string(), None));
    assert_eq!(error.describe(), "Erreur interne: Handshake already in progress");
    let error = failure(a.accept_connection("C".to_string()));
    assert_eq!(error.describe(), "Erreur interne: Handshake already in progress");
    // The handshake with B goes on undisturbed.
    assert_eq!(a.phase(), SessionPhase::AwaitingAcceptance);
    let step = a.advance(SessionEvent::Message(SignalMessage::connection_accepted("B".into())));
    assert!(matches!(step.next, NextAction::CreatePeer));
}

#[test]
fn inbound_handshake_answers_the_offer() {
    let mut b = connected_session("B");
    let step = b.accept_connection("A".to_string());
    let acceptance = sent(&step);
    assert!(acceptance.is_type("ConnectionAccepted"));
    assert_eq!(acceptance.get_str("peer_id").unwrap(), "A");
    match step.audit {
        Some(AuditEvent::ConnectionRequestAccepted { ref peer_id }) => assert_eq!(peer_id, "A"),
        ref other => panic!("expected the acceptance to be recorded, got {:?}", other),
    }
    expect_wait(&step, Some(30));
    assert_eq!(b.phase(), SessionPhase::AwaitingOffer);

    // The offer of somebody else does not count.
    let foreign = SignalMessage::offer("C".into(), "B".into(), "x".into());
    expect_quiet(&b.advance(SessionEvent::Message(foreign)));

    let offer = SignalMessage::offer("A".into(), "B".into(), "offer-sdp".into());
    let step = b.advance(SessionEvent::Message(offer));
    assert!(matches!(step.next, NextAction::CreatePeer));
    let step = b.advance(SessionEvent::PeerCreated { failure: None });
    match step.next {
        NextAction::CreateAnswer { offer_sdp } => assert_eq!(offer_sdp, "offer-sdp"),
        other => panic!("expected the offer to be answered, got {:?}", other),
    }
    let candidate =
        b.local_candidate("candidate:b".into(), Some("data".into()), Some(3)).unwrap();
    let candidate = SignalMessage::from_json(&candidate).unwrap();
    assert_eq!(candidate.get_str("to").unwrap(), "A");
    assert_eq!(candidate.get_str("sdp_mid").unwrap(), "data");
    assert_eq!(candidate.get_u16("sdp_mline_index"), Some(3));

    let step = b.advance(SessionEvent::AnswerCreated(AnswerOutcome::Created("answer-sdp".into())));
    let answer = sent(&step);
    assert!(answer.is_type("Answer"));
    assert_eq!(answer.get_str("from").unwrap(), "B");
    assert_eq!(answer.get_str("to").unwrap(), "A");
    assert_eq!(answer.get_str("sdp").unwrap(), "answer-sdp");
    expect_wait(&step, Some(30));

    expect_quiet(&b.advance(SessionEvent::DataChannel));
    let candidate =
        SignalMessage::ice_candidate("A".into(), "B".into(), "candidate:a".into(), "0".into(), 0);
    let step = b.advance(SessionEvent::Message(candidate));
    assert!(matches!(step.next, NextAction::AddIceCandidate { .. }));
    // The channel connects while the candidate is being added.
    expect_quiet(&b.advance(SessionEvent::PeerState(PeerConnectionState::Connected)));
    let step = b.advance(SessionEvent::CandidateAdded { failure: None });
    assert!(matches!(step.next, NextAction::Complete));
    match step.audit {
        Some(AuditEvent::ConnectionEstablished { peer_id, direction, password_used }) => {
            assert_eq!(peer_id, "A");
            assert_eq!(direction, "incoming");
            assert_eq!(password_used, None);
        }
        other => panic!("expected the connection to be recorded, got {:?}", other),
    }
    let peer = b.webrtc.as_ref().expect("the peer channel");
    assert!(peer.has_data_channel());
    assert!(peer.is_connected());
}

#[test]
fn inbound_handshake_times_out_and_reports_failures() {
    let mut b = connected_session("B");
    let _ = b.accept_connection("A".to_string());
    assert_eq!(
        failure(b.advance(SessionEvent::Timeout)).describe(),
        "Délai dépassé: 30 secondes en attente de l'Offer"
    );
    assert_eq!(b.phase(), SessionPhase::Idle);

    let step = b.handle_connection_request("A".to_string(), "offer".to_string());
    assert!(matches!(step.next, NextAction::CreatePeer));
    let _ = b.advance(SessionEvent::PeerCreated { failure: None });
    assert_eq!(
        failure(b.advance(SessionEvent::AnswerCreated(AnswerOutcome::OfferRejected("bad".into()))))
            .describe(),
        "Erreur WebRTC: Erreur de parsing de l'offre: bad"
    );
    assert!(b.webrtc.is_none());

    let _ = b.handle_connection_request("A".to_string(), "offer".to_string());
    let _ = b.advance(SessionEvent::PeerCreated { failure: None });
    let _ = b.advance(SessionEvent::AnswerCreated(AnswerOutcome::Created("a".into())));
    assert_eq!(
        failure(b.advance(SessionEvent::Timeout)).describe(),
        "Délai dépassé: 30 secondes en attente de la connexion du canal"
    );
    assert!(b.webrtc.is_none());
}

#[test]
fn rejecting_sends_the_refusal_and_changes_nothing() {
    let b = connected_session("B");
    let step = b.reject_connection("A".to_string(), "not now".to_string());
    let refusal = sent(&step);
    assert!(refusal.is_type("ConnectionRejected"));
    assert_eq!(refusal.get_str("peer_id").unwrap(), "A");
    assert_eq!(refusal.get_str("reason").unwrap(), "not now");
    match step.audit {
        Some(AuditEvent::ConnectionRequestRejected { ref peer_id, ref reason }) => {
            assert_eq!(peer_id, "A");
            assert_eq!(reason, "not now");
        }
        ref other => panic!("expected the refusal to be recorded, got {:?}", other),
    }
    assert!(matches!(step.next, NextAction::Complete));
    assert_eq!(b.phase(), SessionPhase::Idle);
}

#[test]
fn receiving_and_teardown() {
    let mut a = connected_session("A");
    let message = a.receive_message(Incoming::Text("{\"type\":\"Ping\"}".into())).unwrap();
    assert!(message.unwrap().is_type("Ping"));
    assert!(a.receive_message(Incoming::Text("junk".into())).unwrap().is_none());
    assert!(a.try_receive_message(None).unwrap().is_none());
    let message = a.try_receive_message(Some(Incoming::Text("{\"type\":\"Pong\"}".into())));
    assert!(message.unwrap().unwrap().is_type("Pong"));
    assert!(a.try_receive_message(Some(Incoming::Close)).unwrap().is_none());
    // The link went down with the closing frame.
    assert!(a.receive_message(Incoming::Other).is_err());
    let error = failure(a.connect_to_device("B".to_string(), None));
    assert_eq!(error.describe(), "Erreur réseau: Failed to send message: channel closed");

    let mut b = connected_session("B");
    let _ = b.handle_connection_request("A".to_string(), "offer".to_string());
    let _ = b.advance(SessionEvent::PeerCreated { failure: None });
    let _ = b.advance(SessionEvent::AnswerCreated(AnswerOutcome::Created("a".into())));
    let _ = b.advance(SessionEvent::PeerState(PeerConnectionState::Connected));
    assert!(b.webrtc.is_some());
    b.disconnect();
    assert!(b.webrtc.is_none());
    assert_eq!(b.phase(), SessionPhase::Idle);
    assert!(b.receive_message(Incoming::Other).is_err());
    assert!(b.get_pending_offers().is_empty());
    b.clear_pending_offers();
    // Events that come in after the teardown come to nothing.
    expect_quiet(&b.advance(SessionEvent::PeerState(PeerConnectionState::Connected)));
    assert!(b.webrtc.is_none());
}

#[test]
fn relay_retries_are_counted_by_the_session() {
    let mut session = SessionManager::new(Config::default(), "A".to_string());
    for seconds in [1u64, 2, 4] {
        match session.initialize(Some("down".into())) {
            ConnectStep::RetryAfter { seconds: wait } => assert_eq!(wait, seconds),
            other => panic!("expected a retry, got {:?}", other),
        }
    }
    assert!(matches!(session.initialize(Some("down".into())), ConnectStep::Failed(_)));
    assert!(matches!(session.initialize(None), ConnectStep::Connected { .. }));
}
