use ghost_hand_client::config::Config;
use ghost_hand_client::error::{ErrorKind, GhostHandError};
use ghost_hand_client::network::{
    device_id_at, generate_device_id, ConnectStep, Incoming, LinkState, SessionManager,
    SignalMessage, SignalingClient,
};
use ghost_hand_client::peer::{
    AnswerOutcome, DescriptionOutcome, OfferOutcome, PeerConnectionState, SdpType, WebRTCConnection,
};
use ghost_hand_client::validation::validate_device_id;
use std::time::{Duration, Instant};

fn wait_millis(millis: u64) {
    let start = Instant::now();
    while start.elapsed() < Duration::from_millis(millis) {
        std::hint::spin_loop();
    }
}

#[test]
fn test_generate_device_id() {
    let id1 = generate_device_id();

    wait_millis(2);

    let id2 = generate_device_id();

    assert!(id1.starts_with("GHD-"));
    assert!(id2.starts_with("GHD-"));

    assert!(id1.len() > 8);

    assert_ne!(id1, id2);
}

#[test]
fn test_device_id_uniqueness() {
    let mut ids = std::collections::HashSet::new();

    for _ in 0..10 {
        let id = generate_device_id();
        assert!(id.starts_with("GHD-"));
        ids.insert(id);

        wait_millis(2);
    }

    assert_eq!(ids.len(), 10);
}

#[test]
fn test_signal_message_serialization() {
    let msg = SignalMessage::register("GHD-test123".to_string());

    let json = msg.to_json().unwrap();
    assert!(json.contains("Register"));
    assert!(json.contains("GHD-test123"));

    let deserialized = SignalMessage::from_json(&json).unwrap();
    if deserialized.is_type("Register") {
        assert_eq!(deserialized.get_str("device_id").unwrap(), "GHD-test123");
    } else {
        panic!("Mauvais type de message");
    }
}

#[test]
fn test_session_manager_creation() {
    let config = Config::default();
    let device_id = "GHD-test".to_string();

    let session = SessionManager::new(config.clone(), device_id.clone());

    assert_eq!(*session.device_id(), device_id);
    assert_eq!(session.config().server_url, config.server_url);
}

#[test]
fn test_webrtc_connection_creation() {
    let config = Config::default();

    let result = WebRTCConnection::new(&config, None);

    assert!(result.is_ok());
}

#[test]
fn test_webrtc_offer_creation() {
    let config = Config::default();
    let mut conn = WebRTCConnection::new(&config, None).unwrap();

    let offer_result = conn.create_offer(OfferOutcome::Created("v=0\r\n".to_string()));

    assert!(offer_result.is_ok());

    let offer = offer_result.unwrap();
    assert!(!offer.is_empty());
    assert!(offer.contains("v=0") || !offer.is_empty());
}

#[test]
fn device_ids_are_the_time_in_hexadecimal() {
    assert_eq!(device_id_at(0), "GHD-0");
    assert_eq!(device_id_at(255), "GHD-ff");
    assert_eq!(device_id_at(0x18f_2a3b_4c5d), "GHD-18f2a3b4c5d");
    assert_eq!(device_id_at(u64::MAX), "GHD-ffffffffffffffff");
    for millis in [0u64, 9, 16, 1_700_000_000_000, u64::MAX] {
        assert!(validate_device_id(&device_id_at(millis)).is_ok());
    }
    assert!(validate_device_id(&generate_device_id()).is_ok());
}

fn round_trip(message: &SignalMessage) -> SignalMessage {
    SignalMessage::from_json(&message.to_json().unwrap()).unwrap()
}

#[test]
fn every_constructed_message_round_trips() {
    let register = round_trip(&SignalMessage::register("A".to_string()));
    assert!(register.is_type("Register"));
    assert_eq!(register.get_str("device_id").unwrap(), "A");

    let offer = round_trip(&SignalMessage::offer("A".into(), "B".into(), "v=0\r\n".into()));
    assert!(offer.is_type("Offer"));
    assert_eq!(offer.get_str("from").unwrap(), "A");
    assert_eq!(offer.get_str("to").unwrap(), "B");
    assert_eq!(offer.get_str("sdp").unwrap(), "v=0\r\n");

    let answer = round_trip(&SignalMessage::answer("B".into(), "A".into(), "sdp \"q\"".into()));
    assert!(answer.is_type("Answer"));
    assert_eq!(answer.get_str("sdp").unwrap(), "sdp \"q\"");

    let candidate = round_trip(&SignalMessage::ice_candidate(
        "A".into(),
        "B".into(),
        "candidate:1".into(),
        "0".into(),
        65535,
    ));
    assert!(candidate.is_type("IceCandidate"));
    assert_eq!(candidate.get_str("candidate").unwrap(), "candidate:1");
    assert_eq!(candidate.get_str("sdp_mid").unwrap(), "0");
    assert_eq!(candidate.get_u16("sdp_mline_index"), Some(65535));
    assert_eq!(candidate.get_str("sdp_mline_index"), None);
    assert_eq!(candidate.get_u16("candidate"), None);

    let request = round_trip(&SignalMessage::connect_request("B".into(), Some("pw".into())));
    assert!(request.is_type("ConnectRequest"));
    assert_eq!(request.get_str("target_id").unwrap(), "B");
    assert_eq!(request.get_str("password").unwrap(), "pw");
    let request = round_trip(&SignalMessage::connect_request("B".into(), None));
    assert_eq!(request.get_str("password"), None);

    let accepted = round_trip(&SignalMessage::connection_accepted("B".into()));
    assert!(accepted.is_type("ConnectionAccepted"));
    assert_eq!(accepted.get_str("peer_id").unwrap(), "B");

    let rejected = round_trip(&SignalMessage::connection_rejected("B".into(), "busy".into()));
    assert!(rejected.is_type("ConnectionRejected"));
    assert_eq!(rejected.get_str("reason").unwrap(), "busy");

    let ping = round_trip(&SignalMessage::ping());
    assert!(ping.is_type("Ping"));
    assert!(ping.data.is_none());
    assert_eq!(SignalMessage::ping().to_json().unwrap(), "{\"type\":\"Ping\"}");
    let pong = round_trip(&SignalMessage::pong());
    assert!(pong.is_type("Pong"));
    assert!(!pong.is_type("Ping"));
    assert_eq!(pong.get_str("anything"), None);
}

#[test]
fn wire_texts_are_read_leniently_and_refused_when_unusable() {
    let message = SignalMessage::from_json(
        " { \"extra\": [1, 2], \"data\": {\"from\": \"B\", \"n\": 70000, \"x\": 1.5}, \"type\": \"Offer\" } ",
    )
    .unwrap();
    assert!(message.is_type("Offer"));
    assert_eq!(message.get_str("from").unwrap(), "B");
    // Only the lowest sixteen bits of a number are kept.
    assert_eq!(message.get_u16("n"), Some((70000u32 % 65536) as u16));
    assert_eq!(message.get_u16("x"), None);
    assert_eq!(message.get_str("sdp"), None);

    let without_data = SignalMessage::from_json("{\"type\":\"Pong\",\"data\":null}").unwrap();
    assert!(without_data.data.is_none());
    let unknown = SignalMessage::from_json("{\"type\":\"Mystery\",\"data\":7}").unwrap();
    assert!(unknown.is_type("Mystery"));
    assert_eq!(unknown.get_str("from"), None);

    for text in ["", "not json", "{\"data\":{}}", "{\"type\":5}", "[\"Ping\"]", "\"Ping\""] {
        match SignalMessage::from_json(text) {
            Err(error) => assert_eq!(error.kind(), ErrorKind::Serialization),
            Ok(message) => panic!("{:?} must not be read from {:?}", message, text),
        }
    }
}

fn network_message(error: GhostHandError) -> String {
    match error {
        GhostHandError::Network(message) => message,
        other => panic!("expected a network error, got {:?}", other),
    }
}

#[test]
fn connecting_backs_off_one_two_four_seconds_and_then_gives_up() {
    let mut client = SignalingClient::new("ws://relay/ws".to_string(), "A".to_string());
    assert_eq!(client.url(), "ws://relay/ws");
    assert_eq!(client.link_state(), LinkState::Disconnected);
    for seconds in [1u64, 2, 4] {
        match client.connect(Some("refused".to_string())) {
            ConnectStep::RetryAfter { seconds: wait } => assert_eq!(wait, seconds),
            other => panic!("expected a retry, got {:?}", other),
        }
    }
    match client.connect(Some("refused".to_string())) {
        ConnectStep::Failed(error) => assert_eq!(
            network_message(error),
            "Failed to connect to signaling server after 4 retries: refused"
        ),
        other => panic!("expected the end of retries, got {:?}", other),
    }
    // The count starts over with the next call.
    match client.connect(Some("refused".to_string())) {
        ConnectStep::RetryAfter { seconds } => assert_eq!(seconds, 1),
        other => panic!("expected a retry, got {:?}", other),
    }
    match client.connect(None) {
        ConnectStep::Connected { register } => {
            let message = SignalMessage::from_json(&register).unwrap();
            assert!(message.is_type("Register"));
            assert_eq!(message.get_str("device_id").unwrap(), "A");
        }
        other => panic!("expected a connection, got {:?}", other),
    }
    assert_eq!(client.link_state(), LinkState::Connected);
    // After a success the count starts over as well.
    match client.connect(Some("lost".to_string())) {
        ConnectStep::RetryAfter { seconds } => assert_eq!(seconds, 1),
        other => panic!("expected a retry, got {:?}", other),
    }
}

#[test]
fn the_link_sends_and_delivers_only_while_it_stands() {
    let mut client = SignalingClient::new("ws://relay/ws".to_string(), "A".to_string());
    let ping = SignalMessage::ping();
    assert_eq!(
        network_message(client.send(&ping).unwrap_err()),
        "Not connected to signaling server"
    );
    assert_eq!(
        network_message(client.receive(Incoming::Text("{\"type\":\"Ping\"}".into())).unwrap_err()),
        "Not connected to signaling server"
    );
    let _ = client.connect(None);
    assert_eq!(client.send(&ping).unwrap(), "{\"type\":\"Ping\"}");

    let delivered = client.receive(Incoming::Text("{\"type\":\"Pong\"}".into())).unwrap();
    assert!(delivered.unwrap().is_type("Pong"));
    // What is no message is dropped, and the link stays up.
    assert!(client.receive(Incoming::Text("garbage".into())).unwrap().is_none());
    assert!(client.receive(Incoming::Other).unwrap().is_none());
    assert_eq!(client.link_state(), LinkState::Connected);

    assert_eq!(
        network_message(client.receive(Incoming::Close).unwrap_err()),
        "Signaling channel closed"
    );
    assert_eq!(client.link_state(), LinkState::Closed);
    // Nothing is delivered after the link went down.
    assert!(client.receive(Incoming::Text("{\"type\":\"Pong\"}".into())).is_err());
    assert_eq!(
        network_message(client.send(&ping).unwrap_err()),
        "Failed to send message: channel closed"
    );

    let mut other = SignalingClient::new("ws://relay/ws".to_string(), "A".to_string());
    let _ = other.connect(None);
    assert!(other.receive(Incoming::Error("reset".into())).is_err());
    assert_eq!(other.link_state(), LinkState::Closed);
    let mut third = SignalingClient::new("ws://relay/ws".to_string(), "A".to_string());
    let _ = third.connect(None);
    third.close();
    assert!(third.receive(Incoming::Other).is_err());
}

fn unavailable_message(error: GhostHandError) -> String {
    assert_eq!(error.kind(), ErrorKind::ChannelUnavailable);
    assert_eq!(error.describe(), "Canal indisponible: Data channel non disponible");
    match error {
        GhostHandError::ChannelUnavailable(message) => message,
        other => panic!("expected a channel-unavailable error, got {:?}", other),
    }
}

fn webrtc_message(error: GhostHandError) -> String {
    match error {
        GhostHandError::WebRTC(message) => message,
        other => panic!("expected a WebRTC error, got {:?}", other),
    }
}

#[test]
fn peer_channel_reports_each_failed_step() {
    let config = Config::default();
    let failed = WebRTCConnection::new(&config, Some("no network".to_string()));
    assert_eq!(
        webrtc_message(failed.unwrap_err()),
        "Erreur de création de peer connection: no network"
    );

    let mut peer = WebRTCConnection::new(&config, None).unwrap();
    assert_eq!(
        peer.ice_servers(),
        &vec!["stun:stun.l.google.com:19302", "stun:stun1.l.google.com:19302"]
    );
    assert_eq!(peer.connection_state(), PeerConnectionState::New);
    assert!(!peer.has_data_channel());
    assert_eq!(
        unavailable_message(peer.send_data(None).unwrap_err()),
        "Data channel non disponible"
    );
    assert_eq!(
        unavailable_message(peer.on_data_channel_message().unwrap_err()),
        "Data channel non disponible"
    );

    let error = peer.create_offer(OfferOutcome::DataChannelFailed("x".into())).unwrap_err();
    assert_eq!(webrtc_message(error), "Erreur de création du data channel: x");
    assert!(!peer.has_data_channel());
    let error = peer.create_offer(OfferOutcome::OfferFailed("y".into())).unwrap_err();
    assert_eq!(webrtc_message(error), "Erreur de création de l'offre: y");
    // The channel was opened before the offer failed.
    assert!(peer.has_data_channel());
    let error = peer.create_offer(OfferOutcome::LocalDescriptionFailed("z".into())).unwrap_err();
    assert_eq!(webrtc_message(error), "Erreur de définition de la description locale: z");
    assert_eq!(peer.create_offer(OfferOutcome::Created("sdp".into())).unwrap(), "sdp");

    // The channel is there, but nothing can be sent before it is connected.
    assert!(!peer.can_send());
    assert_eq!(
        unavailable_message(peer.send_data(None).unwrap_err()),
        "Data channel non disponible"
    );
    peer.set_connection_state(PeerConnectionState::Connecting);
    assert!(peer.send_data(None).is_err());
    peer.set_connection_state(PeerConnectionState::Connected);
    assert!(peer.can_send());
    assert!(peer.send_data(None).is_ok());
    assert!(peer.on_data_channel_message().is_ok());
    assert_eq!(
        webrtc_message(peer.send_data(Some("closed".into())).unwrap_err()),
        "Erreur d'envoi de données: closed"
    );
    assert!(peer.add_ice_candidate(None).is_ok());
    assert_eq!(
        webrtc_message(peer.add_ice_candidate(Some("bad".into())).unwrap_err()),
        "Erreur d'ajout du candidat ICE: bad"
    );

    let mut answering = WebRTCConnection::new(&config, None).unwrap();
    let cases = [
        (AnswerOutcome::OfferRejected("a".into()), "Erreur de parsing de l'offre: a"),
        (
            AnswerOutcome::RemoteDescriptionFailed("b".into()),
            "Erreur de définition de la description distante: b",
        ),
        (AnswerOutcome::AnswerFailed("c".into()), "Erreur de création de la réponse: c"),
        (
            AnswerOutcome::LocalDescriptionFailed("d".into()),
            "Erreur de définition de la description locale: d",
        ),
    ];
    for (outcome, want) in cases {
        assert_eq!(webrtc_message(answering.create_answer(outcome).unwrap_err()), want);
    }
    assert_eq!(answering.create_answer(AnswerOutcome::Created("ans".into())).unwrap(), "ans");
    assert!(!answering.has_data_channel());
    answering.data_channel_received();
    assert!(answering.has_data_channel());
    answering.set_connection_state(PeerConnectionState::Connected);
    assert!(answering.is_connected());
    answering.set_connection_state(PeerConnectionState::Disconnected);
    assert!(!answering.is_connected());
    let copy = answering.clone();
    assert_eq!(copy.connection_state(), PeerConnectionState::Disconnected);
    assert!(copy.has_data_channel());
}

#[test]
fn only_offers_and_answers_are_remote_descriptions() {
    let config = Config::default();
    let mut peer = WebRTCConnection::new(&config, None).unwrap();
    for kind in [SdpType::Unspecified, SdpType::Pranswer, SdpType::Rollback] {
        assert!(!WebRTCConnection::accepts_remote(kind));
        let error = peer.set_remote_description(kind, DescriptionOutcome::Applied).unwrap_err();
        assert_eq!(webrtc_message(error), "Type SDP invalide (doit être Offer ou Answer)");
    }
    assert!(WebRTCConnection::accepts_remote(SdpType::Offer));
    assert!(peer.set_remote_description(SdpType::Offer, DescriptionOutcome::Applied).is_ok());
    assert!(peer.set_remote_description(SdpType::Answer, DescriptionOutcome::Applied).is_ok());
    let error = peer
        .set_remote_description(SdpType::Answer, DescriptionOutcome::Rejected("p".into()))
        .unwrap_err();
    assert_eq!(webrtc_message(error), "Erreur de parsing de la description: p");
    let error = peer
        .set_remote_description(SdpType::Answer, DescriptionOutcome::Failed("q".into()))
        .unwrap_err();
    assert_eq!(webrtc_message(error), "Erreur de définition de la description distante: q");
}

#[test]
fn every_message_is_written_with_its_members_in_the_order_of_their_names() {
    let register = SignalMessage::register("GHD-1".to_string());
    assert_eq!(
        register.to_json().unwrap(),
        "{\"data\":{\"device_id\":\"GHD-1\"},\"type\":\"Register\"}"
    );
    // A number with a fraction is written too.
    let odd = SignalMessage::from_json("{\"type\":\"X\",\"data\":{\"v\":1.5}}").unwrap();
    assert_eq!(odd.to_json().unwrap(), "{\"data\":{\"v\":1.5},\"type\":\"X\"}");
    let mut client = SignalingClient::new("ws://relay/ws".to_string(), "GHD-1".to_string());
    match client.connect(None) {
        ConnectStep::Connected { register } => {
            assert_eq!(register, "{\"data\":{\"device_id\":\"GHD-1\"},\"type\":\"Register\"}")
        }
        other => panic!("expected the link to stand, got {:?}", other),
    }
    assert_eq!(client.send(&odd).unwrap(), "{\"data\":{\"v\":1.5},\"type\":\"X\"}");
}
