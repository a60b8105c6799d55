use ghost_hand_client::audit::AuditEvent;
use ghost_hand_client::config::Config;
use ghost_hand_client::error::GhostHandError;
use ghost_hand_client::peer::{OfferOutcome, WebRTCConnection};
use ghost_hand_client::protocol::ControlMessage;
use ghost_hand_client::requests::{
    cleanup_old_requests, cleanup_old_requests_at, get_pending_requests, note_connection_request,
    remove_requests_from, ConnectionRequest,
};
use ghost_hand_client::network::SignalMessage;
use ghost_hand_client::screen_capture::{CapturedImage, FrameFormat, MonitorSelection};
use ghost_hand_client::streaming::{CaptureDecision, InputHandler, Receiver, Streamer};
use ghost_hand_client::ui::{keyboard_message, mouse_message, AppState};

#[test]
fn test_streamer_creation() {
    let streamer = Streamer::new(30);
    assert!(!streamer.is_running());
}

#[test]
fn streamer_paces_counts_and_stops() {
    let mut streamer = Streamer::new(30);
    assert_eq!(streamer.start(), 33);
    assert!(streamer.is_running());
    let mut slow = Streamer::new(1);
    assert_eq!(slow.start(), 1000);
    let mut fast = Streamer::new(1000);
    assert_eq!(fast.start(), 1);

    for count in 1..=299u64 {
        assert_eq!(streamer.frame_sent(), None, "after {} frames", count);
    }
    // Ten seconds of frames.
    assert_eq!(streamer.frame_sent(), Some((300, 10)));
    assert_eq!(streamer.frame_sent(), None);

    streamer.stop();
    assert!(!streamer.is_running());
}

#[test]
fn five_failed_captures_in_a_row_end_the_streaming() {
    let mut streamer = Streamer::new(30);
    let _ = streamer.start();
    for _ in 0..4 {
        assert!(matches!(streamer.on_capture(Some("busy".into())), CaptureDecision::Skip));
    }
    // A captured frame makes the count start over.
    assert!(matches!(streamer.on_capture(None), CaptureDecision::Encode));
    for _ in 0..4 {
        assert!(matches!(streamer.on_capture(Some("busy".into())), CaptureDecision::Skip));
    }
    assert!(streamer.is_running());
    match streamer.on_capture(Some("busy".into())) {
        CaptureDecision::Stop(GhostHandError::ScreenCapture(message)) => {
            assert_eq!(message, "Échec après 5 erreurs consécutives de capture")
        }
        other => panic!("expected the end of the streaming, got {:?}", other),
    }
    assert!(!streamer.is_running());
}

fn describe(decision: ghost_hand_client::input_control::KeyboardDecision) -> Vec<String> {
    assert!(decision.audit.is_none());
    decision.outcome.unwrap().iter().map(|action| format!("{:?}", action)).collect()
}

#[test]
fn control_messages_become_input() {
    let handler = InputHandler::new_with_resolution(100, 50, None).unwrap();
    assert_eq!(
        describe(handler.handle_message(ControlMessage::MouseMove { x: 500, y: -3 })),
        vec!["MoveMouse { x: 99, y: 0 }"]
    );
    let press = ControlMessage::MouseClick { button: "left".into(), pressed: true };
    assert_eq!(
        describe(handler.handle_message(press)),
        vec!["Button { button: Left, direction: Press }"]
    );
    let release = ControlMessage::MouseClick { button: "middle".into(), pressed: false };
    assert_eq!(
        describe(handler.handle_message(release)),
        vec!["Button { button: Middle, direction: Release }"]
    );
    // An unknown button is passed over.
    let unknown = ControlMessage::MouseClick { button: "fourth".into(), pressed: true };
    assert!(describe(handler.handle_message(unknown)).is_empty());
    assert_eq!(
        describe(handler.handle_message(ControlMessage::MouseScroll { delta: -2 })),
        vec!["Scroll { length: -2, axis: Vertical }"]
    );
    assert!(describe(handler.handle_message(ControlMessage::MouseScroll { delta: 0 })).is_empty());
    let key = ControlMessage::KeyPress { key: "Enter".into(), pressed: true };
    assert_eq!(
        describe(handler.handle_message(key)),
        vec!["Key { key: Return, direction: Press }"]
    );
    let key = ControlMessage::KeyPress { key: "x".into(), pressed: false };
    assert_eq!(
        describe(handler.handle_message(key)),
        vec!["Key { key: Unicode('x'), direction: Release }"]
    );
    assert!(describe(handler.handle_message(ControlMessage::Ping)).is_empty());
    assert!(describe(handler.handle_message(ControlMessage::StopStream)).is_empty());

    let blocked =
        handler.handle_message(ControlMessage::KeyPress { key: "windows".into(), pressed: true });
    assert!(blocked.outcome.is_err());
    assert!(matches!(blocked.audit, Some(AuditEvent::SecurityError { .. })));

    assert!(InputHandler::new(Some("no".into())).is_err());
    assert!(InputHandler::new(None).is_ok());
}

#[test]
fn receiving_and_input_need_the_data_channel() {
    let config = Config::default();
    let mut peer = WebRTCConnection::new(&config, None).unwrap();
    let handler = InputHandler::new(None).unwrap();
    assert!(handler.attach_to_webrtc(&peer).is_err());
    assert!(Receiver::new(peer.clone()).start().is_err());
    let _ = peer.create_offer(OfferOutcome::Created("sdp".into()));
    assert!(handler.attach_to_webrtc(&peer).is_ok());
    assert!(Receiver::new(peer).start().is_ok());
}

fn request(from: &str, timestamp: u64) -> ConnectionRequest {
    ConnectionRequest { from: from.to_string(), timestamp, expires_at: timestamp + 60 }
}

fn senders(requests: &[ConnectionRequest]) -> Vec<String> {
    requests.iter().map(|request| request.from.clone()).collect()
}

#[test]
fn requests_wait_for_a_minute() {
    let mut requests = vec![request("old", 100), request("edge", 140), request("new", 150)];
    // At 200 the request of 140 has just run out.
    cleanup_old_requests_at(&mut requests, 200);
    assert_eq!(senders(&requests), vec!["new"]);
    cleanup_old_requests_at(&mut requests, 209);
    assert_eq!(senders(&requests), vec!["new"]);
    cleanup_old_requests_at(&mut requests, 210);
    assert!(requests.is_empty());

    let mut requests = vec![request("past", 0), request("ahead", u64::MAX - 60)];
    cleanup_old_requests(&mut requests);
    assert_eq!(senders(&requests), vec!["ahead"]);
}

#[test]
fn the_listener_notes_connection_requests() {
    let mut requests = vec![request("old", 100), request("fresh", 990)];
    let incoming =
        SignalMessage::from_json("{\"type\":\"ConnectRequest\",\"data\":{\"from\":\"C\"}}").unwrap();
    let noted = note_connection_request(&mut requests, &incoming, 1000).unwrap();
    assert_eq!(noted.from, "C");
    assert_eq!(noted.timestamp, 1000);
    assert_eq!(noted.expires_at, 1060);
    assert_eq!(senders(&requests), vec!["fresh", "C"]);

    // A request without sender and any other message change nothing.
    let nameless = SignalMessage::connect_request("me".into(), None);
    assert!(note_connection_request(&mut requests, &nameless, 1001).is_none());
    assert!(note_connection_request(&mut requests, &SignalMessage::ping(), 5000).is_none());
    assert_eq!(senders(&requests), vec!["fresh", "C"]);

    let pending = get_pending_requests(&mut requests, 1050);
    assert_eq!(senders(&pending), vec!["C"]);
    assert_eq!(senders(&requests), vec!["C"]);

    requests.push(request("D", 1050));
    requests.push(request("C", 1051));
    remove_requests_from(&mut requests, "C");
    assert_eq!(senders(&requests), vec!["D"]);

    let mut late = Vec::new();
    let noted = note_connection_request(&mut late, &incoming, u64::MAX - 5).unwrap();
    assert_eq!(noted.expires_at, u64::MAX);
}

fn capture_message(error: GhostHandError) -> String {
    match error {
        GhostHandError::ScreenCapture(message) => message,
        other => panic!("expected a capture error, got {:?}", other),
    }
}

#[test]
fn monitors_are_listed_selected_and_captured() {
    assert_eq!(capture_message(MonitorSelection::new(0).unwrap_err()), "No monitors found");
    let mut selection = MonitorSelection::new(2).unwrap();
    assert_eq!(selection.monitor_to_capture().unwrap(), 0);
    assert_eq!(selection.get_resolution(), (1920, 1080));

    let displays = selection.get_displays();
    assert_eq!(displays.len(), 2);
    assert_eq!(displays[0].name, "Monitor 0");
    assert!(displays[0].is_primary);
    assert_eq!(displays[1].id, 1);
    assert_eq!(displays[1].name, "Monitor 1");
    assert!(!displays[1].is_primary);
    assert_eq!((displays[1].width, displays[1].height), (1920, 1080));

    assert!(selection.select_display(1).is_ok());
    assert_eq!(selection.monitor_to_capture().unwrap(), 1);
    assert_eq!(
        capture_message(selection.select_display(2).unwrap_err()),
        "Invalid display ID: 2"
    );
    assert_eq!(selection.monitor_to_capture().unwrap(), 1);

    let image = CapturedImage { width: 2, height: 1, data: vec![1, 2, 3, 4, 5, 6, 7, 8] };
    let frame = selection.capture(Ok(image)).unwrap();
    assert_eq!((frame.width, frame.height), (2, 1));
    assert_eq!(frame.data, vec![1, 2, 3, 4, 5, 6, 7, 8]);
    assert_eq!(frame.format, FrameFormat::RGBA);
    assert_eq!(frame.timestamp, 1);
    assert_eq!(
        capture_message(selection.capture(Err("denied".into())).unwrap_err()),
        "Failed to capture screen: denied"
    );
    let image = CapturedImage { width: 0, height: 0, data: Vec::new() };
    assert_eq!(selection.capture(Ok(image)).unwrap().timestamp, 2);
}

#[test]
fn app_state_starts_disconnected() {
    let state = AppState::new("GHD-1".to_string());
    assert!(!state.connected);
    assert_eq!(state.device_id, "GHD-1");
    assert!(state.remote_device_id.is_none());
}

#[test]
fn interface_events_become_messages() {
    let show = |message: Option<ControlMessage>| format!("{:?}", message);
    assert_eq!(show(mouse_message("move", 3, 4, "left", 9)), "Some(MouseMove { x: 3, y: 4 })");
    assert_eq!(
        show(mouse_message("down", 3, 4, "left", 9)),
        "Some(MouseClick { button: \"left\", pressed: true })"
    );
    assert_eq!(
        show(mouse_message("up", 3, 4, "right", 9)),
        "Some(MouseClick { button: \"right\", pressed: false })"
    );
    assert_eq!(show(mouse_message("wheel", 3, 4, "left", -9)), "Some(MouseScroll { delta: -9 })");
    assert_eq!(show(mouse_message("hover", 3, 4, "left", 9)), "None");
    assert_eq!(
        format!("{:?}", keyboard_message("keydown", "a")),
        "KeyPress { key: \"a\", pressed: true }"
    );
    assert_eq!(
        format!("{:?}", keyboard_message("keyup", "a")),
        "KeyPress { key: \"a\", pressed: false }"
    );
}
