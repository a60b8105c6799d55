use ghost_hand_client::error::ErrorKind;
use ghost_hand_client::protocol::{decode_frame, encode_frame, ControlMessage};
use ghost_hand_client::streaming::{InputHandler, Receiver, Streamer};
use ghost_hand_client::video_encoder::EncodedFrame;

fn round_trip(message: &ControlMessage) -> ControlMessage {
    ControlMessage::from_bytes(&message.to_bytes().unwrap()).unwrap()
}

#[test]
fn video_frames_travel_in_the_binary_layout() {
    let frame = ControlMessage::VideoFrame {
        data: vec![0xde, 0xad, 0xbe, 0xef, 0x01],
        width: 0x0102_0304,
        height: 2,
        timestamp: 0x1122_3344_5566_7788,
        format: "h264".to_string(),
    };
    let bytes = frame.to_bytes().unwrap();
    let mut want = b"VFRM".to_vec();
    want.extend_from_slice(&[0x04, 0x03, 0x02, 0x01]);
    want.extend_from_slice(&[0x02, 0, 0, 0]);
    want.extend_from_slice(&[0x88, 0x77, 0x66, 0x55, 0x44, 0x33, 0x22, 0x11]);
    want.extend_from_slice(&[5, 0, 0, 0]);
    want.extend_from_slice(&[0xde, 0xad, 0xbe, 0xef, 0x01]);
    assert_eq!(bytes, want);
    assert_eq!(bytes, encode_frame(&vec![0xde, 0xad, 0xbe, 0xef, 0x01], 0x0102_0304, 2, 0x1122_3344_5566_7788));

    match ControlMessage::from_bytes(&bytes).unwrap() {
        ControlMessage::VideoFrame { data, width, height, timestamp, format } => {
            assert_eq!(data, vec![0xde, 0xad, 0xbe, 0xef, 0x01]);
            assert_eq!(width, 0x0102_0304);
            assert_eq!(height, 2);
            assert_eq!(timestamp, 0x1122_3344_5566_7788);
            // The format is not written: a frame is read as a JPEG.
            assert_eq!(format, "jpeg");
        }
        other => panic!("expected a video frame, got {:?}", other),
    }
}

#[test]
fn binary_frames_are_checked_for_magic_and_length() {
    let mut bytes = encode_frame(&vec![1, 2, 3], 4, 5, 6);
    // Bytes after the image are passed over.
    bytes.push(99);
    match ControlMessage::from_bytes(&bytes).unwrap() {
        ControlMessage::VideoFrame { data, .. } => assert_eq!(data, vec![1, 2, 3]),
        other => panic!("expected a video frame, got {:?}", other),
    }
    // A frame cut short is refused.
    let cut = &bytes[..bytes.len() - 2];
    let error = ControlMessage::from_bytes(cut).unwrap_err();
    assert_eq!(error.kind(), ErrorKind::Serialization);
    assert_eq!(error.describe(), "Erreur de sérialisation: VideoFrame data truncated");
    assert!(decode_frame(cut).is_err());
    // A header alone holds an empty image.
    let empty = encode_frame(&Vec::new(), 1, 1, 0);
    assert_eq!(empty.len(), 24);
    match ControlMessage::from_bytes(&empty).unwrap() {
        ControlMessage::VideoFrame { data, .. } => assert!(data.is_empty()),
        other => panic!("expected a video frame, got {:?}", other),
    }
    // Without the magic, or shorter than a header, the bytes are read as JSON.
    assert!(ControlMessage::from_bytes(b"VFRM").is_err());
    assert!(ControlMessage::from_bytes(b"XFRM0000000000000000000000000000").is_err());
    assert!(ControlMessage::from_bytes(b"").is_err());
}

#[test]
fn other_messages_travel_as_tagged_json() {
    let cases = vec![
        ControlMessage::StartStream { resolution: (1920, 1080), framerate: 30 },
        ControlMessage::StopStream,
        ControlMessage::StreamStarted,
        ControlMessage::MouseMove { x: -5, y: i32::MAX },
        ControlMessage::MouseClick { button: "left".to_string(), pressed: true },
        ControlMessage::MouseScroll { delta: i32::MIN },
        ControlMessage::KeyPress { key: "é\"\n".to_string(), pressed: false },
        ControlMessage::Ping,
        ControlMessage::Pong,
        ControlMessage::Error { message: "no".to_string() },
    ];
    for message in &cases {
        let back = round_trip(message);
        assert_eq!(format!("{:?}", back), format!("{:?}", message));
    }
    let text = String::from_utf8(ControlMessage::MouseMove { x: 1, y: 2 }.to_bytes().unwrap());
    let text = text.unwrap();
    assert!(text.starts_with('{'));
    assert!(text.contains("\"type\":\"MouseMove\""));
    assert!(text.contains("\"x\":1"));
    assert!(text.contains("\"y\":2"));
    assert_eq!(ControlMessage::Ping.to_bytes().unwrap(), b"{\"type\":\"Ping\"}");
}

#[test]
fn json_messages_are_read_leniently_and_refused_when_unusable() {
    let read = |text: &str| ControlMessage::from_bytes(text.as_bytes());
    match read("{\"y\": 2, \"extra\": null, \"type\": \"MouseMove\", \"x\": 1}").unwrap() {
        ControlMessage::MouseMove { x, y } => assert_eq!((x, y), (1, 2)),
        other => panic!("expected a mouse move, got {:?}", other),
    }
    match read("{\"type\":\"StartStream\",\"resolution\":[640,480],\"framerate\":15}").unwrap() {
        ControlMessage::StartStream { resolution, framerate } => {
            assert_eq!(resolution, (640, 480));
            assert_eq!(framerate, 15);
        }
        other => panic!("expected the start of a stream, got {:?}", other),
    }
    let video = "{\"type\":\"VideoFrame\",\"data\":[0,255],\"width\":1,\"height\":2,\"timestamp\":3,\"format\":\"h264\"}";
    match read(video).unwrap() {
        ControlMessage::VideoFrame { data, width, height, timestamp, format } => {
            assert_eq!(data, vec![0, 255]);
            assert_eq!((width, height, timestamp), (1, 2, 3));
            assert_eq!(format, "h264");
        }
        other => panic!("expected a video frame, got {:?}", other),
    }
    let refused = [
        "{}",
        "{\"type\":\"Nothing\"}",
        "{\"type\":7}",
        "{\"type\":\"MouseMove\",\"x\":1}",
        "{\"type\":\"MouseMove\",\"x\":1,\"y\":2147483648}",
        "{\"type\":\"MouseMove\",\"x\":1.0,\"y\":2}",
        "{\"type\":\"MouseMove\",\"x\":\"1\",\"y\":2}",
        "{\"type\":\"MouseClick\",\"button\":\"left\",\"pressed\":1}",
        "{\"type\":\"StartStream\",\"resolution\":[640],\"framerate\":15}",
        "{\"type\":\"StartStream\",\"resolution\":[640,480,1],\"framerate\":15}",
        "{\"type\":\"StartStream\",\"resolution\":[640,-1],\"framerate\":15}",
        "{\"type\":\"StartStream\",\"resolution\":[640,480],\"framerate\":4294967296}",
        "{\"type\":\"VideoFrame\",\"data\":[256],\"width\":1,\"height\":2,\"timestamp\":3,\"format\":\"x\"}",
        "{\"type\":\"Error\"}",
        "[1,2]",
        "{\"type\":\"Ping\"",
    ];
    for text in refused {
        match read(text) {
            Err(error) => assert_eq!(error.kind(), ErrorKind::Serialization),
            Ok(message) => panic!("{:?} must not be read from {}", message, text),
        }
    }
}

#[test]
fn receiver_hands_on_video_frames_only() {
    let frame = encode_frame(&vec![9, 8, 7], 10, 20, 30);
    assert_eq!(Receiver::frame_of(&frame), Some((vec![9, 8, 7], 10, 20, 30)));
    assert_eq!(Receiver::frame_of(&ControlMessage::Ping.to_bytes().unwrap()), None);
    assert_eq!(Receiver::frame_of(b"junk"), None);
    assert!(InputHandler::message_of(b"junk").is_none());
    let ping = InputHandler::message_of(&ControlMessage::Ping.to_bytes().unwrap());
    assert!(matches!(ping, Some(ControlMessage::Ping)));
}

#[test]
fn streamer_wraps_encoded_frames() {
    let encoded =
        EncodedFrame { data: vec![1, 2], timestamp: 3, is_keyframe: true, width: 4, height: 5 };
    match Streamer::frame_message(encoded) {
        ControlMessage::VideoFrame { data, width, height, timestamp, format } => {
            assert_eq!(data, vec![1, 2]);
            assert_eq!((width, height, timestamp), (4, 5, 3));
            assert_eq!(format, "jpeg");
        }
        other => panic!("expected a video frame, got {:?}", other),
    }
}
