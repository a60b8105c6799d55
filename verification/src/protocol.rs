//! The messages that travel over the peer data channel, and their two
//! encodings: video frames go as a fixed binary header followed by the
//! image, everything else as a JSON object tagged with its type.
use vstd::prelude::*;
use vstd::string::*;
use vstd::bytes::{
    lemma_auto_spec_u32_to_from_le_bytes, lemma_auto_spec_u64_to_from_le_bytes,
    spec_u32_from_le_bytes, spec_u32_to_le_bytes, spec_u64_from_le_bytes, spec_u64_to_le_bytes,
    u32_from_le_bytes, u32_to_le_bytes, u64_from_le_bytes, u64_to_le_bytes,
};
use vstd::slice::slice_subrange;
use crate::error::{fails_as, ErrorKind, GhostHandError, Result};
use crate::json::{
    bool_of, empty_object, json_bool, json_bool_of, json_error_text, json_i64,
    json_i64_of, json_items_of, json_list, json_member, json_object, json_parse_bytes,
    json_parsed_bytes, json_render_bytes, json_rendered_bytes, json_text, json_text_of, json_u64, json_u64_of,
    json_view, json_with, member, plain_tree, text_of, u64_of, views_of, with_member, JsonTree,
    MAX_JSON_DEPTH,
};
use crate::text::str_equal;

verus! {

/// Bytes in the header of a video frame.
pub const FRAME_HEADER_SIZE: usize = 24;

/// A message on the peer data channel.
#[derive(Debug)]
pub enum ControlMessage {
    StartStream { resolution: (u32, u32), framerate: u32 },
    StopStream,
    StreamStarted,
    VideoFrame { data: Vec<u8>, width: u32, height: u32, timestamp: u64, format: String },
    MouseMove { x: i32, y: i32 },
    MouseClick { button: String, pressed: bool },
    MouseScroll { delta: i32 },
    KeyPress { key: String, pressed: bool },
    Ping,
    Pong,
    Error { message: String },
}

/// What a control message holds.
pub enum ControlView {
    StartStream { resolution: (u32, u32), framerate: u32 },
    StopStream,
    StreamStarted,
    VideoFrame { data: Seq<u8>, width: u32, height: u32, timestamp: u64, format: Seq<char> },
    MouseMove { x: i32, y: i32 },
    MouseClick { button: Seq<char>, pressed: bool },
    MouseScroll { delta: i32 },
    KeyPress { key: Seq<char>, pressed: bool },
    Ping,
    Pong,
    Error { message: Seq<char> },
}

impl View for ControlMessage {
    type V = ControlView;

    open spec fn view(&self) -> ControlView {
        match self {
            ControlMessage::StartStream { resolution, framerate } => ControlView::StartStream {
                resolution: *resolution,
                framerate: *framerate,
            },
            ControlMessage::StopStream => ControlView::StopStream,
            ControlMessage::StreamStarted => ControlView::StreamStarted,
            ControlMessage::VideoFrame { data, width, height, timestamp, format } =>
                ControlView::VideoFrame {
                data: data@,
                width: *width,
                height: *height,
                timestamp: *timestamp,
                format: format@,
            },
            ControlMessage::MouseMove { x, y } => ControlView::MouseMove { x: *x, y: *y },
            ControlMessage::MouseClick { button, pressed } => ControlView::MouseClick {
                button: button@,
                pressed: *pressed,
            },
            ControlMessage::MouseScroll { delta } => ControlView::MouseScroll { delta: *delta },
            ControlMessage::KeyPress { key, pressed } => ControlView::KeyPress {
                key: key@,
                pressed: *pressed,
            },
            ControlMessage::Ping => ControlView::Ping,
            ControlMessage::Pong => ControlView::Pong,
            ControlMessage::Error { message } => ControlView::Error { message: message@ },
        }
    }
}

/// The four bytes that open every video frame: `VFRM`.
pub open spec fn frame_magic() -> Seq<u8> {
    seq![0x56u8, 0x46u8, 0x52u8, 0x4du8]
}

/// The length of an image as the header holds it: its lowest 32 bits.
pub open spec fn length_field(len: nat) -> u32 {
    (len % 0x1_0000_0000) as u32
}

/// The bytes of a video frame: the magic, then width, height, timestamp and
/// the length of the image, least significant byte first, then the image.
pub open spec fn frame_bytes(width: u32, height: u32, timestamp: u64, data: Seq<u8>) -> Seq<u8> {
    frame_magic() + spec_u32_to_le_bytes(width) + spec_u32_to_le_bytes(height)
        + spec_u64_to_le_bytes(timestamp) + spec_u32_to_le_bytes(length_field(data.len())) + data
}

/// The bytes open as a video frame does: at least a header long, beginning
/// with the magic.
pub open spec fn is_frame(bytes: Seq<u8>) -> bool {
    bytes.len() >= FRAME_HEADER_SIZE && bytes.subrange(0, 4) == frame_magic()
}

/// The video frame that bytes which open as one hold; `None` where fewer
/// bytes follow the header than it announces. Bytes after the image are
/// passed over. The image is taken to be a JPEG.
pub open spec fn frame_of(bytes: Seq<u8>) -> Option<ControlView> {
    let announced = spec_u32_from_le_bytes(bytes.subrange(20, 24));
    if bytes.len() >= FRAME_HEADER_SIZE + announced {
        Some(
            ControlView::VideoFrame {
                data: bytes.subrange(
                    FRAME_HEADER_SIZE as int,
                    FRAME_HEADER_SIZE + announced as int,
                ),
                width: spec_u32_from_le_bytes(bytes.subrange(4, 8)),
                height: spec_u32_from_le_bytes(bytes.subrange(8, 12)),
                timestamp: spec_u64_from_le_bytes(bytes.subrange(12, 20)),
                format: "jpeg"@,
            },
        )
    } else {
        None
    }
}

fn is_magic(data: &[u8]) -> (r: bool)
    requires
        data.len() >= 4,
    ensures
        r == (data@.subrange(0, 4) == frame_magic()),
{
    let r = data[0] == 0x56 && data[1] == 0x46 && data[2] == 0x52 && data[3] == 0x4d;
    proof {
        let head = data@.subrange(0, 4);
        assert(head[0] == data@[0] && head[1] == data@[1] && head[2] == data@[2] && head[3]
            == data@[3]);
        if r {
            assert(head =~= frame_magic());
        } else {
            assert(frame_magic()[0] == 0x56u8 && frame_magic()[1] == 0x46u8 && frame_magic()[2]
                == 0x52u8 && frame_magic()[3] == 0x4du8);
        }
    }
    r
}

fn append_to(out: &mut Vec<u8>, part: &Vec<u8>)
    ensures
        final(out)@ == old(out)@ + part@,
{
    let mut i: usize = 0;
    while i < part.len()
        invariant
            i <= part.len(),
            out@ == old(out)@ + part@.take(i as int),
        decreases part.len() - i,
    {
        out.push(part[i]);
        assert(out@ =~= old(out)@ + part@.take(i + 1));
        i += 1;
    }
    assert(part@.take(part.len() as int) =~= part@);
}

/// The bytes of the video frame with the image `data`.
pub fn encode_frame(data: &Vec<u8>, width: u32, height: u32, timestamp: u64) -> (bytes: Vec<u8>)
    ensures
        bytes@ == frame_bytes(width, height, timestamp, data@),
{
    let mut bytes: Vec<u8> = Vec::new();
    bytes.push(0x56);
    bytes.push(0x46);
    bytes.push(0x52);
    bytes.push(0x4d);
    assert(bytes@ =~= frame_magic());
    append_to(&mut bytes, &u32_to_le_bytes(width));
    append_to(&mut bytes, &u32_to_le_bytes(height));
    append_to(&mut bytes, &u64_to_le_bytes(timestamp));
    let len: u32 = (data.len() as u64 % 0x1_0000_0000) as u32;
    append_to(&mut bytes, &u32_to_le_bytes(len));
    append_to(&mut bytes, data);
    bytes
}

/// The video frame that bytes which open as one hold, or a serialization
/// error where fewer bytes follow the header than it announces.
pub fn decode_frame(data: &[u8]) -> (r: Result<ControlMessage>)
    requires
        is_frame(data@),
    ensures
        match frame_of(data@) {
            Some(frame) => r matches Ok(message) && message@ == frame,
            None => fails_as(r, ErrorKind::Serialization),
        },
{
    let width = u32_from_le_bytes(slice_subrange(data, 4, 8));
    let height = u32_from_le_bytes(slice_subrange(data, 8, 12));
    let timestamp = u64_from_le_bytes(slice_subrange(data, 12, 20));
    let announced = u32_from_le_bytes(slice_subrange(data, 20, 24));
    if (data.len() as u64) < FRAME_HEADER_SIZE as u64 + announced as u64 {
        return Err(GhostHandError::Serialization("VideoFrame data truncated".to_string()));
    }
    let end: usize = FRAME_HEADER_SIZE + announced as usize;
    let image = slice_subrange(data, FRAME_HEADER_SIZE, end);
    let mut copy: Vec<u8> = Vec::new();
    let mut i: usize = 0;
    while i < image.len()
        invariant
            i <= image.len(),
            copy@ == image@.take(i as int),
        decreases image.len() - i,
    {
        copy.push(image[i]);
        assert(copy@ =~= image@.take(i + 1));
        i += 1;
    }
    assert(image@.take(image.len() as int) =~= image@);
    Ok(
        ControlMessage::VideoFrame {
            data: copy,
            width,
            height,
            timestamp,
            format: "jpeg".to_string(),
        },
    )
}

/// The bytes of a video frame open as one, and hold the frame that was
/// written: its image, of less than 4 GiB, its width, height and timestamp.
pub proof fn lemma_frame_round_trip(width: u32, height: u32, timestamp: u64, data: Seq<u8>)
    requires
        data.len() <= u32::MAX,
    ensures
        is_frame(frame_bytes(width, height, timestamp, data)),
        frame_of(frame_bytes(width, height, timestamp, data)) == Some(
            ControlView::VideoFrame { data, width, height, timestamp, format: "jpeg"@ },
        ),
{
    lemma_auto_spec_u32_to_from_le_bytes();
    lemma_auto_spec_u64_to_from_le_bytes();
    let bytes = frame_bytes(width, height, timestamp, data);
    let w = spec_u32_to_le_bytes(width);
    let h = spec_u32_to_le_bytes(height);
    let t = spec_u64_to_le_bytes(timestamp);
    let l = spec_u32_to_le_bytes(length_field(data.len()));
    assert(w.len() == 4 && h.len() == 4 && t.len() == 8 && l.len() == 4);
    assert(bytes.len() == 24 + data.len());
    assert(bytes.subrange(0, 4) =~= frame_magic());
    assert(bytes.subrange(4, 8) =~= w);
    assert(bytes.subrange(8, 12) =~= h);
    assert(bytes.subrange(12, 20) =~= t);
    assert(bytes.subrange(20, 24) =~= l);
    assert(length_field(data.len()) == data.len());
    assert(bytes.subrange(24, 24 + data.len() as int) =~= data);
}


/// The whole number a `u32` can hold under `key` of an object.
pub open spec fn u32_field(tree: JsonTree, key: Seq<char>) -> Option<u32> {
    match member(tree, key) {
        Some(JsonTree::Int(i)) => if 0 <= i <= u32::MAX {
            Some(i as u32)
        } else {
            None
        },
        _ => None,
    }
}

/// The whole number a `u64` can hold under `key` of an object.
pub open spec fn u64_field(tree: JsonTree, key: Seq<char>) -> Option<u64> {
    match member(tree, key) {
        Some(found) => u64_of(found),
        None => None,
    }
}

/// The whole number an `i32` can hold under `key` of an object.
pub open spec fn i32_field(tree: JsonTree, key: Seq<char>) -> Option<i32> {
    match member(tree, key) {
        Some(JsonTree::Int(i)) => if i32::MIN <= i <= i32::MAX {
            Some(i as i32)
        } else {
            None
        },
        _ => None,
    }
}

/// The text under `key` of an object.
pub open spec fn text_field(tree: JsonTree, key: Seq<char>) -> Option<Seq<char>> {
    match member(tree, key) {
        Some(found) => text_of(found),
        None => None,
    }
}

/// The truth value under `key` of an object.
pub open spec fn bool_field(tree: JsonTree, key: Seq<char>) -> Option<bool> {
    match member(tree, key) {
        Some(found) => bool_of(found),
        None => None,
    }
}

/// The tree is a whole number between 0 and `max`.
pub open spec fn is_number_up_to(tree: JsonTree, max: int) -> bool {
    tree matches JsonTree::Int(i) && 0 <= i <= max
}

/// The pair of numbers under `key` of an object: a list of exactly two
/// whole numbers that a `u32` can hold.
pub open spec fn pair_field(tree: JsonTree, key: Seq<char>) -> Option<(u32, u32)> {
    match member(tree, key) {
        Some(JsonTree::List(items)) => if items.len() == 2 && is_number_up_to(
            items[0],
            u32::MAX as int,
        ) && is_number_up_to(items[1], u32::MAX as int) {
            Some((items[0]->Int_0 as u32, items[1]->Int_0 as u32))
        } else {
            None
        },
        _ => None,
    }
}

/// The bytes under `key` of an object: a list of whole numbers up to 255.
pub open spec fn bytes_field(tree: JsonTree, key: Seq<char>) -> Option<Seq<u8>> {
    match member(tree, key) {
        Some(JsonTree::List(items)) => if forall|i: int|
            0 <= i < items.len() ==> is_number_up_to(#[trigger] items[i], 255) {
            Some(Seq::new(items.len(), |i: int| items[i]->Int_0 as u8))
        } else {
            None
        },
        _ => None,
    }
}

/// The object that holds only its type tag.
pub open spec fn tagged(tag: Seq<char>) -> JsonTree {
    with_member(empty_object(), "type"@, JsonTree::Text(tag))
}

/// The JSON object that stands for a message: its type under `type`, its
/// fields under their names.
pub open spec fn json_of(message: ControlView) -> JsonTree {
    match message {
        ControlView::StartStream { resolution, framerate } => with_member(
            with_member(
                tagged("StartStream"@),
                "resolution"@,
                JsonTree::List(
                    seq![JsonTree::Int(resolution.0 as int), JsonTree::Int(resolution.1 as int)],
                ),
            ),
            "framerate"@,
            JsonTree::Int(framerate as int),
        ),
        ControlView::StopStream => tagged("StopStream"@),
        ControlView::StreamStarted => tagged("StreamStarted"@),
        ControlView::VideoFrame { data, width, height, timestamp, format } => with_member(
            with_member(
                with_member(
                    with_member(
                        with_member(
                            tagged("VideoFrame"@),
                            "data"@,
                            JsonTree::List(
                                Seq::new(data.len(), |i: int| JsonTree::Int(data[i] as int)),
                            ),
                        ),
                        "width"@,
                        JsonTree::Int(width as int),
                    ),
                    "height"@,
                    JsonTree::Int(height as int),
                ),
                "timestamp"@,
                JsonTree::Int(timestamp as int),
            ),
            "format"@,
            JsonTree::Text(format),
        ),
        ControlView::MouseMove { x, y } => with_member(
            with_member(tagged("MouseMove"@), "x"@, JsonTree::Int(x as int)),
            "y"@,
            JsonTree::Int(y as int),
        ),
        ControlView::MouseClick { button, pressed } => with_member(
            with_member(tagged("MouseClick"@), "button"@, JsonTree::Text(button)),
            "pressed"@,
            JsonTree::Bool(pressed),
        ),
        ControlView::MouseScroll { delta } => with_member(
            tagged("MouseScroll"@),
            "delta"@,
            JsonTree::Int(delta as int),
        ),
        ControlView::KeyPress { key, pressed } => with_member(
            with_member(tagged("KeyPress"@), "key"@, JsonTree::Text(key)),
            "pressed"@,
            JsonTree::Bool(pressed),
        ),
        ControlView::Ping => tagged("Ping"@),
        ControlView::Pong => tagged("Pong"@),
        ControlView::Error { message } => with_member(
            tagged("Error"@),
            "message"@,
            JsonTree::Text(message),
        ),
    }
}

/// The message that a JSON object stands for: the text under `type` names
/// the kind, and every field of that kind must be there and of the right
/// form. Other members are passed over. `None` where the tree stands for no
/// message.
pub open spec fn control_of(tree: JsonTree) -> Option<ControlView> {
    match text_field(tree, "type"@) {
        None => None,
        Some(tag) => if tag == "StartStream"@ {
            match (pair_field(tree, "resolution"@), u32_field(tree, "framerate"@)) {
                (Some(resolution), Some(framerate)) => Some(
                    ControlView::StartStream { resolution, framerate },
                ),
                _ => None,
            }
        } else if tag == "StopStream"@ {
            Some(ControlView::StopStream)
        } else if tag == "StreamStarted"@ {
            Some(ControlView::StreamStarted)
        } else if tag == "VideoFrame"@ {
            match (
                bytes_field(tree, "data"@),
                u32_field(tree, "width"@),
                u32_field(tree, "height"@),
                u64_field(tree, "timestamp"@),
                text_field(tree, "format"@),
            ) {
                (Some(data), Some(width), Some(height), Some(timestamp), Some(format)) => Some(
                    ControlView::VideoFrame { data, width, height, timestamp, format },
                ),
                _ => None,
            }
        } else if tag == "MouseMove"@ {
            match (i32_field(tree, "x"@), i32_field(tree, "y"@)) {
                (Some(x), Some(y)) => Some(ControlView::MouseMove { x, y }),
                _ => None,
            }
        } else if tag == "MouseClick"@ {
            match (text_field(tree, "button"@), bool_field(tree, "pressed"@)) {
                (Some(button), Some(pressed)) => Some(ControlView::MouseClick { button, pressed }),
                _ => None,
            }
        } else if tag == "MouseScroll"@ {
            match i32_field(tree, "delta"@) {
                Some(delta) => Some(ControlView::MouseScroll { delta }),
                None => None,
            }
        } else if tag == "KeyPress"@ {
            match (text_field(tree, "key"@), bool_field(tree, "pressed"@)) {
                (Some(key), Some(pressed)) => Some(ControlView::KeyPress { key, pressed }),
                _ => None,
            }
        } else if tag == "Ping"@ {
            Some(ControlView::Ping)
        } else if tag == "Pong"@ {
            Some(ControlView::Pong)
        } else if tag == "Error"@ {
            match text_field(tree, "message"@) {
                Some(message) => Some(ControlView::Error { message }),
                None => None,
            }
        } else {
            None
        },
    }
}

/// The message that bytes from the data channel stand for: a video frame
/// where they open as one, else the message of the JSON object they hold.
/// `None` where they stand for no message.
pub open spec fn decoded_control(bytes: Seq<u8>) -> Option<ControlView> {
    if is_frame(bytes) {
        frame_of(bytes)
    } else {
        match json_parsed_bytes(bytes) {
            Some(tree) => control_of(tree),
            None => None,
        }
    }
}


/// The names of the kinds of message are all different.
proof fn lemma_tags_distinct()
    ensures
        "StartStream"@.len() == 11 && "StartStream"@[0] == 'S',
        "StopStream"@.len() == 10 && "StopStream"@[0] == 'S',
        "StreamStarted"@.len() == 13,
        "VideoFrame"@.len() == 10 && "VideoFrame"@[0] == 'V',
        "MouseMove"@.len() == 9,
        "MouseClick"@.len() == 10 && "MouseClick"@[0] == 'M',
        "MouseScroll"@.len() == 11 && "MouseScroll"@[0] == 'M',
        "KeyPress"@.len() == 8,
        "Ping"@.len() == 4 && "Ping"@[1] == 'i',
        "Pong"@.len() == 4 && "Pong"@[1] == 'o',
        "Error"@.len() == 5,
{
    reveal_strlit("StartStream");
    reveal_strlit("StopStream");
    reveal_strlit("StreamStarted");
    reveal_strlit("VideoFrame");
    reveal_strlit("MouseMove");
    reveal_strlit("MouseClick");
    reveal_strlit("MouseScroll");
    reveal_strlit("KeyPress");
    reveal_strlit("Ping");
    reveal_strlit("Pong");
    reveal_strlit("Error");
}

/// The names of the fields are different from `type`, and from one another
/// within each kind of message.
proof fn lemma_keys_distinct()
    ensures
        "type"@.len() == 4 && "type"@[0] == 't',
        "resolution"@.len() == 10,
        "framerate"@.len() == 9,
        "data"@.len() == 4 && "data"@[0] == 'd',
        "width"@.len() == 5,
        "height"@.len() == 6 && "height"@[0] == 'h',
        "timestamp"@.len() == 9,
        "format"@.len() == 6 && "format"@[0] == 'f',
        "x"@.len() == 1 && "x"@[0] == 'x',
        "y"@.len() == 1 && "y"@[0] == 'y',
        "button"@.len() == 6,
        "pressed"@.len() == 7,
        "delta"@.len() == 5,
        "key"@.len() == 3,
        "message"@.len() == 7,
{
    reveal_strlit("type");
    reveal_strlit("resolution");
    reveal_strlit("framerate");
    reveal_strlit("data");
    reveal_strlit("width");
    reveal_strlit("height");
    reveal_strlit("timestamp");
    reveal_strlit("format");
    reveal_strlit("x");
    reveal_strlit("y");
    reveal_strlit("button");
    reveal_strlit("pressed");
    reveal_strlit("delta");
    reveal_strlit("key");
    reveal_strlit("message");
}

/// The JSON object of a message stands for that message, and can be written
/// and read back.
pub proof fn lemma_json_round_trip(message: ControlView)
    ensures
        control_of(json_of(message)) == Some(message),
        json_of(message) is Object,
        plain_tree(json_of(message), MAX_JSON_DEPTH as nat),
{
    lemma_tags_distinct();
    lemma_keys_distinct();
    reveal_with_fuel(plain_tree, 3);
    let tree = json_of(message);
    let members = tree->Object_0;
    match message {
        ControlView::StartStream { resolution, framerate } => {
            let items = seq![
                JsonTree::Int(resolution.0 as int),
                JsonTree::Int(resolution.1 as int),
            ];
            assert(member(tree, "resolution"@) == Some(JsonTree::List(items)));
            assert(items[0] == JsonTree::Int(resolution.0 as int));
            assert(items[1] == JsonTree::Int(resolution.1 as int));
            assert(text_field(tree, "type"@) == Some("StartStream"@));
            assert forall|k: Seq<char>| members.contains_key(k) implies plain_tree(
                #[trigger] members[k],
                (MAX_JSON_DEPTH - 1) as nat,
            ) by {
                if k == "resolution"@ {
                    assert forall|i: int| 0 <= i < items.len() implies plain_tree(
                        #[trigger] items[i],
                        (MAX_JSON_DEPTH - 2) as nat,
                    ) by {}
                } else if k == "framerate"@ {
                } else {
                }
            }
        },
        ControlView::VideoFrame { data, width, height, timestamp, format } => {
            let items = Seq::new(data.len(), |i: int| JsonTree::Int(data[i] as int));
            assert(member(tree, "data"@) == Some(JsonTree::List(items)));
            assert(text_field(tree, "type"@) == Some("VideoFrame"@));
            assert(bytes_field(tree, "data"@) == Some(data)) by {
                assert forall|i: int| 0 <= i < items.len() implies is_number_up_to(
                    #[trigger] items[i],
                    255,
                ) by {}
                assert(Seq::new(items.len(), |i: int| items[i]->Int_0 as u8) =~= data);
            }
            assert forall|k: Seq<char>| members.contains_key(k) implies plain_tree(
                #[trigger] members[k],
                (MAX_JSON_DEPTH - 1) as nat,
            ) by {
                if k == "data"@ {
                    assert forall|i: int| 0 <= i < items.len() implies plain_tree(
                        #[trigger] items[i],
                        (MAX_JSON_DEPTH - 2) as nat,
                    ) by {}
                } else if k == "width"@ {
                } else if k == "height"@ {
                } else if k == "timestamp"@ {
                } else if k == "format"@ {
                } else {
                }
            }
        },
        ControlView::MouseMove { x, y } => {
            assert(text_field(tree, "type"@) == Some("MouseMove"@));
            assert forall|k: Seq<char>| members.contains_key(k) implies plain_tree(
                #[trigger] members[k],
                (MAX_JSON_DEPTH - 1) as nat,
            ) by {
                if k == "x"@ {
                } else if k == "y"@ {
                } else {
                }
            }
        },
        ControlView::MouseClick { button, pressed } => {
            assert(text_field(tree, "type"@) == Some("MouseClick"@));
            assert forall|k: Seq<char>| members.contains_key(k) implies plain_tree(
                #[trigger] members[k],
                (MAX_JSON_DEPTH - 1) as nat,
            ) by {
                if k == "button"@ {
                } else if k == "pressed"@ {
                } else {
                }
            }
        },
        ControlView::MouseScroll { delta } => {
            assert(text_field(tree, "type"@) == Some("MouseScroll"@));
        },
        ControlView::KeyPress { key, pressed } => {
            assert(text_field(tree, "type"@) == Some("KeyPress"@));
            assert forall|k: Seq<char>| members.contains_key(k) implies plain_tree(
                #[trigger] members[k],
                (MAX_JSON_DEPTH - 1) as nat,
            ) by {
                if k == "key"@ {
                } else if k == "pressed"@ {
                } else {
                }
            }
        },
        ControlView::Error { message } => {
            assert(text_field(tree, "type"@) == Some("Error"@));
        },
        ControlView::StopStream => {
            assert(text_field(tree, "type"@) == Some("StopStream"@));
        },
        ControlView::StreamStarted => {
            assert(text_field(tree, "type"@) == Some("StreamStarted"@));
        },
        ControlView::Ping => {
            assert(text_field(tree, "type"@) == Some("Ping"@));
        },
        ControlView::Pong => {
            assert(text_field(tree, "type"@) == Some("Pong"@));
        },
    }
}


fn u32_member(tree: &serde_json::Value, key: &str) -> (r: Option<u32>)
    ensures
        r == u32_field(json_view(*tree), key@),
{
    match json_member(tree, key) {
        Some(found) => match json_u64_of(&found) {
            Some(number) => if number <= u32::MAX as u64 {
                Some(number as u32)
            } else {
                None
            },
            None => None,
        },
        None => None,
    }
}

fn u64_member(tree: &serde_json::Value, key: &str) -> (r: Option<u64>)
    ensures
        r == u64_field(json_view(*tree), key@),
{
    match json_member(tree, key) {
        Some(found) => json_u64_of(&found),
        None => None,
    }
}

fn i32_member(tree: &serde_json::Value, key: &str) -> (r: Option<i32>)
    ensures
        r == i32_field(json_view(*tree), key@),
{
    match json_member(tree, key) {
        Some(found) => match json_i64_of(&found) {
            Some(number) => if -0x8000_0000 <= number && number <= 0x7fff_ffff {
                Some(number as i32)
            } else {
                None
            },
            None => None,
        },
        None => None,
    }
}

fn text_member(tree: &serde_json::Value, key: &str) -> (r: Option<String>)
    ensures
        match r {
            Some(text) => text_field(json_view(*tree), key@) == Some(text@),
            None => text_field(json_view(*tree), key@) is None,
        },
{
    match json_member(tree, key) {
        Some(found) => json_text_of(&found),
        None => None,
    }
}

fn bool_member(tree: &serde_json::Value, key: &str) -> (r: Option<bool>)
    ensures
        r == bool_field(json_view(*tree), key@),
{
    match json_member(tree, key) {
        Some(found) => json_bool_of(&found),
        None => None,
    }
}

fn small_number(item: &serde_json::Value, max: u64) -> (r: Option<u64>)
    ensures
        match r {
            Some(number) => is_number_up_to(json_view(*item), max as int) && json_view(*item)
                == JsonTree::Int(number as int),
            None => !is_number_up_to(json_view(*item), max as int),
        },
{
    match json_u64_of(item) {
        Some(number) => if number <= max {
            Some(number)
        } else {
            None
        },
        None => None,
    }
}

fn pair_member(tree: &serde_json::Value, key: &str) -> (r: Option<(u32, u32)>)
    ensures
        r == pair_field(json_view(*tree), key@),
{
    let found = match json_member(tree, key) {
        Some(found) => found,
        None => {
            return None;
        },
    };
    let items = match json_items_of(&found) {
        Some(items) => items,
        None => {
            return None;
        },
    };
    if items.len() != 2 {
        return None;
    }
    assert(views_of(items@)[0] == json_view(items@[0]));
    assert(views_of(items@)[1] == json_view(items@[1]));
    match (small_number(&items[0], u32::MAX as u64), small_number(&items[1], u32::MAX as u64)) {
        (Some(first), Some(second)) => Some((first as u32, second as u32)),
        _ => None,
    }
}

fn bytes_member(tree: &serde_json::Value, key: &str) -> (r: Option<Vec<u8>>)
    ensures
        match r {
            Some(bytes) => bytes_field(json_view(*tree), key@) == Some(bytes@),
            None => bytes_field(json_view(*tree), key@) is None,
        },
{
    let found = match json_member(tree, key) {
        Some(found) => found,
        None => {
            return None;
        },
    };
    let items = match json_items_of(&found) {
        Some(items) => items,
        None => {
            return None;
        },
    };
    let ghost trees = views_of(items@);
    let mut bytes: Vec<u8> = Vec::new();
    let mut i: usize = 0;
    while i < items.len()
        invariant
            i <= items.len(),
            trees == views_of(items@),
            member(json_view(*tree), key@) == Some(JsonTree::List(trees)),
            bytes@.len() == i,
            forall|k: int| 0 <= k < i ==> is_number_up_to(#[trigger] trees[k], 255),
            forall|k: int| 0 <= k < i ==> bytes@[k] == (trees[k]->Int_0) as u8,
        decreases items.len() - i,
    {
        assert(trees[i as int] == json_view(items@[i as int]));
        match small_number(&items[i], 255) {
            Some(number) => {
                bytes.push(number as u8);
            },
            None => {
                assert(!is_number_up_to(trees[i as int], 255));
                return None;
            },
        }
        i += 1;
    }
    assert(bytes@ =~= Seq::new(trees.len(), |k: int| trees[k]->Int_0 as u8));
    Some(bytes)
}

fn tagged_object(tag: &str) -> (tree: serde_json::Value)
    ensures
        json_view(tree) == tagged(tag@),
{
    json_with(json_object(), "type", json_text(tag))
}

impl ControlMessage {
    /// The JSON object that stands for the message.
    pub fn to_json_value(&self) -> (tree: serde_json::Value)
        ensures
            json_view(tree) == json_of(self@),
    {
        match self {
            ControlMessage::StartStream { resolution, framerate } => {
                let mut items: Vec<serde_json::Value> = Vec::new();
                items.push(json_u64(resolution.0 as u64));
                items.push(json_u64(resolution.1 as u64));
                assert(views_of(items@) =~= seq![
                    JsonTree::Int(resolution.0 as int),
                    JsonTree::Int(resolution.1 as int),
                ]);
                let tree = json_with(tagged_object("StartStream"), "resolution", json_list(items));
                json_with(tree, "framerate", json_u64(*framerate as u64))
            },
            ControlMessage::StopStream => tagged_object("StopStream"),
            ControlMessage::StreamStarted => tagged_object("StreamStarted"),
            ControlMessage::VideoFrame { data, width, height, timestamp, format } => {
                let mut items: Vec<serde_json::Value> = Vec::new();
                let mut i: usize = 0;
                while i < data.len()
                    invariant
                        i <= data.len(),
                        items@.len() == i,
                        forall|k: int|
                            0 <= k < i ==> json_view(#[trigger] items@[k]) == JsonTree::Int(
                                data@[k] as int,
                            ),
                    decreases data.len() - i,
                {
                    items.push(json_u64(data[i] as u64));
                    i += 1;
                }
                assert(views_of(items@) =~= Seq::new(
                    data@.len(),
                    |k: int| JsonTree::Int(data@[k] as int),
                ));
                let tree = json_with(tagged_object("VideoFrame"), "data", json_list(items));
                let tree = json_with(tree, "width", json_u64(*width as u64));
                let tree = json_with(tree, "height", json_u64(*height as u64));
                let tree = json_with(tree, "timestamp", json_u64(*timestamp));
                json_with(tree, "format", json_text(format.as_str()))
            },
            ControlMessage::MouseMove { x, y } => {
                let tree = json_with(tagged_object("MouseMove"), "x", json_i64(*x as i64));
                json_with(tree, "y", json_i64(*y as i64))
            },
            ControlMessage::MouseClick { button, pressed } => {
                let tree = json_with(
                    tagged_object("MouseClick"),
                    "button",
                    json_text(button.as_str()),
                );
                json_with(tree, "pressed", json_bool(*pressed))
            },
            ControlMessage::MouseScroll { delta } => json_with(
                tagged_object("MouseScroll"),
                "delta",
                json_i64(*delta as i64),
            ),
            ControlMessage::KeyPress { key, pressed } => {
                let tree = json_with(tagged_object("KeyPress"), "key", json_text(key.as_str()));
                json_with(tree, "pressed", json_bool(*pressed))
            },
            ControlMessage::Ping => tagged_object("Ping"),
            ControlMessage::Pong => tagged_object("Pong"),
            ControlMessage::Error { message } => json_with(
                tagged_object("Error"),
                "message",
                json_text(message.as_str()),
            ),
        }
    }

    /// The message that a JSON object stands for; `None` where it stands for
    /// none.
    pub fn from_json_value(tree: &serde_json::Value) -> (r: Option<Self>)
        ensures
            match control_of(json_view(*tree)) {
                Some(message) => r matches Some(m) && m@ == message,
                None => r is None,
            },
    {
        let tag = match text_member(tree, "type") {
            Some(tag) => tag,
            None => {
                return None;
            },
        };
        let tag = tag.as_str();
        if str_equal(tag, "StartStream") {
            match (pair_member(tree, "resolution"), u32_member(tree, "framerate")) {
                (Some(resolution), Some(framerate)) => Some(
                    ControlMessage::StartStream { resolution, framerate },
                ),
                _ => None,
            }
        } else if str_equal(tag, "StopStream") {
            Some(ControlMessage::StopStream)
        } else if str_equal(tag, "StreamStarted") {
            Some(ControlMessage::StreamStarted)
        } else if str_equal(tag, "VideoFrame") {
            let data = bytes_member(tree, "data");
            let width = u32_member(tree, "width");
            let height = u32_member(tree, "height");
            let timestamp = u64_member(tree, "timestamp");
            let format = text_member(tree, "format");
            match (data, width, height, timestamp, format) {
                (Some(data), Some(width), Some(height), Some(timestamp), Some(format)) => Some(
                    ControlMessage::VideoFrame { data, width, height, timestamp, format },
                ),
                _ => None,
            }
        } else if str_equal(tag, "MouseMove") {
            match (i32_member(tree, "x"), i32_member(tree, "y")) {
                (Some(x), Some(y)) => Some(ControlMessage::MouseMove { x, y }),
                _ => None,
            }
        } else if str_equal(tag, "MouseClick") {
            match (text_member(tree, "button"), bool_member(tree, "pressed")) {
                (Some(button), Some(pressed)) => Some(
                    ControlMessage::MouseClick { button, pressed },
                ),
                _ => None,
            }
        } else if str_equal(tag, "MouseScroll") {
            match i32_member(tree, "delta") {
                Some(delta) => Some(ControlMessage::MouseScroll { delta }),
                None => None,
            }
        } else if str_equal(tag, "KeyPress") {
            match (text_member(tree, "key"), bool_member(tree, "pressed")) {
                (Some(key), Some(pressed)) => Some(ControlMessage::KeyPress { key, pressed }),
                _ => None,
            }
        } else if str_equal(tag, "Ping") {
            Some(ControlMessage::Ping)
        } else if str_equal(tag, "Pong") {
            Some(ControlMessage::Pong)
        } else if str_equal(tag, "Error") {
            match text_member(tree, "message") {
                Some(message) => Some(ControlMessage::Error { message }),
                None => None,
            }
        } else {
            None
        }
    }

    /// The bytes that go over the data channel for the message, which are
    /// always written: the binary frame for a video frame, whose format is
    /// not written; the bytes of the JSON object for any other message. Read
    /// back with `from_bytes`, they are the message again: a video frame as
    /// a JPEG, where its image holds less than 4 GiB.
    pub fn to_bytes(&self) -> (r: Result<Vec<u8>>)
        ensures
            match self@ {
                ControlView::VideoFrame { data, width, height, timestamp, format } =>
                    r matches Ok(bytes) && bytes@ == frame_bytes(width, height, timestamp, data)
                        && (data.len() <= u32::MAX ==> decoded_control(bytes@) == Some(
                        ControlView::VideoFrame { data, width, height, timestamp, format: "jpeg"@ },
                    )),
                _ => r matches Ok(bytes) && bytes@ == json_rendered_bytes(json_of(self@))
                    && decoded_control(bytes@) == Some(self@),
            },
    {
        match self {
            ControlMessage::VideoFrame { data, width, height, timestamp, format: _ } => {
                proof {
                    if data@.len() <= u32::MAX {
                        lemma_frame_round_trip(*width, *height, *timestamp, data@);
                    }
                }
                Ok(encode_frame(data, *width, *height, *timestamp))
            },
            _ => {
                let tree = self.to_json_value();
                proof {
                    lemma_json_round_trip(self@);
                }
                match json_render_bytes(&tree) {
                    Ok(bytes) => {
                        proof {
                            assert(!is_frame(bytes@)) by {
                                if is_frame(bytes@) {
                                    assert(bytes@.subrange(0, 4)[0] == bytes@[0]);
                                    assert(frame_magic()[0] == 0x56u8);
                                }
                            }
                        }
                        Ok(bytes)
                    },
                    Err(error) => Err(GhostHandError::Serialization(json_error_text(&error))),
                }
            },
        }
    }

    /// The message that bytes from the data channel stand for. Bytes that
    /// open with the magic of a video frame are read as one; any others as a
    /// JSON object. Bytes that stand for no message are refused.
    pub fn from_bytes(data: &[u8]) -> (r: Result<Self>)
        ensures
            match decoded_control(data@) {
                Some(message) => r matches Ok(m) && m@ == message,
                None => fails_as(r, ErrorKind::Serialization),
            },
    {
        if data.len() >= FRAME_HEADER_SIZE && is_magic(data) {
            return decode_frame(data);
        }
        let tree = match json_parse_bytes(data) {
            Ok(tree) => tree,
            Err(error) => {
                return Err(GhostHandError::Serialization(json_error_text(&error)));
            },
        };
        match Self::from_json_value(&tree) {
            Some(message) => Ok(message),
            None => Err(
                GhostHandError::Serialization("data did not match any control message".to_string()),
            ),
        }
    }
}

} // verus!
