//! What the user interface shows of the session.
use vstd::prelude::*;
use vstd::string::*;
use crate::protocol::{ControlMessage, ControlView};
use crate::text::str_equal;

verus! {

/// What the user interface shows of the session.
pub struct AppState {
    pub connected: bool,
    pub device_id: String,
    pub remote_device_id: Option<String>,
}

impl AppState {
    /// The state at the start: not connected to anyone.
    pub fn new(device_id: String) -> (state: Self)
        ensures
            !state.connected,
            state.device_id == device_id,
            state.remote_device_id is None,
    {
        AppState { connected: false, device_id, remote_device_id: None }
    }
}


/// The message that a mouse event of the user interface stands for: a
/// `move` is a mouse move to the position, `down` and `up` press and release
/// the button, `wheel` scrolls by the delta. `None` for an event of any
/// other kind.
pub open spec fn mouse_message_of(
    kind: Seq<char>,
    x: i32,
    y: i32,
    button: Seq<char>,
    delta: i32,
) -> Option<ControlView> {
    if kind == "move"@ {
        Some(ControlView::MouseMove { x, y })
    } else if kind == "down"@ {
        Some(ControlView::MouseClick { button, pressed: true })
    } else if kind == "up"@ {
        Some(ControlView::MouseClick { button, pressed: false })
    } else if kind == "wheel"@ {
        Some(ControlView::MouseScroll { delta })
    } else {
        None
    }
}

/// The message to send for a mouse event of the user interface.
pub fn mouse_message(kind: &str, x: i32, y: i32, button: &str, delta: i32) -> (r: Option<
    ControlMessage,
>)
    ensures
        match mouse_message_of(kind@, x, y, button@, delta) {
            Some(message) => r matches Some(m) && m@ == message,
            None => r is None,
        },
{
    if str_equal(kind, "move") {
        Some(ControlMessage::MouseMove { x, y })
    } else if str_equal(kind, "down") {
        Some(ControlMessage::MouseClick { button: String::from_str(button), pressed: true })
    } else if str_equal(kind, "up") {
        Some(ControlMessage::MouseClick { button: String::from_str(button), pressed: false })
    } else if str_equal(kind, "wheel") {
        Some(ControlMessage::MouseScroll { delta })
    } else {
        None
    }
}

/// The message to send for a keyboard event of the user interface: the key
/// is pressed by a `keydown`, released by any other kind of event.
pub fn keyboard_message(kind: &str, key: &str) -> (message: ControlMessage)
    ensures
        message@ == (ControlView::KeyPress { key: key@, pressed: kind@ == "keydown"@ }),
{
    ControlMessage::KeyPress { key: String::from_str(key), pressed: str_equal(kind, "keydown") }
}

} // verus!
