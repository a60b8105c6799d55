//! Streaming: what the sender of video does with each tick of its clock,
//! what the receiver makes of what comes in, and what input the messages of
//! the controlling side stand for. Capturing, compressing and sending are
//! done elsewhere.
use vstd::prelude::*;
use vstd::string::*;
use crate::error::{fails_with, plain, ErrorKind, GhostHandError, Result};
use crate::input_control::{
    action_views, event_blocked, keyboard_actions, mouse_actions, no_modifiers,
    blocked_message, records_blocked_key, ActionView, InputAction, InputController, KeyModifiers,
    KeyboardDecision, KeyboardEvent, MouseButton, MouseEvent,
};
use crate::peer::{channel_unavailable, WebRTCConnection};
use crate::protocol::{decoded_control, ControlMessage, ControlView};
use crate::text::{concat3, decimal, decimal_string, str_equal};
use crate::video_encoder::EncodedFrame;

verus! {

/// Failed captures in a row that end the streaming.
pub const MAX_CAPTURE_ERRORS: u32 = 5;

/// Seconds of frames after which progress is reported.
pub const PROGRESS_REPORT_SECS: u64 = 10;

/// The sender of video: its rate, whether it runs, how many frames it sent
/// and how many captures failed in a row.
#[derive(Debug)]
pub struct Streamer {
    framerate: u32,
    running: bool,
    frame_count: u64,
    error_count: u32,
}

/// What follows a capture.
#[derive(Debug)]
pub enum CaptureDecision {
    /// The frame is to be encoded and sent.
    Encode,
    /// The capture failed: nothing is sent at this tick.
    Skip,
    /// Too many captures failed in a row: the streaming ends in this error.
    Stop(GhostHandError),
}

/// What the streamer holds.
pub struct StreamerView {
    pub framerate: u32,
    pub running: bool,
    pub frame_count: u64,
    pub error_count: u32,
}

/// The message of a streaming that ended after `count` failed captures.
pub open spec fn capture_failure_message(count: u32) -> Seq<char> {
    "Échec après "@ + decimal(count as nat) + " erreurs consécutives de capture"@
}

impl View for Streamer {
    type V = StreamerView;

    closed spec fn view(&self) -> StreamerView {
        StreamerView {
            framerate: self.framerate,
            running: self.running,
            frame_count: self.frame_count,
            error_count: self.error_count,
        }
    }
}

impl Streamer {
    /// Fewer captures failed in a row than end the streaming.
    pub open spec fn wf(&self) -> bool {
        self@.error_count < MAX_CAPTURE_ERRORS
    }

    /// A sender of `framerate` frames a second, at rest.
    pub fn new(framerate: u32) -> (streamer: Self)
        ensures
            streamer.wf(),
            streamer@ == (StreamerView {
                framerate,
                running: false,
                frame_count: 0,
                error_count: 0,
            }),
    {
        Streamer { framerate, running: false, frame_count: 0, error_count: 0 }
    }

    /// Starts the streaming, and gives the milliseconds between two frames.
    /// The rate must be between one and a thousand frames a second.
    pub fn start(&mut self) -> (interval_ms: u64)
        requires
            0 < old(self)@.framerate <= 1000,
        ensures
            final(self)@ == (StreamerView {
                running: true,
                frame_count: 0,
                error_count: 0,
                ..old(self)@
            }),
            interval_ms == 1000int / (old(self)@.framerate as int),
            interval_ms > 0,
    {
        self.running = true;
        self.frame_count = 0;
        self.error_count = 0;
        let rate = self.framerate as u64;
        assert(1000int / (rate as int) > 0) by (nonlinear_arith)
            requires
                0 < rate <= 1000,
        ;
        1000 / rate
    }

    /// Takes in how a capture ended; `failure` is `None` where a frame was
    /// captured. A captured frame is to be encoded, and the count of failures
    /// starts over. A failed capture is counted and the tick skipped; the
    /// fifth failure in a row ends the streaming.
    pub fn on_capture(&mut self, failure: Option<String>) -> (decision: CaptureDecision)
        requires
            old(self).wf(),
        ensures
            final(self).wf(),
            match failure {
                None => decision is Encode && final(self)@ == (StreamerView {
                    error_count: 0,
                    ..old(self)@
                }),
                Some(_) => if old(self)@.error_count + 1 >= MAX_CAPTURE_ERRORS {
                    final(self)@ == (StreamerView { running: false, error_count: 0, ..old(self)@ })
                        && (decision matches CaptureDecision::Stop(e) && e@ == plain(
                        ErrorKind::ScreenCapture,
                        capture_failure_message(MAX_CAPTURE_ERRORS),
                    ))
                } else {
                    decision is Skip && final(self)@ == (StreamerView {
                        error_count: (old(self)@.error_count + 1) as u32,
                        ..old(self)@
                    })
                },
            },
    {
        match failure {
            None => {
                self.error_count = 0;
                CaptureDecision::Encode
            },
            Some(_) => {
                let count = self.error_count + 1;
                if count >= MAX_CAPTURE_ERRORS {
                    self.error_count = 0;
                    self.running = false;
                    CaptureDecision::Stop(
                        GhostHandError::ScreenCapture(
                            concat3(
                                "Échec après ",
                                decimal_string(count as u64).as_str(),
                                " erreurs consécutives de capture",
                            ),
                        ),
                    )
                } else {
                    self.error_count = count;
                    CaptureDecision::Skip
                }
            },
        }
    }

    /// The message that carries an encoded frame: a video frame said to be a
    /// JPEG.
    pub fn frame_message(encoded: EncodedFrame) -> (message: ControlMessage)
        ensures
            message@ == (ControlView::VideoFrame {
                data: encoded.data@,
                width: encoded.width,
                height: encoded.height,
                timestamp: encoded.timestamp,
                format: "jpeg"@,
            }),
    {
        ControlMessage::VideoFrame {
            data: encoded.data,
            width: encoded.width,
            height: encoded.height,
            timestamp: encoded.timestamp,
            format: "jpeg".to_string(),
        }
    }

    /// Counts a frame that was handed to the channel, and tells, every ten
    /// seconds of frames, how many frames and seconds that makes.
    pub fn frame_sent(&mut self) -> (progress: Option<(u64, u64)>)
        requires
            old(self)@.framerate > 0,
        ensures
            final(self)@ == (StreamerView {
                frame_count: if old(self)@.frame_count == u64::MAX {
                    u64::MAX
                } else {
                    (old(self)@.frame_count + 1) as u64
                },
                ..old(self)@
            }),
            progress == if (final(self)@.frame_count as int) % (old(self)@.framerate
                * PROGRESS_REPORT_SECS) == 0 {
                Some(
                    (
                        final(self)@.frame_count,
                        ((final(self)@.frame_count as int) / (old(self)@.framerate as int)) as u64,
                    ),
                )
            } else {
                None::<(u64, u64)>
            },
    {
        if self.frame_count < u64::MAX {
            self.frame_count = self.frame_count + 1;
        }
        let period: u64 = self.framerate as u64 * PROGRESS_REPORT_SECS;
        if self.frame_count % period == 0 {
            Some((self.frame_count, self.frame_count / self.framerate as u64))
        } else {
            None
        }
    }

    /// Asks the streaming to end.
    pub fn stop(&mut self)
        ensures
            final(self)@ == (StreamerView { running: false, ..old(self)@ }),
    {
        self.running = false;
    }

    /// Whether the streaming runs.
    pub fn is_running(&self) -> (r: bool)
        ensures
            r == self@.running,
    {
        self.running
    }
}

/// The receiver of video.
#[derive(Debug)]
pub struct Receiver {
    webrtc: WebRTCConnection,
}

/// A video frame as it is handed to the display: the image, its width, its
/// height and its time stamp.
pub open spec fn displayed(message: Option<ControlView>) -> Option<(Seq<u8>, u32, u32, u64)> {
    match message {
        Some(ControlView::VideoFrame { data, width, height, timestamp, .. }) => Some(
            (data, width, height, timestamp),
        ),
        _ => None,
    }
}

impl Receiver {
    /// The peer channel that the receiver listens on.
    pub closed spec fn peer(&self) -> crate::peer::PeerView {
        self.webrtc@
    }

    /// A receiver on the peer channel `webrtc`.
    pub fn new(webrtc: WebRTCConnection) -> (receiver: Self)
        ensures
            receiver.peer() == webrtc@,
    {
        Receiver { webrtc }
    }

    /// Whether the receiving can start: only where the data channel is
    /// there.
    pub fn start(&self) -> (r: Result<()>)
        ensures
            if self.peer().data_channel {
                r is Ok
            } else {
                fails_with(r, channel_unavailable())
            },
    {
        self.webrtc.on_data_channel_message()
    }

    /// The video frame that came in with `data`, for the display; `None`
    /// where the data stands for another message or for none.
    pub fn frame_of(data: &[u8]) -> (r: Option<(Vec<u8>, u32, u32, u64)>)
        ensures
            match displayed(decoded_control(data@)) {
                Some((image, width, height, timestamp)) => r matches Some(frame) && frame.0@
                    == image && frame.1 == width && frame.2 == height && frame.3 == timestamp,
                None => r is None,
            },
    {
        match ControlMessage::from_bytes(data) {
            Ok(ControlMessage::VideoFrame { data, width, height, timestamp, format: _ }) => Some(
                (data, width, height, timestamp),
            ),
            _ => None,
        }
    }
}

/// The handler of the input that the controlling side sends.
#[derive(Debug)]
pub struct InputHandler {
    controller: InputController,
}

/// The mouse button of a name; `None` for a name of no button.
pub open spec fn button_named(name: Seq<char>) -> Option<MouseButton> {
    if name == "left"@ {
        Some(MouseButton::Left)
    } else if name == "right"@ {
        Some(MouseButton::Right)
    } else if name == "middle"@ {
        Some(MouseButton::Middle)
    } else {
        None
    }
}

/// The mouse event that a message stands for; `None` for a message that
/// stands for none, the click of an unknown button among them.
pub open spec fn mouse_event_of(message: ControlView) -> Option<MouseEvent> {
    match message {
        ControlView::MouseMove { x, y } => Some(MouseEvent::Move { x, y }),
        ControlView::MouseClick { button, pressed } => match button_named(button) {
            Some(button) => Some(
                if pressed {
                    MouseEvent::Press { button }
                } else {
                    MouseEvent::Release { button }
                },
            ),
            None => None,
        },
        ControlView::MouseScroll { delta } => Some(
            MouseEvent::Scroll { delta_x: 0, delta_y: delta },
        ),
        _ => None,
    }
}

fn button_of(name: &str) -> (r: Option<MouseButton>)
    ensures
        r == button_named(name@),
{
    if str_equal(name, "left") {
        Some(MouseButton::Left)
    } else if str_equal(name, "right") {
        Some(MouseButton::Right)
    } else if str_equal(name, "middle") {
        Some(MouseButton::Middle)
    } else {
        None
    }
}

impl InputHandler {
    /// The width of the screen that input is injected into.
    pub closed spec fn width(&self) -> i32 {
        self.controller.width()
    }

    /// The height of the screen that input is injected into.
    pub closed spec fn height(&self) -> i32 {
        self.controller.height()
    }

    /// Takes in how the making of the injector ended, for a screen of the
    /// default size.
    pub fn new(failure: Option<String>) -> (r: Result<Self>)
        ensures
            match failure {
                None => r matches Ok(handler) && handler.width()
                    == crate::input_control::DEFAULT_SCREEN_WIDTH && handler.height()
                    == crate::input_control::DEFAULT_SCREEN_HEIGHT,
                Some(reason) => fails_with(
                    r,
                    plain(
                        ErrorKind::InputControl,
                        "Failed to initialize input control: "@ + reason@,
                    ),
                ),
            },
    {
        match InputController::new(failure) {
            Ok(controller) => Ok(InputHandler { controller }),
            Err(error) => Err(error),
        }
    }

    /// Takes in how the making of the injector ended, for a screen of the
    /// given size.
    pub fn new_with_resolution(width: i32, height: i32, failure: Option<String>) -> (r: Result<
        Self,
    >)
        ensures
            match failure {
                None => r matches Ok(handler) && handler.width() == width && handler.height()
                    == height,
                Some(reason) => fails_with(
                    r,
                    plain(
                        ErrorKind::InputControl,
                        "Failed to initialize input control: "@ + reason@,
                    ),
                ),
            },
    {
        match InputController::new_with_resolution(width, height, failure) {
            Ok(controller) => Ok(InputHandler { controller }),
            Err(error) => Err(error),
        }
    }

    /// What is to be injected for a message of the controlling side: the
    /// actions of the mouse event or of the key press or release that it
    /// stands for, without modifiers; nothing for any other message. A press
    /// or release of a blocked key is refused and to be recorded.
    pub fn handle_message(&self, msg: ControlMessage) -> (decision: KeyboardDecision)
        ensures
            match msg@ {
                ControlView::KeyPress { key, pressed } => {
                    let event = if pressed {
                        KeyboardEvent::Press { key: msg->KeyPress_key }
                    } else {
                        KeyboardEvent::Release { key: msg->KeyPress_key }
                    };
                    if event_blocked(event, no_modifiers()) {
                        &&& fails_with(
                            decision.outcome,
                            plain(ErrorKind::InputControl, blocked_message(key)),
                        )
                        &&& records_blocked_key(decision.audit, key, no_modifiers())
                    } else {
                        &&& decision.outcome matches Ok(actions) && action_views(actions@)
                            == keyboard_actions(event, no_modifiers())
                        &&& decision.audit is None
                    }
                },
                other => decision.audit is None && (decision.outcome matches Ok(actions)
                    && action_views(actions@) == match mouse_event_of(other) {
                    Some(event) => mouse_actions(event, self.width(), self.height()),
                    None => Seq::<ActionView>::empty(),
                }),
            },
    {
        let event = match msg {
            ControlMessage::MouseMove { x, y } => Some(MouseEvent::Move { x, y }),
            ControlMessage::MouseClick { button, pressed } => match button_of(button.as_str()) {
                Some(button) => Some(
                    if pressed {
                        MouseEvent::Press { button }
                    } else {
                        MouseEvent::Release { button }
                    },
                ),
                None => None,
            },
            ControlMessage::MouseScroll { delta } => Some(
                MouseEvent::Scroll { delta_x: 0, delta_y: delta },
            ),
            ControlMessage::KeyPress { key, pressed } => {
                let modifiers = KeyModifiers::default();
                let event = if pressed {
                    KeyboardEvent::Press { key }
                } else {
                    KeyboardEvent::Release { key }
                };
                return self.controller.handle_keyboard_event(event, modifiers);
            },
            _ => None,
        };
        match event {
            Some(event) => KeyboardDecision {
                outcome: Ok(self.controller.handle_mouse_event(event)),
                audit: None,
            },
            None => {
                let actions: Vec<InputAction> = Vec::new();
                assert(action_views(actions@) =~= Seq::<ActionView>::empty());
                KeyboardDecision { outcome: Ok(actions), audit: None }
            },
        }
    }

    /// Whether the handler can be attached to the peer channel `webrtc`:
    /// only where the data channel is there.
    pub fn attach_to_webrtc(&self, webrtc: &WebRTCConnection) -> (r: Result<()>)
        ensures
            if webrtc@.data_channel {
                r is Ok
            } else {
                fails_with(r, channel_unavailable())
            },
    {
        webrtc.on_data_channel_message()
    }

    /// The message that came in with `data`; `None` where the data stands
    /// for none.
    pub fn message_of(data: &[u8]) -> (r: Option<ControlMessage>)
        ensures
            match decoded_control(data@) {
                Some(message) => r matches Some(m) && m@ == message,
                None => r is None,
            },
    {
        match ControlMessage::from_bytes(data) {
            Ok(message) => Some(message),
            Err(_) => None,
        }
    }
}

} // verus!
