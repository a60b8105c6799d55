//! Input control: which keys a remote peer may press, what a key name
//! stands for, and what is to be injected for each event. The injection
//! itself is done elsewhere.
use vstd::prelude::*;
use vstd::string::*;
use crate::audit::AuditEvent;
use crate::error::{fails_with, plain, ErrorKind, GhostHandError, Result};
use crate::text::{chars_of, concat, str_equal};

verus! {

/// Width of the screen assumed where none is given.
pub const DEFAULT_SCREEN_WIDTH: i32 = 3840;

/// Height of the screen assumed where none is given.
pub const DEFAULT_SCREEN_HEIGHT: i32 = 2160;

/// A mouse event
#[derive(Debug, Clone, Copy, PartialEq, Eq, Structural)]
pub enum MouseEvent {
    Move { x: i32, y: i32 },
    Click { button: MouseButton },
    Press { button: MouseButton },
    Release { button: MouseButton },
    Scroll { delta_x: i32, delta_y: i32 },
}

/// A button of the mouse
#[derive(Debug, Clone, Copy, PartialEq, Eq, Structural)]
pub enum MouseButton {
    Left,
    Right,
    Middle,
}

/// A keyboard event
#[derive(Debug)]
pub enum KeyboardEvent {
    Press { key: String },
    Release { key: String },
    Type { text: String },
}

/// The modifier keys held with a key
#[derive(Debug, Clone, Copy, PartialEq, Eq, Structural)]
pub struct KeyModifiers {
    pub ctrl: bool,
    pub shift: bool,
    pub alt: bool,
    pub meta: bool,
}

/// An input event
#[derive(Debug)]
pub enum InputEvent {
    Mouse(MouseEvent),
    Keyboard(KeyboardEvent),
}

/// A key of the keyboard.
#[derive(Debug, Clone, Copy, PartialEq, Eq, Structural)]
pub enum KeyCode {
    Unicode(char),
    Return,
    Tab,
    Space,
    Backspace,
    Delete,
    Escape,
    Control,
    Alt,
    Shift,
    Meta,
    UpArrow,
    DownArrow,
    LeftArrow,
    RightArrow,
    F1,
    F2,
    F3,
    F4,
    F5,
    F6,
    F7,
    F8,
    F9,
    F10,
    F11,
    F12,
    Home,
    End,
    PageUp,
    PageDown,
}

/// What is done with a key or a button.
#[derive(Debug, Clone, Copy, PartialEq, Eq, Structural)]
pub enum Direction {
    Press,
    Release,
    Click,
}

/// Along which axis the wheel turns.
#[derive(Debug, Clone, Copy, PartialEq, Eq, Structural)]
pub enum Axis {
    Horizontal,
    Vertical,
}

/// One thing to inject.
#[derive(Debug)]
pub enum InputAction {
    /// Move the pointer to this position of the screen.
    MoveMouse { x: i32, y: i32 },
    /// Press, release or click a mouse button.
    Button { button: MouseButton, direction: Direction },
    /// Turn the wheel.
    Scroll { length: i32, axis: Axis },
    /// Press or release a modifier key around the key of the event.
    Modifier { key: KeyCode, direction: Direction },
    /// Press or release the key of the event.
    Key { key: KeyCode, direction: Direction },
    /// Type a text.
    Text { text: String },
}

/// What an input action holds.
pub enum ActionView {
    MoveMouse { x: i32, y: i32 },
    Button { button: MouseButton, direction: Direction },
    Scroll { length: i32, axis: Axis },
    Modifier { key: KeyCode, direction: Direction },
    Key { key: KeyCode, direction: Direction },
    Text { text: Seq<char> },
}

impl View for InputAction {
    type V = ActionView;

    open spec fn view(&self) -> ActionView {
        match self {
            InputAction::MoveMouse { x, y } => ActionView::MoveMouse { x: *x, y: *y },
            InputAction::Button { button, direction } => ActionView::Button {
                button: *button,
                direction: *direction,
            },
            InputAction::Scroll { length, axis } => ActionView::Scroll {
                length: *length,
                axis: *axis,
            },
            InputAction::Modifier { key, direction } => ActionView::Modifier {
                key: *key,
                direction: *direction,
            },
            InputAction::Key { key, direction } => ActionView::Key {
                key: *key,
                direction: *direction,
            },
            InputAction::Text { text } => ActionView::Text { text: text@ },
        }
    }
}

/// What each of the actions holds.
pub open spec fn action_views(actions: Seq<InputAction>) -> Seq<ActionView> {
    Seq::new(actions.len(), |i: int| actions[i]@)
}

impl Default for KeyModifiers {
    fn default() -> (modifiers: Self)
        ensures
            modifiers == no_modifiers(),
    {
        KeyModifiers { ctrl: false, shift: false, alt: false, meta: false }
    }
}

/// No modifier key is held.
pub open spec fn no_modifiers() -> KeyModifiers {
    KeyModifiers { ctrl: false, shift: false, alt: false, meta: false }
}

/// The text in lower case, as `str::to_lowercase` gives it.
pub uninterp spec fn lowercase(text: Seq<char>) -> Seq<char>;

/// `str::to_lowercase` gives the text in lower case, which depends on the
/// text alone.
pub assume_specification[ str::to_lowercase ](text: &str) -> (lower: String)
    ensures
        lower@ == lowercase(text@),
;

/// A key in lower case is blocked under `modifiers`: the system key under
/// any of its names; `r`, `x`, `l` and `d` with the system key held; `alt`
/// and `shift` with control held; `f4` with alt held; `delete` and `del`
/// with control and alt held.
pub open spec fn key_blocked(key: Seq<char>, modifiers: KeyModifiers) -> bool {
    ||| key == "meta"@ || key == "super"@ || key == "windows"@ || key == "command"@
    ||| modifiers.meta && (key == "r"@ || key == "x"@ || key == "l"@ || key == "d"@)
    ||| modifiers.ctrl && (key == "alt"@ || key == "shift"@)
    ||| modifiers.alt && key == "f4"@
    ||| modifiers.ctrl && modifiers.alt && (key == "delete"@ || key == "del"@)
}

/// The key that a name in lower case stands for: one of the named keys, or
/// the only character of the name; `None` for any other name.
pub open spec fn key_named(name: Seq<char>) -> Option<KeyCode> {
    if name == "enter"@ || name == "return"@ {
        Some(KeyCode::Return)
    } else if name == "tab"@ {
        Some(KeyCode::Tab)
    } else if name == "space"@ {
        Some(KeyCode::Space)
    } else if name == "backspace"@ {
        Some(KeyCode::Backspace)
    } else if name == "delete"@ {
        Some(KeyCode::Delete)
    } else if name == "escape"@ || name == "esc"@ {
        Some(KeyCode::Escape)
    } else if name == "control"@ || name == "ctrl"@ {
        Some(KeyCode::Control)
    } else if name == "alt"@ {
        Some(KeyCode::Alt)
    } else if name == "shift"@ {
        Some(KeyCode::Shift)
    } else if name == "meta"@ || name == "super"@ || name == "windows"@ || name == "command"@ {
        Some(KeyCode::Meta)
    } else if name == "up"@ {
        Some(KeyCode::UpArrow)
    } else if name == "down"@ {
        Some(KeyCode::DownArrow)
    } else if name == "left"@ {
        Some(KeyCode::LeftArrow)
    } else if name == "right"@ {
        Some(KeyCode::RightArrow)
    } else if name == "f1"@ {
        Some(KeyCode::F1)
    } else if name == "f2"@ {
        Some(KeyCode::F2)
    } else if name == "f3"@ {
        Some(KeyCode::F3)
    } else if name == "f4"@ {
        Some(KeyCode::F4)
    } else if name == "f5"@ {
        Some(KeyCode::F5)
    } else if name == "f6"@ {
        Some(KeyCode::F6)
    } else if name == "f7"@ {
        Some(KeyCode::F7)
    } else if name == "f8"@ {
        Some(KeyCode::F8)
    } else if name == "f9"@ {
        Some(KeyCode::F9)
    } else if name == "f10"@ {
        Some(KeyCode::F10)
    } else if name == "f11"@ {
        Some(KeyCode::F11)
    } else if name == "f12"@ {
        Some(KeyCode::F12)
    } else if name == "home"@ {
        Some(KeyCode::Home)
    } else if name == "end"@ {
        Some(KeyCode::End)
    } else if name == "pageup"@ {
        Some(KeyCode::PageUp)
    } else if name == "pagedown"@ {
        Some(KeyCode::PageDown)
    } else if name.len() == 1 {
        Some(KeyCode::Unicode(name[0]))
    } else {
        None
    }
}

/// `x` kept between 0 and the last position of a screen `size` wide.
pub open spec fn clamped(x: i32, size: i32) -> i32 {
    let low = if x < 0 {
        0
    } else {
        x as int
    };
    let high = size - 1;
    let kept = if low > high {
        high
    } else {
        low
    };
    if kept < i32::MIN {
        i32::MIN
    } else {
        kept as i32
    }
}

/// What is injected for a mouse event on a screen of the given size: a move
/// goes to the position kept within the screen; a turn of the wheel is
/// injected for the vertical axis first, and for no axis at rest.
pub open spec fn mouse_actions(event: MouseEvent, width: i32, height: i32) -> Seq<ActionView> {
    match event {
        MouseEvent::Move { x, y } => seq![
            ActionView::MoveMouse { x: clamped(x, width), y: clamped(y, height) },
        ],
        MouseEvent::Click { button } => seq![
            ActionView::Button { button, direction: Direction::Click },
        ],
        MouseEvent::Press { button } => seq![
            ActionView::Button { button, direction: Direction::Press },
        ],
        MouseEvent::Release { button } => seq![
            ActionView::Button { button, direction: Direction::Release },
        ],
        MouseEvent::Scroll { delta_x, delta_y } => {
            let vertical = if delta_y != 0 {
                seq![ActionView::Scroll { length: delta_y, axis: Axis::Vertical }]
            } else {
                Seq::empty()
            };
            let horizontal = if delta_x != 0 {
                seq![ActionView::Scroll { length: delta_x, axis: Axis::Horizontal }]
            } else {
                Seq::empty()
            };
            vertical + horizontal
        },
    }
}

/// The pressing or releasing of a modifier key, where it is held.
pub open spec fn modifier_action(is_held: bool, key: KeyCode, direction: Direction) -> Seq<
    ActionView,
> {
    if is_held {
        seq![ActionView::Modifier { key, direction }]
    } else {
        Seq::empty()
    }
}

/// The pressing of the modifier keys that are held, in the order control,
/// shift, alt, system key.
pub open spec fn pressing(modifiers: KeyModifiers) -> Seq<ActionView> {
    modifier_action(modifiers.ctrl, KeyCode::Control, Direction::Press) + modifier_action(
        modifiers.shift,
        KeyCode::Shift,
        Direction::Press,
    ) + modifier_action(modifiers.alt, KeyCode::Alt, Direction::Press) + modifier_action(
        modifiers.meta,
        KeyCode::Meta,
        Direction::Press,
    )
}

/// The releasing of the modifier keys that are held, in the order system
/// key, alt, shift, control.
pub open spec fn releasing(modifiers: KeyModifiers) -> Seq<ActionView> {
    modifier_action(modifiers.meta, KeyCode::Meta, Direction::Release) + modifier_action(
        modifiers.alt,
        KeyCode::Alt,
        Direction::Release,
    ) + modifier_action(modifiers.shift, KeyCode::Shift, Direction::Release) + modifier_action(
        modifiers.ctrl,
        KeyCode::Control,
        Direction::Release,
    )
}

/// What is injected for the key of an event: the key that the name, in
/// lower case, stands for is pressed or released, and nothing where the name
/// stands for none; a text is typed.
pub open spec fn main_actions(event: KeyboardEvent) -> Seq<ActionView> {
    match event {
        KeyboardEvent::Press { key } => match key_named(lowercase(key@)) {
            Some(code) => seq![ActionView::Key { key: code, direction: Direction::Press }],
            None => Seq::empty(),
        },
        KeyboardEvent::Release { key } => match key_named(lowercase(key@)) {
            Some(code) => seq![ActionView::Key { key: code, direction: Direction::Release }],
            None => Seq::empty(),
        },
        KeyboardEvent::Type { text } => seq![ActionView::Text { text: text@ }],
    }
}

/// The key that an event presses or releases.
pub open spec fn key_of(event: KeyboardEvent) -> Option<Seq<char>> {
    match event {
        KeyboardEvent::Press { key } => Some(key@),
        KeyboardEvent::Release { key } => Some(key@),
        KeyboardEvent::Type { .. } => None,
    }
}

/// The event presses or releases a key that is blocked under `modifiers`.
pub open spec fn event_blocked(event: KeyboardEvent, modifiers: KeyModifiers) -> bool {
    match key_of(event) {
        Some(key) => key_blocked(lowercase(key), modifiers),
        None => false,
    }
}

/// What is injected for a keyboard event that is not blocked: the held
/// modifiers are pressed, then comes the key of the event, then the
/// modifiers are released in the opposite order.
pub open spec fn keyboard_actions(event: KeyboardEvent, modifiers: KeyModifiers) -> Seq<
    ActionView,
> {
    pressing(modifiers) + main_actions(event) + releasing(modifiers)
}

/// The message of a key that is blocked.
pub open spec fn blocked_message(key: Seq<char>) -> Seq<char> {
    "Touche système bloquée pour sécurité: "@ + key
}

/// What a keyboard event comes to: the actions to inject, or the error of a
/// blocked key together with the record of the attempt.
pub struct KeyboardDecision {
    pub outcome: Result<Vec<InputAction>>,
    pub audit: Option<AuditEvent>,
}

/// The words that report that an action could not be injected.
pub open spec fn failure_prefix(action: ActionView) -> Seq<char> {
    match action {
        ActionView::MoveMouse { .. } => "Failed to move mouse: "@,
        ActionView::Button { direction, .. } => match direction {
            Direction::Click => "Failed to click mouse: "@,
            Direction::Press => "Failed to press mouse: "@,
            Direction::Release => "Failed to release mouse: "@,
        },
        ActionView::Scroll { .. } => "Failed to scroll: "@,
        ActionView::Modifier { key, direction } => match (key, direction) {
            (KeyCode::Control, Direction::Release) => "Failed to release Ctrl: "@,
            (KeyCode::Control, _) => "Failed to press Ctrl: "@,
            (KeyCode::Shift, Direction::Release) => "Failed to release Shift: "@,
            (KeyCode::Shift, _) => "Failed to press Shift: "@,
            (KeyCode::Alt, Direction::Release) => "Failed to release Alt: "@,
            (KeyCode::Alt, _) => "Failed to press Alt: "@,
            (_, Direction::Release) => "Failed to release Meta: "@,
            (_, _) => "Failed to press Meta: "@,
        },
        ActionView::Key { direction, .. } => match direction {
            Direction::Release => "Failed to release key: "@,
            _ => "Failed to press key: "@,
        },
        ActionView::Text { .. } => "Failed to type text: "@,
    }
}

/// The controller of input: it knows the size of the screen.
#[derive(Debug)]
pub struct InputController {
    screen_width: i32,
    screen_height: i32,
}

/// A listener for the input of this side.
pub struct InputListener {}

impl InputListener {
    /// A listener at rest.
    pub fn new() -> (r: Result<Self>)
        ensures
            r is Ok,
    {
        Ok(InputListener {  })
    }
}

fn is_name(key: &str, name: &str) -> (r: bool)
    ensures
        r == (key@ == name@),
{
    str_equal(key, name)
}

impl InputController {
    /// The width of the screen.
    pub closed spec fn width(&self) -> i32 {
        self.screen_width
    }

    /// The height of the screen.
    pub closed spec fn height(&self) -> i32 {
        self.screen_height
    }

    /// Whether the key `key`, in whatever case, is blocked under
    /// `modifiers`.
    pub fn is_key_blocked(key: &str, modifiers: &KeyModifiers) -> (r: bool)
        ensures
            r == key_blocked(lowercase(key@), *modifiers),
    {
        let lower = key.to_lowercase();
        Self::is_lowered_key_blocked(lower.as_str(), modifiers)
    }

    /// Whether the key `key`, given in lower case, is blocked under
    /// `modifiers`.
    pub fn is_lowered_key_blocked(key: &str, modifiers: &KeyModifiers) -> (r: bool)
        ensures
            r == key_blocked(key@, *modifiers),
    {
        if is_name(key, "meta") || is_name(key, "super") || is_name(key, "windows") || is_name(
            key,
            "command",
        ) {
            return true;
        }
        if modifiers.meta && (is_name(key, "r") || is_name(key, "x") || is_name(key, "l")
            || is_name(key, "d")) {
            return true;
        }
        if modifiers.ctrl && (is_name(key, "alt") || is_name(key, "shift")) {
            return true;
        }
        if modifiers.alt && is_name(key, "f4") {
            return true;
        }
        if modifiers.ctrl && modifiers.alt && (is_name(key, "delete") || is_name(key, "del")) {
            return true;
        }
        false
    }

    /// Takes in how the making of the injector ended, for a screen of the
    /// default size; `failure` is `None` where it was made.
    pub fn new(failure: Option<String>) -> (r: Result<Self>)
        ensures
            match failure {
                None => r matches Ok(controller) && controller.width() == DEFAULT_SCREEN_WIDTH
                    && controller.height() == DEFAULT_SCREEN_HEIGHT,
                Some(reason) => fails_with(
                    r,
                    plain(
                        ErrorKind::InputControl,
                        "Failed to initialize input control: "@ + reason@,
                    ),
                ),
            },
    {
        Self::new_with_resolution(DEFAULT_SCREEN_WIDTH, DEFAULT_SCREEN_HEIGHT, failure)
    }

    /// Takes in how the making of the injector ended, for a screen of the
    /// given size; `failure` is `None` where it was made.
    pub fn new_with_resolution(screen_width: i32, screen_height: i32, failure: Option<String>)
        -> (r: Result<Self>)
        ensures
            match failure {
                None => r matches Ok(controller) && controller.width() == screen_width
                    && controller.height() == screen_height,
                Some(reason) => fails_with(
                    r,
                    plain(
                        ErrorKind::InputControl,
                        "Failed to initialize input control: "@ + reason@,
                    ),
                ),
            },
    {
        match failure {
            None => Ok(InputController { screen_width, screen_height }),
            Some(reason) => Err(
                GhostHandError::InputControl(
                    concat("Failed to initialize input control: ", reason.as_str()),
                ),
            ),
        }
    }

    /// Takes in the size of the screen.
    pub fn set_resolution(&mut self, width: i32, height: i32)
        ensures
            final(self).width() == width,
            final(self).height() == height,
    {
        self.screen_width = width;
        self.screen_height = height;
    }

    fn clamp(x: i32, size: i32) -> (r: i32)
        ensures
            r == clamped(x, size),
    {
        let low: i64 = if x < 0 {
            0
        } else {
            x as i64
        };
        let high: i64 = size as i64 - 1;
        let kept: i64 = if low > high {
            high
        } else {
            low
        };
        if kept < i32::MIN as i64 {
            i32::MIN
        } else {
            kept as i32
        }
    }

    /// What is to be injected for a mouse event.
    pub fn handle_mouse_event(&self, event: MouseEvent) -> (actions: Vec<InputAction>)
        ensures
            action_views(actions@) == mouse_actions(event, self.width(), self.height()),
    {
        let mut actions: Vec<InputAction> = Vec::new();
        match event {
            MouseEvent::Move { x, y } => {
                actions.push(
                    InputAction::MoveMouse {
                        x: Self::clamp(x, self.screen_width),
                        y: Self::clamp(y, self.screen_height),
                    },
                );
            },
            MouseEvent::Click { button } => {
                actions.push(InputAction::Button { button, direction: Direction::Click });
            },
            MouseEvent::Press { button } => {
                actions.push(InputAction::Button { button, direction: Direction::Press });
            },
            MouseEvent::Release { button } => {
                actions.push(InputAction::Button { button, direction: Direction::Release });
            },
            MouseEvent::Scroll { delta_x, delta_y } => {
                if delta_y != 0 {
                    actions.push(InputAction::Scroll { length: delta_y, axis: Axis::Vertical });
                }
                if delta_x != 0 {
                    actions.push(InputAction::Scroll { length: delta_x, axis: Axis::Horizontal });
                }
            },
        }
        assert(action_views(actions@) =~= mouse_actions(event, self.width(), self.height()));
        actions
    }

    /// The key that a name stands for, in whatever case.
    pub fn parse_key(key_str: &str) -> (r: Option<KeyCode>)
        ensures
            r == key_named(lowercase(key_str@)),
    {
        let lower = key_str.to_lowercase();
        Self::parse_lowered_key(lower.as_str())
    }

    /// The key that a name in lower case stands for.
    pub fn parse_lowered_key(name: &str) -> (r: Option<KeyCode>)
        ensures
            r == key_named(name@),
    {
        if is_name(name, "enter") || is_name(name, "return") {
            Some(KeyCode::Return)
        } else if is_name(name, "tab") {
            Some(KeyCode::Tab)
        } else if is_name(name, "space") {
            Some(KeyCode::Space)
        } else if is_name(name, "backspace") {
            Some(KeyCode::Backspace)
        } else if is_name(name, "delete") {
            Some(KeyCode::Delete)
        } else if is_name(name, "escape") || is_name(name, "esc") {
            Some(KeyCode::Escape)
        } else if is_name(name, "control") || is_name(name, "ctrl") {
            Some(KeyCode::Control)
        } else if is_name(name, "alt") {
            Some(KeyCode::Alt)
        } else if is_name(name, "shift") {
            Some(KeyCode::Shift)
        } else if is_name(name, "meta") || is_name(name, "super") || is_name(name, "windows")
            || is_name(name, "command") {
            Some(KeyCode::Meta)
        } else if is_name(name, "up") {
            Some(KeyCode::UpArrow)
        } else if is_name(name, "down") {
            Some(KeyCode::DownArrow)
        } else if is_name(name, "left") {
            Some(KeyCode::LeftArrow)
        } else if is_name(name, "right") {
            Some(KeyCode::RightArrow)
        } else if is_name(name, "f1") {
            Some(KeyCode::F1)
        } else if is_name(name, "f2") {
            Some(KeyCode::F2)
        } else if is_name(name, "f3") {
            Some(KeyCode::F3)
        } else if is_name(name, "f4") {
            Some(KeyCode::F4)
        } else if is_name(name, "f5") {
            Some(KeyCode::F5)
        } else if is_name(name, "f6") {
            Some(KeyCode::F6)
        } else if is_name(name, "f7") {
            Some(KeyCode::F7)
        } else if is_name(name, "f8") {
            Some(KeyCode::F8)
        } else if is_name(name, "f9") {
            Some(KeyCode::F9)
        } else if is_name(name, "f10") {
            Some(KeyCode::F10)
        } else if is_name(name, "f11") {
            Some(KeyCode::F11)
        } else if is_name(name, "f12") {
            Some(KeyCode::F12)
        } else if is_name(name, "home") {
            Some(KeyCode::Home)
        } else if is_name(name, "end") {
            Some(KeyCode::End)
        } else if is_name(name, "pageup") {
            Some(KeyCode::PageUp)
        } else if is_name(name, "pagedown") {
            Some(KeyCode::PageDown)
        } else {
            let chars = chars_of(name);
            if chars.len() == 1 {
                Some(KeyCode::Unicode(chars[0]))
            } else {
                None
            }
        }
    }

    /// The error that reports that `action` could not be injected for
    /// `reason`.
    pub fn failure(action: &InputAction, reason: &str) -> (e: GhostHandError)
        ensures
            e@ == plain(ErrorKind::InputControl, failure_prefix(action@) + reason@),
    {
        let prefix: &str = match action {
            InputAction::MoveMouse { .. } => "Failed to move mouse: ",
            InputAction::Button { direction, .. } => match direction {
                Direction::Click => "Failed to click mouse: ",
                Direction::Press => "Failed to press mouse: ",
                Direction::Release => "Failed to release mouse: ",
            },
            InputAction::Scroll { .. } => "Failed to scroll: ",
            InputAction::Modifier { key, direction } => match (key, direction) {
                (KeyCode::Control, Direction::Release) => "Failed to release Ctrl: ",
                (KeyCode::Control, _) => "Failed to press Ctrl: ",
                (KeyCode::Shift, Direction::Release) => "Failed to release Shift: ",
                (KeyCode::Shift, _) => "Failed to press Shift: ",
                (KeyCode::Alt, Direction::Release) => "Failed to release Alt: ",
                (KeyCode::Alt, _) => "Failed to press Alt: ",
                (_, Direction::Release) => "Failed to release Meta: ",
                (_, _) => "Failed to press Meta: ",
            },
            InputAction::Key { direction, .. } => match direction {
                Direction::Release => "Failed to release key: ",
                _ => "Failed to press key: ",
            },
            InputAction::Text { .. } => "Failed to type text: ",
        };
        GhostHandError::InputControl(concat(prefix, reason))
    }
}


/// The word for a truth value.
pub open spec fn truth_word(b: bool) -> Seq<char> {
    if b {
        "true"@
    } else {
        "false"@
    }
}

/// What is recorded of an attempt to use a blocked key.
pub open spec fn blocked_description(key: Seq<char>, modifiers: KeyModifiers) -> Seq<char> {
    "Tentative d'utilisation d'une touche système bloquée: "@ + key + " (ctrl="@ + truth_word(
        modifiers.ctrl,
    ) + ", alt="@ + truth_word(modifiers.alt) + ", shift="@ + truth_word(modifiers.shift)
        + ", meta="@ + truth_word(modifiers.meta) + ")"@
}

/// The record is that of an attempt to use the blocked key `key`.
pub open spec fn records_blocked_key(
    audit: Option<AuditEvent>,
    key: Seq<char>,
    modifiers: KeyModifiers,
) -> bool {
    audit matches Some(AuditEvent::SecurityError { error_code, description, peer_id })
        && error_code@ == "BLOCKED_KEY"@ && description@ == blocked_description(key, modifiers)
        && peer_id is None
}

fn word(b: bool) -> (w: &'static str)
    ensures
        w@ == truth_word(b),
{
    if b {
        "true"
    } else {
        "false"
    }
}

fn push_modifier(actions: &mut Vec<InputAction>, held: bool, key: KeyCode, direction: Direction)
    ensures
        action_views(final(actions)@) == action_views(old(actions)@) + modifier_action(
            held,
            key,
            direction,
        ),
{
    if held {
        actions.push(InputAction::Modifier { key, direction });
        assert(action_views(actions@) =~= action_views(old(actions)@) + seq![
            ActionView::Modifier { key, direction },
        ]);
    } else {
        assert(action_views(actions@) =~= action_views(old(actions)@) + Seq::<
            ActionView,
        >::empty());
    }
}

impl InputController {
    fn blocked(key: &String, modifiers: KeyModifiers) -> (decision: KeyboardDecision)
        ensures
            fails_with(
                decision.outcome,
                plain(ErrorKind::InputControl, blocked_message(key@)),
            ),
            records_blocked_key(decision.audit, key@, modifiers),
    {
        let mut description = String::from_str(
            "Tentative d'utilisation d'une touche système bloquée: ",
        );
        description.append(key.as_str());
        description.append(" (ctrl=");
        description.append(word(modifiers.ctrl));
        description.append(", alt=");
        description.append(word(modifiers.alt));
        description.append(", shift=");
        description.append(word(modifiers.shift));
        description.append(", meta=");
        description.append(word(modifiers.meta));
        description.append(")");
        KeyboardDecision {
            outcome: Err(
                GhostHandError::InputControl(
                    concat("Touche système bloquée pour sécurité: ", key.as_str()),
                ),
            ),
            audit: Some(
                AuditEvent::SecurityError {
                    error_code: "BLOCKED_KEY".to_string(),
                    description,
                    peer_id: None,
                },
            ),
        }
    }

    /// What a keyboard event comes to under `modifiers`. A press or release
    /// of a blocked key is refused, and the attempt is to be recorded.
    /// Otherwise the held modifiers are pressed, the key of the event is
    /// pressed or released, or the text typed, and the modifiers are
    /// released in the opposite order.
    pub fn handle_keyboard_event(&self, event: KeyboardEvent, modifiers: KeyModifiers) -> (decision:
        KeyboardDecision)
        ensures
            if event_blocked(event, modifiers) {
                &&& fails_with(
                    decision.outcome,
                    plain(ErrorKind::InputControl, blocked_message(key_of(event).unwrap())),
                )
                &&& records_blocked_key(decision.audit, key_of(event).unwrap(), modifiers)
            } else {
                &&& decision.outcome matches Ok(actions) && action_views(actions@)
                    == keyboard_actions(event, modifiers)
                &&& decision.audit is None
            },
    {
        match &event {
            KeyboardEvent::Press { key } => {
                if Self::is_key_blocked(key.as_str(), &modifiers) {
                    return Self::blocked(key, modifiers);
                }
            },
            KeyboardEvent::Release { key } => {
                if Self::is_key_blocked(key.as_str(), &modifiers) {
                    return Self::blocked(key, modifiers);
                }
            },
            KeyboardEvent::Type { .. } => {},
        }
        let mut actions: Vec<InputAction> = Vec::new();
        assert(action_views(actions@) =~= Seq::<ActionView>::empty());
        push_modifier(&mut actions, modifiers.ctrl, KeyCode::Control, Direction::Press);
        push_modifier(&mut actions, modifiers.shift, KeyCode::Shift, Direction::Press);
        push_modifier(&mut actions, modifiers.alt, KeyCode::Alt, Direction::Press);
        push_modifier(&mut actions, modifiers.meta, KeyCode::Meta, Direction::Press);
        assert(action_views(actions@) =~= pressing(modifiers));
        let ghost pressed = action_views(actions@);
        match event {
            KeyboardEvent::Press { key } => {
                match Self::parse_key(key.as_str()) {
                    Some(code) => {
                        actions.push(InputAction::Key { key: code, direction: Direction::Press });
                    },
                    None => {},
                }
            },
            KeyboardEvent::Release { key } => {
                match Self::parse_key(key.as_str()) {
                    Some(code) => {
                        actions.push(
                            InputAction::Key { key: code, direction: Direction::Release },
                        );
                    },
                    None => {},
                }
            },
            KeyboardEvent::Type { text } => {
                actions.push(InputAction::Text { text });
            },
        }
        assert(action_views(actions@) =~= pressed + main_actions(event));
        let ghost done = action_views(actions@);
        push_modifier(&mut actions, modifiers.meta, KeyCode::Meta, Direction::Release);
        push_modifier(&mut actions, modifiers.alt, KeyCode::Alt, Direction::Release);
        push_modifier(&mut actions, modifiers.shift, KeyCode::Shift, Direction::Release);
        push_modifier(&mut actions, modifiers.ctrl, KeyCode::Control, Direction::Release);
        assert(action_views(actions@) =~= done + releasing(modifiers));
        KeyboardDecision { outcome: Ok(actions), audit: None }
    }
}

/// The system key is blocked under all its names, whatever is held with it;
/// and so are delete and del while control and alt are held.
pub proof fn lemma_system_keys_blocked(modifiers: KeyModifiers)
    ensures
        key_blocked("meta"@, modifiers),
        key_blocked("super"@, modifiers),
        key_blocked("windows"@, modifiers),
        key_blocked("command"@, modifiers),
        modifiers.ctrl && modifiers.alt ==> key_blocked("delete"@, modifiers) && key_blocked(
            "del"@,
            modifiers,
        ),
        modifiers.meta ==> key_blocked("r"@, modifiers) && key_blocked("l"@, modifiers),
        modifiers.alt ==> key_blocked("f4"@, modifiers),
{
}

/// What is injected for a keyboard event releases every modifier that it
/// pressed, the one pressed last first.
pub proof fn lemma_modifiers_balanced(modifiers: KeyModifiers)
    ensures
        releasing(modifiers).len() == pressing(modifiers).len(),
        forall|i: int|
            0 <= i < pressing(modifiers).len() ==> mirrored(
                #[trigger] pressing(modifiers)[i],
                releasing(modifiers)[pressing(modifiers).len() - 1 - i],
            ),
{
}

/// `release` releases the modifier key that `press` presses.
pub open spec fn mirrored(press: ActionView, release: ActionView) -> bool {
    press matches ActionView::Modifier { key, direction: Direction::Press } && release
        == (ActionView::Modifier { key, direction: Direction::Release })
}

} // verus!
