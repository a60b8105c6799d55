use ghost_hand_client::audit::AuditEvent;
use ghost_hand_client::error::GhostHandError;
use ghost_hand_client::input_control::{
    Axis, Direction, InputAction, InputController, KeyCode, KeyModifiers, KeyboardEvent,
    MouseButton, MouseEvent,
};

#[test]
fn test_input_controller_creation() {
    let result = InputController::new(None);
    assert!(result.is_ok());
}

#[test]
fn test_key_parsing() {
    assert!(InputController::parse_key("a").is_some());
    assert!(InputController::parse_key("enter").is_some());
    assert!(InputController::parse_key("ctrl").is_some());
    assert!(InputController::parse_key("f1").is_some());
}

#[test]
fn test_blocked_keys() {
    let modifiers = KeyModifiers::default();

    assert!(InputController::is_key_blocked("meta", &modifiers));
    assert!(InputController::is_key_blocked("super", &modifiers));
    assert!(InputController::is_key_blocked("windows", &modifiers));

    assert!(!InputController::is_key_blocked("a", &modifiers));
    assert!(!InputController::is_key_blocked("enter", &modifiers));
}

#[test]
fn test_blocked_combinations() {
    let mut modifiers = KeyModifiers::default();
    modifiers.meta = true;
    assert!(InputController::is_key_blocked("r", &modifiers));

    assert!(InputController::is_key_blocked("l", &modifiers));

    let mut modifiers2 = KeyModifiers::default();
    modifiers2.ctrl = true;
    modifiers2.alt = true;
    assert!(InputController::is_key_blocked("delete", &modifiers2));

    let mut modifiers3 = KeyModifiers::default();
    modifiers3.alt = true;
    assert!(InputController::is_key_blocked("f4", &modifiers3));
}

#[test]
fn test_safe_combinations() {
    let mut modifiers = KeyModifiers::default();
    modifiers.ctrl = true;
    assert!(!InputController::is_key_blocked("c", &modifiers));

    assert!(!InputController::is_key_blocked("v", &modifiers));

    let mut modifiers2 = KeyModifiers::default();
    modifiers2.alt = true;
    assert!(!InputController::is_key_blocked("tab", &modifiers2));
}

fn describe(actions: &[InputAction]) -> Vec<String> {
    actions.iter().map(|action| format!("{:?}", action)).collect()
}

#[test]
fn key_names_are_read_in_any_case() {
    assert_eq!(InputController::parse_key("Enter"), Some(KeyCode::Return));
    assert_eq!(InputController::parse_key("RETURN"), Some(KeyCode::Return));
    assert_eq!(InputController::parse_key("Esc"), Some(KeyCode::Escape));
    assert_eq!(InputController::parse_key("PageDown"), Some(KeyCode::PageDown));
    assert_eq!(InputController::parse_key("F12"), Some(KeyCode::F12));
    assert_eq!(InputController::parse_key("command"), Some(KeyCode::Meta));
    assert_eq!(InputController::parse_key("A"), Some(KeyCode::Unicode('a')));
    assert_eq!(InputController::parse_key("é"), Some(KeyCode::Unicode('é')));
    assert_eq!(InputController::parse_key("7"), Some(KeyCode::Unicode('7')));
    assert_eq!(InputController::parse_key(""), None);
    assert_eq!(InputController::parse_key("f13"), None);
    assert_eq!(InputController::parse_key("ab"), None);
    assert!(InputController::is_key_blocked("META", &KeyModifiers::default()));
    assert!(InputController::is_key_blocked("Command", &KeyModifiers::default()));
    let both = KeyModifiers { ctrl: true, alt: true, shift: false, meta: false };
    assert!(InputController::is_key_blocked("Del", &both));
    let ctrl = KeyModifiers { ctrl: true, alt: false, shift: false, meta: false };
    assert!(InputController::is_key_blocked("alt", &ctrl));
    assert!(InputController::is_key_blocked("shift", &ctrl));
    assert!(!InputController::is_key_blocked("delete", &ctrl));
}

#[test]
fn mouse_moves_stay_on_the_screen() {
    let controller = InputController::new_with_resolution(800, 600, None).unwrap();
    let cases = [
        ((10, 20), (10, 20)),
        ((-5, 20), (0, 20)),
        ((800, 600), (799, 599)),
        ((i32::MAX, i32::MIN), (799, 0)),
    ];
    for ((x, y), (want_x, want_y)) in cases {
        let actions = controller.handle_mouse_event(MouseEvent::Move { x, y });
        assert_eq!(actions.len(), 1);
        match actions[0] {
            InputAction::MoveMouse { x, y } => assert_eq!((x, y), (want_x, want_y)),
            ref other => panic!("expected a move, got {:?}", other),
        }
    }
    let default_size = InputController::new(None).unwrap();
    let actions = default_size.handle_mouse_event(MouseEvent::Move { x: 5000, y: 5000 });
    assert_eq!(describe(&actions), vec!["MoveMouse { x: 3839, y: 2159 }"]);
}

#[test]
fn mouse_buttons_and_wheel() {
    let mut controller = InputController::new(None).unwrap();
    controller.set_resolution(100, 100);
    let click = controller.handle_mouse_event(MouseEvent::Click { button: MouseButton::Right });
    assert_eq!(describe(&click), vec!["Button { button: Right, direction: Click }"]);
    let press = controller.handle_mouse_event(MouseEvent::Press { button: MouseButton::Left });
    assert_eq!(describe(&press), vec!["Button { button: Left, direction: Press }"]);
    let release =
        controller.handle_mouse_event(MouseEvent::Release { button: MouseButton::Middle });
    assert_eq!(describe(&release), vec!["Button { button: Middle, direction: Release }"]);

    let both = controller.handle_mouse_event(MouseEvent::Scroll { delta_x: 2, delta_y: -3 });
    assert_eq!(
        describe(&both),
        vec!["Scroll { length: -3, axis: Vertical }", "Scroll { length: 2, axis: Horizontal }"]
    );
    let none = controller.handle_mouse_event(MouseEvent::Scroll { delta_x: 0, delta_y: 0 });
    assert!(none.is_empty());
}

#[test]
fn keyboard_events_wrap_the_key_in_its_modifiers() {
    let controller = InputController::new(None).unwrap();
    let all = KeyModifiers { ctrl: true, shift: true, alt: true, meta: true };
    let decision =
        controller.handle_keyboard_event(KeyboardEvent::Press { key: "c".to_string() }, all);
    assert!(decision.audit.is_none());
    let actions = decision.outcome.unwrap();
    assert_eq!(
        describe(&actions),
        vec![
            "Modifier { key: Control, direction: Press }",
            "Modifier { key: Shift, direction: Press }",
            "Modifier { key: Alt, direction: Press }",
            "Modifier { key: Meta, direction: Press }",
            "Key { key: Unicode('c'), direction: Press }",
            "Modifier { key: Meta, direction: Release }",
            "Modifier { key: Alt, direction: Release }",
            "Modifier { key: Shift, direction: Release }",
            "Modifier { key: Control, direction: Release }",
        ]
    );

    let shift = KeyModifiers { shift: true, ..KeyModifiers::default() };
    let decision = controller
        .handle_keyboard_event(KeyboardEvent::Release { key: "nonsense".to_string() }, shift);
    // An unknown key is passed over; its modifiers are pressed and released all the same.
    assert_eq!(
        describe(&decision.outcome.unwrap()),
        vec![
            "Modifier { key: Shift, direction: Press }",
            "Modifier { key: Shift, direction: Release }",
        ]
    );

    let decision = controller.handle_keyboard_event(
        KeyboardEvent::Type { text: "meta".to_string() },
        KeyModifiers::default(),
    );
    assert_eq!(describe(&decision.outcome.unwrap()), vec!["Text { text: \"meta\" }"]);
}

#[test]
fn blocked_keys_are_refused_and_recorded() {
    let controller = InputController::new(None).unwrap();
    let held = KeyModifiers { ctrl: true, alt: true, shift: false, meta: false };
    let decision =
        controller.handle_keyboard_event(KeyboardEvent::Press { key: "Delete".to_string() }, held);
    match decision.outcome {
        Err(GhostHandError::InputControl(message)) => {
            assert_eq!(message, "Touche système bloquée pour sécurité: Delete")
        }
        other => panic!("expected a refusal, got {:?}", other),
    }
    match decision.audit {
        Some(AuditEvent::SecurityError { error_code, description, peer_id }) => {
            assert_eq!(error_code, "BLOCKED_KEY");
            assert_eq!(
                description,
                "Tentative d'utilisation d'une touche système bloquée: Delete (ctrl=true, alt=true, shift=false, meta=false)"
            );
            assert_eq!(peer_id, None);
        }
        other => panic!("expected a security record, got {:?}", other),
    }
    let release = controller.handle_keyboard_event(
        KeyboardEvent::Release { key: "super".to_string() },
        KeyModifiers::default(),
    );
    assert!(release.outcome.is_err());
}

#[test]
fn failures_are_reported_by_action() {
    let cases = [
        (InputAction::MoveMouse { x: 0, y: 0 }, "Failed to move mouse: x"),
        (
            InputAction::Button { button: MouseButton::Left, direction: Direction::Click },
            "Failed to click mouse: x",
        ),
        (
            InputAction::Button { button: MouseButton::Left, direction: Direction::Release },
            "Failed to release mouse: x",
        ),
        (InputAction::Scroll { length: 1, axis: Axis::Vertical }, "Failed to scroll: x"),
        (
            InputAction::Modifier { key: KeyCode::Control, direction: Direction::Press },
            "Failed to press Ctrl: x",
        ),
        (
            InputAction::Modifier { key: KeyCode::Meta, direction: Direction::Release },
            "Failed to release Meta: x",
        ),
        (
            InputAction::Key { key: KeyCode::Tab, direction: Direction::Press },
            "Failed to press key: x",
        ),
        (InputAction::Text { text: "t".to_string() }, "Failed to type text: x"),
    ];
    for (action, want) in cases {
        match InputController::failure(&action, "x") {
            GhostHandError::InputControl(message) => assert_eq!(message, want),
            other => panic!("expected an input error, got {:?}", other),
        }
    }
    match InputController::new(Some("no display".to_string())) {
        Err(GhostHandError::InputControl(message)) => {
            assert_eq!(message, "Failed to initialize input control: no display")
        }
        other => panic!("expected an input error, got {:?}", other),
    }
}
