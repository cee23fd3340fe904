//! Tests of command assembly and dispatch completion.
use direct_input::actions::{
    ActionsType, Command, ElementHandle, KeyAction, PointerAction, PointerOrigin, PointerType,
};
use direct_input::dispatch::{acknowledge, keyboard_command, mouse_command};
use direct_input::events::{KeyboardEvent, MouseButton, MouseButtonEvent, MouseEvent, MouseMoveEvent};

fn pointer_sequence(command: Command) -> (String, PointerType, Vec<PointerAction>) {
    let Command::PerformActions(parameters) = command;
    assert_eq!(parameters.actions.len(), 1, "expected exactly one action sequence");
    let sequence = parameters.actions.into_iter().next().unwrap();
    match sequence.actions {
        ActionsType::Pointer { pointer_type, actions } => (sequence.id, pointer_type, actions),
        ActionsType::Key { .. } => panic!("expected a pointer sequence"),
    }
}

fn key_sequence(command: Command) -> (String, Vec<KeyAction>) {
    let Command::PerformActions(parameters) = command;
    assert_eq!(parameters.actions.len(), 1, "expected exactly one action sequence");
    let sequence = parameters.actions.into_iter().next().unwrap();
    match sequence.actions {
        ActionsType::Key { actions } => (sequence.id, actions),
        ActionsType::Pointer { .. } => panic!("expected a key sequence"),
    }
}

#[test]
fn single_move_without_element() {
    let events = vec![MouseEvent::Move(MouseMoveEvent { x: 10, y: 20 })];
    let (id, pointer_type, actions) = pointer_sequence(mouse_command(None, events));
    assert_eq!(id, "default mouse");
    assert!(matches!(pointer_type, PointerType::Mouse));
    assert_eq!(actions.len(), 1);
    match &actions[0] {
        PointerAction::Move { duration, origin, x, y } => {
            assert!(duration.is_none());
            assert!(matches!(origin, PointerOrigin::Viewport));
            assert_eq!(*x, Some(10));
            assert_eq!(*y, Some(20));
        }
        other => panic!("expected a pointer move, got {:?}", other),
    }
}

#[test]
fn press_then_release_in_order() {
    let events = vec![
        MouseEvent::Button(MouseButtonEvent { pressed: true, button: MouseButton::Primary }),
        MouseEvent::Button(MouseButtonEvent { pressed: false, button: MouseButton::Primary }),
    ];
    let (id, _, actions) = pointer_sequence(mouse_command(None, events));
    assert_eq!(id, "default mouse");
    assert_eq!(actions.len(), 2);
    assert!(matches!(actions[0], PointerAction::Down { button: 0 }));
    assert!(matches!(actions[1], PointerAction::Up { button: 0 }));
}

#[test]
fn key_press_then_release_in_order() {
    let events = vec![
        KeyboardEvent { pressed: true, value: "a".to_string() },
        KeyboardEvent { pressed: false, value: "a".to_string() },
    ];
    let (id, actions) = key_sequence(keyboard_command(events));
    assert_eq!(id, "default keyboard");
    assert_eq!(actions.len(), 2);
    match &actions[0] {
        KeyAction::Down { value } => assert_eq!(value, "a"),
        other => panic!("expected a key down, got {:?}", other),
    }
    match &actions[1] {
        KeyAction::Up { value } => assert_eq!(value, "a"),
        other => panic!("expected a key up, got {:?}", other),
    }
}

#[test]
fn mixed_mouse_events_stay_in_order() {
    let handle = ElementHandle { id: "node-3".to_string() };
    let events = vec![
        MouseEvent::Move(MouseMoveEvent { x: 1, y: 2 }),
        MouseEvent::Button(MouseButtonEvent { pressed: true, button: MouseButton::Secondary }),
        MouseEvent::Move(MouseMoveEvent { x: -5, y: 6 }),
        MouseEvent::Button(MouseButtonEvent { pressed: false, button: MouseButton::Secondary }),
    ];
    let (_, _, actions) = pointer_sequence(mouse_command(Some(&handle), events));
    assert_eq!(actions.len(), 4);
    match &actions[0] {
        PointerAction::Move { origin, x, y, .. } => {
            match origin {
                PointerOrigin::Element(element) => assert_eq!(element.id, "node-3"),
                PointerOrigin::Viewport => panic!("expected the element origin"),
            }
            assert_eq!(*x, Some(1));
            assert_eq!(*y, Some(2));
        }
        other => panic!("expected a pointer move, got {:?}", other),
    }
    assert!(matches!(actions[1], PointerAction::Down { button: 2 }));
    match &actions[2] {
        PointerAction::Move { origin, x, y, .. } => {
            match origin {
                PointerOrigin::Element(element) => assert_eq!(element.id, "node-3"),
                PointerOrigin::Viewport => panic!("expected the element origin"),
            }
            assert_eq!(*x, Some(-5));
            assert_eq!(*y, Some(6));
        }
        other => panic!("expected a pointer move, got {:?}", other),
    }
    assert!(matches!(actions[3], PointerAction::Up { button: 2 }));
}

#[test]
fn empty_mouse_dispatch_yields_an_empty_sequence() {
    let (id, pointer_type, actions) = pointer_sequence(mouse_command(None, Vec::new()));
    assert_eq!(id, "default mouse");
    assert!(matches!(pointer_type, PointerType::Mouse));
    assert!(actions.is_empty());
}

#[test]
fn empty_keyboard_dispatch_yields_an_empty_sequence() {
    let (id, actions) = key_sequence(keyboard_command(Vec::new()));
    assert_eq!(id, "default keyboard");
    assert!(actions.is_empty());
}

#[test]
fn acknowledgement_discards_the_response_payload() {
    let outcome: Result<u32, String> = Ok(17);
    assert_eq!(acknowledge(outcome), Ok(()));
}

#[test]
fn failure_propagates_unchanged() {
    let outcome: Result<u32, String> = Err("command failed: session gone".to_string());
    assert_eq!(acknowledge(outcome), Err("command failed: session gone".to_string()));
}
