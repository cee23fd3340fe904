//! Event-to-action translation: the pure, one-to-one map from a semantic
//! input event to the protocol action shape it stands for.
use vstd::prelude::*;

use crate::actions::{
    ElementHandle, KeyAction, KeyActionModel, OriginModel, PointerAction, PointerActionModel,
    PointerOrigin,
};
use crate::events::{button_code, KeyboardEvent, MouseEvent};

verus! {

/// The coordinate origin that a pointer move measures from: the given
/// element when a reference element is supplied, else the viewport.
pub open spec fn origin_model(root: Option<Seq<char>>) -> OriginModel {
    match root {
        Option::None => OriginModel::Viewport,
        Option::Some(id) => OriginModel::Element(id),
    }
}

/// The identifier of a reference element, when one is supplied.
pub open spec fn root_id(root: Option<&ElementHandle>) -> Option<Seq<char>> {
    match root {
        Option::None => Option::None,
        Option::Some(handle) => Option::Some(handle@),
    }
}

/// The pointer action a mouse event stands for, relative to the given
/// origin: a move carries the event's coordinates unchanged and no explicit
/// duration; a button event becomes a press or a release of the button's
/// numeric code.
pub open spec fn mouse_action_model(root: Option<Seq<char>>, event: MouseEvent) -> PointerActionModel {
    match event {
        MouseEvent::Move(move_event) => PointerActionModel::Move {
            duration: Option::None,
            origin: origin_model(root),
            x: Option::Some(move_event.x),
            y: Option::Some(move_event.y),
        },
        MouseEvent::Button(button_event) => if button_event.pressed {
            PointerActionModel::Down { button: button_code(button_event.button) }
        } else {
            PointerActionModel::Up { button: button_code(button_event.button) }
        },
    }
}

/// The key action a keyboard event stands for: a press or a release carrying
/// the event's key value unchanged.
pub open spec fn key_action_model(event: KeyboardEvent) -> KeyActionModel {
    if event.pressed {
        KeyActionModel::Down { value: event.value@ }
    } else {
        KeyActionModel::Up { value: event.value@ }
    }
}

/// Translate one mouse event into the pointer action it stands for.
///
/// The translation is pure and cannot fail: a move keeps its coordinates
/// exactly and measures them from the reference element when one is given,
/// else from the viewport; a button event becomes a pointer down (pressed)
/// or pointer up (released) carrying the button's numeric code.
pub fn make_mouse_action(root: Option<&ElementHandle>, event: MouseEvent) -> (action: PointerAction)
    ensures
        action@ == mouse_action_model(root_id(root), event),
{
    let origin = match root {
        Option::None => PointerOrigin::Viewport,
        Option::Some(handle) => PointerOrigin::Element(handle.duplicate()),
    };
    match event {
        MouseEvent::Move(move_event) => PointerAction::Move {
            duration: Option::None,
            origin,
            x: Option::Some(move_event.x),
            y: Option::Some(move_event.y),
        },
        MouseEvent::Button(button_event) => {
            let button = button_event.button.to_number();
            if button_event.pressed {
                PointerAction::Down { button }
            } else {
                PointerAction::Up { button }
            }
        },
    }
}

/// Translate one keyboard event into the key action it stands for.
///
/// The translation is pure and cannot fail: the key value passes through
/// unmodified, and the pressed flag picks a key down or a key up.
pub fn make_key_action(event: KeyboardEvent) -> (action: KeyAction)
    ensures
        action@ == key_action_model(event),
{
    if event.pressed {
        KeyAction::Down { value: event.value }
    } else {
        KeyAction::Up { value: event.value }
    }
}

} // verus!
