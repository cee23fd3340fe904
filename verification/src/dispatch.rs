//! Command assembly: translate an ordered sequence of events, collect the
//! translations into a single named action sequence, and wrap it in the
//! command envelope that the session transport submits.
//!
//! Submitting the command is the caller's business: the caller hands the
//! assembled [`Command`] to its transport and completes the dispatch with
//! [`acknowledge`], so any transport failure propagates unchanged.
use vstd::prelude::*;

use crate::actions::{
    ActionSequence, ActionSequenceModel, ActionsParameters, ActionsParametersModel, ActionsType,
    ActionsTypeModel, Command, CommandModel, ElementHandle, KeyAction, PointerAction, PointerType,
};
use crate::events::{KeyboardEvent, MouseEvent};
use crate::translate::{key_action_model, make_key_action, make_mouse_action, mouse_action_model, root_id};

verus! {

/// The command a mouse dispatch submits: one pointer-action sequence for the
/// fixed logical device "default mouse", holding the translation of each
/// event, in the events' own order.
pub open spec fn mouse_command_model(root: Option<Seq<char>>, events: Seq<MouseEvent>) -> CommandModel {
    CommandModel::PerformActions(
        ActionsParametersModel {
            actions: seq![
                ActionSequenceModel {
                    id: "default mouse"@,
                    actions: ActionsTypeModel::Pointer {
                        pointer_type: PointerType::Mouse,
                        actions: events.map(|i: int, event: MouseEvent| mouse_action_model(root, event)),
                    },
                },
            ],
        },
    )
}

/// The command a keyboard dispatch submits: one key-action sequence for the
/// fixed logical device "default keyboard", holding the translation of each
/// event, in the events' own order.
pub open spec fn keyboard_command_model(events: Seq<KeyboardEvent>) -> CommandModel {
    CommandModel::PerformActions(
        ActionsParametersModel {
            actions: seq![
                ActionSequenceModel {
                    id: "default keyboard"@,
                    actions: ActionsTypeModel::Key {
                        actions: events.map(|i: int, event: KeyboardEvent| key_action_model(event)),
                    },
                },
            ],
        },
    )
}

/// Assemble the command that performs the given mouse events.
///
/// Each event is translated in order — the command holds exactly one pointer
/// action per event, each correct per the translation rules — into a single
/// mouse-type pointer sequence tagged with the fixed device id. When a
/// reference element is supplied every move is measured from it, else from
/// the viewport. Assembly is pure and cannot fail.
pub fn mouse_command(root: Option<&ElementHandle>, events: Vec<MouseEvent>) -> (command: Command)
    ensures
        command@ == mouse_command_model(root_id(root), events@),
{
    let mut translated: Vec<PointerAction> = Vec::new();
    let mut i: usize = 0;
    while i < events.len()
        invariant
            i <= events@.len(),
            translated@.len() == i,
            forall|j: int|
                0 <= j < i ==> translated@[j]@ == mouse_action_model(root_id(root), events@[j]),
        decreases events@.len() - i,
    {
        let event = events[i];
        translated.push(make_mouse_action(root, event));
        i = i + 1;
    }
    let sequence = ActionSequence {
        id: "default mouse".to_owned(),
        actions: ActionsType::Pointer { pointer_type: PointerType::Mouse, actions: translated },
    };
    let mut sequences: Vec<ActionSequence> = Vec::new();
    sequences.push(sequence);
    let command = Command::PerformActions(ActionsParameters { actions: sequences });
    proof {
        assert(command@ =~~= mouse_command_model(root_id(root), events@));
    }
    command
}

/// Assemble the command that performs the given keyboard events.
///
/// Each event is translated in order — the command holds exactly one key
/// action per event, each correct per the translation rules — into a single
/// key sequence tagged with the fixed device id. Assembly is pure and cannot
/// fail.
pub fn keyboard_command(events: Vec<KeyboardEvent>) -> (command: Command)
    ensures
        command@ == keyboard_command_model(events@),
{
    let mut translated: Vec<KeyAction> = Vec::new();
    let mut i: usize = 0;
    while i < events.len()
        invariant
            i <= events@.len(),
            translated@.len() == i,
            forall|j: int| 0 <= j < i ==> translated@[j]@ == key_action_model(events@[j]),
        decreases events@.len() - i,
    {
        let event = KeyboardEvent { pressed: events[i].pressed, value: events[i].value.clone() };
        translated.push(make_key_action(event));
        i = i + 1;
    }
    let sequence = ActionSequence {
        id: "default keyboard".to_owned(),
        actions: ActionsType::Key { actions: translated },
    };
    let mut sequences: Vec<ActionSequence> = Vec::new();
    sequences.push(sequence);
    let command = Command::PerformActions(ActionsParameters { actions: sequences });
    proof {
        assert(command@ =~~= keyboard_command_model(events@));
    }
    command
}

/// Complete a dispatch from the transport's outcome.
///
/// The remote session's acknowledgement carries no payload this library
/// consumes, so success resolves with no value; a transport failure
/// propagates to the caller unchanged. Nothing is retried or downgraded.
pub fn acknowledge<Body, Failure>(outcome: Result<Body, Failure>) -> (completion: Result<(), Failure>)
    ensures
        completion is Ok <==> outcome is Ok,
        outcome matches Err(failure) ==> completion == Result::<(), Failure>::Err(failure),
{
    match outcome {
        Result::Ok(_) => Result::Ok(()),
        Result::Err(failure) => Result::Err(failure),
    }
}

} // verus!
