//! The wire-level action shapes of the remote automation protocol, and the
//! mathematical model (`view`) of each shape that the contracts speak of.
//!
//! An action sequence is an ordered, named list of input actions for one
//! logical input device; pointer sequences additionally carry the pointer
//! type. The models abstract every string to its character sequence and keep
//! the rest of the data as it stands.
use vstd::prelude::*;

verus! {

/// An opaque handle identifying a DOM node in the remote session, used only
/// as a coordinate-origin reference. The handle's identifier is issued by the
/// remote session; this library never reads or alters it.
#[derive(Clone, Debug)]
pub struct ElementHandle {
    /// The remote session's identifier for the element.
    pub id: String,
}

impl View for ElementHandle {
    type V = Seq<char>;

    open spec fn view(&self) -> Seq<char> {
        self.id@
    }
}

impl ElementHandle {
    /// A copy of the handle, referring to the same remote element.
    pub fn duplicate(&self) -> (other: ElementHandle)
        ensures
            other@ == self@,
    {
        ElementHandle { id: self.id.clone() }
    }
}

/// The coordinate reference frame of a pointer move: the viewport, or a
/// specific element.
#[derive(Clone, Debug)]
pub enum PointerOrigin {
    /// Coordinates are offsets from the viewport's origin.
    Viewport,
    /// Coordinates are offsets from the given element.
    Element(ElementHandle),
}

/// Model of a pointer-move origin.
#[verifier::ext_equal]
pub enum OriginModel {
    /// Offsets from the viewport's origin.
    Viewport,
    /// Offsets from the element with the given identifier.
    Element(Seq<char>),
}

impl View for PointerOrigin {
    type V = OriginModel;

    open spec fn view(&self) -> OriginModel {
        match self {
            PointerOrigin::Viewport => OriginModel::Viewport,
            PointerOrigin::Element(handle) => OriginModel::Element(handle@),
        }
    }
}

/// One pointer action: what a single entry of a pointer-action sequence asks
/// the remote session to do.
#[derive(Clone, Debug)]
pub enum PointerAction {
    /// Move the pointer to (x, y), measured from the origin. A duration of
    /// `None` leaves the protocol's default move duration in force.
    Move {
        /// How long the move should take, in milliseconds.
        duration: Option<u64>,
        /// The coordinate reference frame of x and y.
        origin: PointerOrigin,
        /// Target x offset from the origin.
        x: Option<i64>,
        /// Target y offset from the origin.
        y: Option<i64>,
    },
    /// Press the button with the given numeric code.
    Down {
        /// The protocol's numeric button code.
        button: u64,
    },
    /// Release the button with the given numeric code.
    Up {
        /// The protocol's numeric button code.
        button: u64,
    },
}

/// Model of one pointer action.
#[verifier::ext_equal]
pub enum PointerActionModel {
    /// Move the pointer to (x, y), measured from the origin.
    Move { duration: Option<u64>, origin: OriginModel, x: Option<i64>, y: Option<i64> },
    /// Press the button with the given numeric code.
    Down { button: u64 },
    /// Release the button with the given numeric code.
    Up { button: u64 },
}

impl View for PointerAction {
    type V = PointerActionModel;

    open spec fn view(&self) -> PointerActionModel {
        match self {
            PointerAction::Move { duration, origin, x, y } => PointerActionModel::Move {
                duration: *duration,
                origin: origin@,
                x: *x,
                y: *y,
            },
            PointerAction::Down { button } => PointerActionModel::Down { button: *button },
            PointerAction::Up { button } => PointerActionModel::Up { button: *button },
        }
    }
}

/// One key action: what a single entry of a key-action sequence asks the
/// remote session to do.
#[derive(Clone, Debug)]
pub enum KeyAction {
    /// Press the key identified by the value string.
    Down {
        /// The key being pressed, as the protocol names it.
        value: String,
    },
    /// Release the key identified by the value string.
    Up {
        /// The key being released, as the protocol names it.
        value: String,
    },
}

/// Model of one key action.
#[verifier::ext_equal]
pub enum KeyActionModel {
    /// Press the key identified by the value.
    Down { value: Seq<char> },
    /// Release the key identified by the value.
    Up { value: Seq<char> },
}

impl View for KeyAction {
    type V = KeyActionModel;

    open spec fn view(&self) -> KeyActionModel {
        match self {
            KeyAction::Down { value } => KeyActionModel::Down { value: value@ },
            KeyAction::Up { value } => KeyActionModel::Up { value: value@ },
        }
    }
}

/// The kind of pointer device a pointer-action sequence belongs to.
#[derive(Clone, Copy, Debug)]
pub enum PointerType {
    /// A mouse pointer.
    Mouse,
}

/// The actions of one sequence, tagged with the device kind they drive.
#[derive(Clone, Debug)]
pub enum ActionsType {
    /// An ordered list of pointer actions, with the pointer's parameters.
    Pointer {
        /// The kind of pointer device.
        pointer_type: PointerType,
        /// The pointer actions, executed in order.
        actions: Vec<PointerAction>,
    },
    /// An ordered list of key actions.
    Key {
        /// The key actions, executed in order.
        actions: Vec<KeyAction>,
    },
}

/// Model of a sequence's actions.
#[verifier::ext_equal]
pub enum ActionsTypeModel {
    /// Pointer actions, in order, with the pointer's kind.
    Pointer { pointer_type: PointerType, actions: Seq<PointerActionModel> },
    /// Key actions, in order.
    Key { actions: Seq<KeyActionModel> },
}

impl View for ActionsType {
    type V = ActionsTypeModel;

    open spec fn view(&self) -> ActionsTypeModel {
        match self {
            ActionsType::Pointer { pointer_type, actions } => ActionsTypeModel::Pointer {
                pointer_type: *pointer_type,
                actions: actions@.map(|i: int, a: PointerAction| a@),
            },
            ActionsType::Key { actions } => ActionsTypeModel::Key {
                actions: actions@.map(|i: int, a: KeyAction| a@),
            },
        }
    }
}

/// An action sequence: an ordered, named list of input actions for one
/// logical input device. The id must stay stable across calls, since the
/// remote session may track per-device input state by it.
#[derive(Clone, Debug)]
pub struct ActionSequence {
    /// The logical input device the actions belong to.
    pub id: String,
    /// The device's actions, executed in order.
    pub actions: ActionsType,
}

/// Model of an action sequence.
#[verifier::ext_equal]
pub struct ActionSequenceModel {
    /// The logical input device the actions belong to.
    pub id: Seq<char>,
    /// The device's actions, in order.
    pub actions: ActionsTypeModel,
}

impl View for ActionSequence {
    type V = ActionSequenceModel;

    open spec fn view(&self) -> ActionSequenceModel {
        ActionSequenceModel { id: self.id@, actions: self.actions@ }
    }
}

/// The parameters of a "perform actions" command: one or more action
/// sequences, executed together.
#[derive(Clone, Debug)]
pub struct ActionsParameters {
    /// The action sequences to perform.
    pub actions: Vec<ActionSequence>,
}

/// Model of the parameters of a "perform actions" command.
#[verifier::ext_equal]
pub struct ActionsParametersModel {
    /// The action sequences to perform.
    pub actions: Seq<ActionSequenceModel>,
}

impl View for ActionsParameters {
    type V = ActionsParametersModel;

    open spec fn view(&self) -> ActionsParametersModel {
        ActionsParametersModel { actions: self.actions@.map(|i: int, s: ActionSequence| s@) }
    }
}

/// The command envelope handed to the session transport.
#[derive(Clone, Debug)]
pub enum Command {
    /// Ask the remote session to perform the given action sequences.
    PerformActions(ActionsParameters),
}

/// Model of the command envelope.
#[verifier::ext_equal]
pub enum CommandModel {
    /// Ask the remote session to perform the given action sequences.
    PerformActions(ActionsParametersModel),
}

impl View for Command {
    type V = CommandModel;

    open spec fn view(&self) -> CommandModel {
        match self {
            Command::PerformActions(parameters) => CommandModel::PerformActions(parameters@),
        }
    }
}

} // verus!
