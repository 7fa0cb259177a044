//! Normalised pointer and keyboard state, as the tools read it.

use vstd::prelude::*;
use crate::geometry::Point;

verus! {

/// The keys and buttons whose state the tools consult.
#[derive(Clone, Copy, Debug, PartialEq, Eq, Hash, Structural)]
pub enum Key {
    UnknownKey,
    Lmb,
    Rmb,
    Mmb,
    KeyShift,
    KeyControl,
    KeyAlt,
    KeyArrowUp,
    KeyArrowRight,
    KeyArrowDown,
    KeyArrowLeft,
    KeyG,
    KeyR,
    KeyS,
}

/// Pointer gestures a hint can name.
#[derive(Clone, Copy, Debug, PartialEq, Eq, Hash, Structural)]
pub enum MouseMotion {
    Lmb,
    LmbDrag,
    Rmb,
    RmbDrag,
    Scroll,
}

/// How many keys `KeyStates` tracks.
pub const NUMBER_OF_KEYS: usize = 14;

impl Key {
    /// The slot of the key in `KeyStates`.
    pub open spec fn slot(self) -> int {
        match self {
            Key::UnknownKey => 0,
            Key::Lmb => 1,
            Key::Rmb => 2,
            Key::Mmb => 3,
            Key::KeyShift => 4,
            Key::KeyControl => 5,
            Key::KeyAlt => 6,
            Key::KeyArrowUp => 7,
            Key::KeyArrowRight => 8,
            Key::KeyArrowDown => 9,
            Key::KeyArrowLeft => 10,
            Key::KeyG => 11,
            Key::KeyR => 12,
            Key::KeyS => 13,
        }
    }

    /// The slot of the key in `KeyStates`.
    pub fn index(self) -> (i: usize)
        ensures
            i == self.slot(),
            i < NUMBER_OF_KEYS,
    {
        match self {
            Key::UnknownKey => 0,
            Key::Lmb => 1,
            Key::Rmb => 2,
            Key::Mmb => 3,
            Key::KeyShift => 4,
            Key::KeyControl => 5,
            Key::KeyAlt => 6,
            Key::KeyArrowUp => 7,
            Key::KeyArrowRight => 8,
            Key::KeyArrowDown => 9,
            Key::KeyArrowLeft => 10,
            Key::KeyG => 11,
            Key::KeyR => 12,
            Key::KeyS => 13,
        }
    }
}

/// Which keys are held down.
#[derive(Clone, Copy, Debug)]
pub struct KeyStates {
    pub pressed: [bool; 14],
}

impl KeyStates {
    /// Whether `key` is held down.
    pub open spec fn is_down(self, key: Key) -> bool {
        self.pressed[key.slot()]
    }

    /// No key is held down.
    pub fn new() -> (states: KeyStates)
        ensures
            forall|key: Key| !states.is_down(key),
    {
        KeyStates { pressed: [false; 14] }
    }

    /// Whether `key` is held down.
    pub fn get(&self, key: Key) -> (down: bool)
        ensures
            down == self.is_down(key),
    {
        self.pressed[key.index()]
    }

    /// Records `key` as held down; no other key changes.
    pub fn set(&mut self, key: Key)
        ensures
            final(self).is_down(key),
            forall|other: Key| other != key ==> final(self).is_down(other) == old(self).is_down(other),
    {
        self.pressed[key.index()] = true;
    }

    /// Records `key` as released; no other key changes.
    pub fn unset(&mut self, key: Key)
        ensures
            !final(self).is_down(key),
            forall|other: Key| other != key ==> final(self).is_down(other) == old(self).is_down(other),
    {
        self.pressed[key.index()] = false;
    }
}

/// The pointer as last reported.
#[derive(Clone, Copy, Debug)]
pub struct MouseState {
    pub position: Point,
}

/// The input state a tool reads during a transition.
#[derive(Clone, Copy, Debug)]
pub struct InputPreprocessorMessageHandler {
    pub mouse: MouseState,
    pub keyboard: KeyStates,
    pub viewport_size: Point,
}

/// Raw input events, already reduced to canvas units.
#[derive(Clone, Copy, Debug, PartialEq, Eq, Structural)]
pub enum InputPreprocessorMessage {
    BoundsOfViewports { size: Point },
    KeyDown { key: Key },
    KeyUp { key: Key },
    MouseDown { position: Point },
    MouseMove { position: Point },
    MouseUp { position: Point },
}

/// Key states that agree on every key are the same.
pub proof fn lemma_key_states_equal(a: KeyStates, b: KeyStates)
    requires
        forall|key: Key| a.is_down(key) == b.is_down(key),
    ensures
        a == b,
{
    assert(a.is_down(Key::UnknownKey) == b.is_down(Key::UnknownKey));
    assert(a.is_down(Key::Lmb) == b.is_down(Key::Lmb));
    assert(a.is_down(Key::Rmb) == b.is_down(Key::Rmb));
    assert(a.is_down(Key::Mmb) == b.is_down(Key::Mmb));
    assert(a.is_down(Key::KeyShift) == b.is_down(Key::KeyShift));
    assert(a.is_down(Key::KeyControl) == b.is_down(Key::KeyControl));
    assert(a.is_down(Key::KeyAlt) == b.is_down(Key::KeyAlt));
    assert(a.is_down(Key::KeyArrowUp) == b.is_down(Key::KeyArrowUp));
    assert(a.is_down(Key::KeyArrowRight) == b.is_down(Key::KeyArrowRight));
    assert(a.is_down(Key::KeyArrowDown) == b.is_down(Key::KeyArrowDown));
    assert(a.is_down(Key::KeyArrowLeft) == b.is_down(Key::KeyArrowLeft));
    assert(a.is_down(Key::KeyG) == b.is_down(Key::KeyG));
    assert(a.is_down(Key::KeyR) == b.is_down(Key::KeyR));
    assert(a.is_down(Key::KeyS) == b.is_down(Key::KeyS));
    assert(a.pressed =~= b.pressed);
}

/// An input event leads from a state to one state only.
pub proof fn lemma_one_state_follows(
    state: InputPreprocessorMessageHandler,
    message: InputPreprocessorMessage,
    first: InputPreprocessorMessageHandler,
    second: InputPreprocessorMessageHandler,
)
    requires
        state.steps_to(message, first),
    ensures
        state.steps_to(message, state.after(message)),
        state.steps_to(message, second) ==> first == second,
        first == state.after(message),
{
    if state.steps_to(message, second) {
        assert forall|key: Key| first.keyboard.is_down(key) == second.keyboard.is_down(key) by {}
        lemma_key_states_equal(first.keyboard, second.keyboard);
    }
    let chosen = state.after(message);
    assert(state.steps_to(message, chosen));
    assert forall|key: Key| first.keyboard.is_down(key) == chosen.keyboard.is_down(key) by {}
    lemma_key_states_equal(first.keyboard, chosen.keyboard);
}

impl InputPreprocessorMessageHandler {
    /// Pointer at the origin, no key held, an empty viewport.
    pub fn new() -> (input: InputPreprocessorMessageHandler)
        ensures
            input.mouse.position == (Point { x: 0, y: 0 }),
            input.viewport_size == (Point { x: 0, y: 0 }),
            forall|key: Key| !input.keyboard.is_down(key),
    {
        InputPreprocessorMessageHandler {
            mouse: MouseState { position: Point { x: 0, y: 0 } },
            keyboard: KeyStates::new(),
            viewport_size: Point { x: 0, y: 0 },
        }
    }

    /// `next` is the state after `message`: a pointer event moves the pointer (and a
    /// button event also presses or releases the left button), a key event changes
    /// that key alone, and a viewport event sets the viewport's size.
    pub open spec fn steps_to(
        self,
        message: InputPreprocessorMessage,
        next: InputPreprocessorMessageHandler,
    ) -> bool {
        match message {
            InputPreprocessorMessage::BoundsOfViewports { size } => {
                &&& next.viewport_size == size
                &&& next.mouse == self.mouse
                &&& forall|k: Key| next.keyboard.is_down(k) == self.keyboard.is_down(k)
            },
            InputPreprocessorMessage::KeyDown { key } => {
                &&& next.viewport_size == self.viewport_size
                &&& next.mouse == self.mouse
                &&& next.keyboard.is_down(key)
                &&& forall|k: Key| k != key ==> next.keyboard.is_down(k) == self.keyboard.is_down(k)
            },
            InputPreprocessorMessage::KeyUp { key } => {
                &&& next.viewport_size == self.viewport_size
                &&& next.mouse == self.mouse
                &&& !next.keyboard.is_down(key)
                &&& forall|k: Key| k != key ==> next.keyboard.is_down(k) == self.keyboard.is_down(k)
            },
            InputPreprocessorMessage::MouseDown { position } => {
                &&& next.viewport_size == self.viewport_size
                &&& next.mouse.position == position
                &&& next.keyboard.is_down(Key::Lmb)
                &&& forall|k: Key|
                    k != Key::Lmb ==> next.keyboard.is_down(k) == self.keyboard.is_down(k)
            },
            InputPreprocessorMessage::MouseMove { position } => {
                &&& next.viewport_size == self.viewport_size
                &&& next.mouse.position == position
                &&& forall|k: Key| next.keyboard.is_down(k) == self.keyboard.is_down(k)
            },
            InputPreprocessorMessage::MouseUp { position } => {
                &&& next.viewport_size == self.viewport_size
                &&& next.mouse.position == position
                &&& !next.keyboard.is_down(Key::Lmb)
                &&& forall|k: Key|
                    k != Key::Lmb ==> next.keyboard.is_down(k) == self.keyboard.is_down(k)
            },
        }
    }

    /// The state after `message`.
    pub open spec fn after(
        self,
        message: InputPreprocessorMessage,
    ) -> InputPreprocessorMessageHandler {
        choose|next: InputPreprocessorMessageHandler| self.steps_to(message, next)
    }

    /// Folds one raw input event into the state.
    pub fn process_action(&mut self, message: InputPreprocessorMessage)
        ensures
            old(self).steps_to(message, *final(self)),
            *final(self) == old(self).after(message),
    {
        let ghost start = *self;
        match message {
            InputPreprocessorMessage::BoundsOfViewports { size } => {
                self.viewport_size = size;
            },
            InputPreprocessorMessage::KeyDown { key } => {
                self.keyboard.set(key);
            },
            InputPreprocessorMessage::KeyUp { key } => {
                self.keyboard.unset(key);
            },
            InputPreprocessorMessage::MouseDown { position } => {
                self.mouse.position = position;
                self.keyboard.set(Key::Lmb);
            },
            InputPreprocessorMessage::MouseMove { position } => {
                self.mouse.position = position;
            },
            InputPreprocessorMessage::MouseUp { position } => {
                self.mouse.position = position;
                self.keyboard.unset(Key::Lmb);
            },
        }
        proof {
            lemma_one_state_follows(start, message, *self, start.after(message));
        }
    }
}

} // verus!
