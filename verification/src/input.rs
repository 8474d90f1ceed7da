//! Keyboard and mouse-button state with press and release edges.
//!
//! Events update the current state as they arrive; once per frame the
//! current state is copied to the previous one. A key is *pressed* in the
//! frame in which it goes down, *released* in the frame in which it comes
//! up, and *down* for as long as it is held.

use std::collections::HashMap;
use vstd::prelude::*;

verus! {

/// Whether a key or button went down or came up.
#[derive(Clone, Copy, Debug, PartialEq, Eq, Structural)]
pub enum ElementState {
    Pressed,
    Released,
}

/// A physical key, by its code.
#[derive(Clone, Copy, Debug, PartialEq, Eq, Structural)]
pub struct KeyCode(pub u32);

/// A mouse button.
#[derive(Clone, Copy, Debug, PartialEq, Eq, Structural)]
pub enum MouseButton {
    Left,
    Right,
    Middle,
    Back,
    Forward,
    Other(u16),
}

/// The number a button is filed under; different buttons have different
/// numbers.
pub open spec fn spec_button_code(button: MouseButton) -> u64 {
    match button {
        MouseButton::Left => 0,
        MouseButton::Right => 1,
        MouseButton::Middle => 2,
        MouseButton::Back => 3,
        MouseButton::Forward => 4,
        MouseButton::Other(n) => (5 + n) as u64,
    }
}

/// The number a button is filed under.
pub fn button_code(button: MouseButton) -> (code: u64)
    ensures
        code == spec_button_code(button),
{
    match button {
        MouseButton::Left => 0,
        MouseButton::Right => 1,
        MouseButton::Middle => 2,
        MouseButton::Back => 3,
        MouseButton::Forward => 4,
        MouseButton::Other(n) => 5 + n as u64,
    }
}

/// Different buttons are filed under different numbers.
pub proof fn lemma_button_code_injective(a: MouseButton, b: MouseButton)
    requires
        spec_button_code(a) == spec_button_code(b),
    ensures
        a == b,
{
}

/// The input state as mathematical maps, keys by code and buttons by number.
pub struct InputModel {
    pub keys_current: Map<u64, ElementState>,
    pub keys_previous: Map<u64, ElementState>,
    pub mouse_buttons_current: Map<u64, ElementState>,
    pub mouse_buttons_previous: Map<u64, ElementState>,
}

/// Whether `states` records `code` as pressed.
pub open spec fn spec_is_down(states: Map<u64, ElementState>, code: u64) -> bool {
    states.contains_key(code) && states[code] == ElementState::Pressed
}

/// Whether `states` records `code` as released.
pub open spec fn spec_is_up(states: Map<u64, ElementState>, code: u64) -> bool {
    states.contains_key(code) && states[code] == ElementState::Released
}

impl InputModel {
    /// No key or button has been seen.
    pub open spec fn empty() -> InputModel {
        InputModel {
            keys_current: Map::empty(),
            keys_previous: Map::empty(),
            mouse_buttons_current: Map::empty(),
            mouse_buttons_previous: Map::empty(),
        }
    }

    /// The key went down since the last frame.
    pub open spec fn key_pressed(self, key: KeyCode) -> bool {
        spec_is_down(self.keys_current, key.0 as u64) && !spec_is_down(
            self.keys_previous,
            key.0 as u64,
        )
    }

    /// The key came up since the last frame.
    pub open spec fn key_released(self, key: KeyCode) -> bool {
        spec_is_up(self.keys_current, key.0 as u64) && spec_is_down(
            self.keys_previous,
            key.0 as u64,
        )
    }

    /// The key is held.
    pub open spec fn key_down(self, key: KeyCode) -> bool {
        spec_is_down(self.keys_current, key.0 as u64)
    }

    /// The button went down since the last frame.
    pub open spec fn button_pressed(self, button: MouseButton) -> bool {
        spec_is_down(self.mouse_buttons_current, spec_button_code(button)) && !spec_is_down(
            self.mouse_buttons_previous,
            spec_button_code(button),
        )
    }

    /// The button came up since the last frame.
    pub open spec fn button_released(self, button: MouseButton) -> bool {
        spec_is_up(self.mouse_buttons_current, spec_button_code(button)) && spec_is_down(
            self.mouse_buttons_previous,
            spec_button_code(button),
        )
    }

    /// The button is held.
    pub open spec fn button_down(self, button: MouseButton) -> bool {
        spec_is_down(self.mouse_buttons_current, spec_button_code(button))
    }

    /// The state after a key event.
    pub open spec fn with_key(self, key: KeyCode, state: ElementState) -> InputModel {
        InputModel { keys_current: self.keys_current.insert(key.0 as u64, state), ..self }
    }

    /// The state after a mouse-button event.
    pub open spec fn with_button(self, button: MouseButton, state: ElementState) -> InputModel {
        InputModel {
            mouse_buttons_current: self.mouse_buttons_current.insert(
                spec_button_code(button),
                state,
            ),
            ..self
        }
    }

    /// The state after the end of a frame: what is current becomes previous.
    pub open spec fn updated(self) -> InputModel {
        InputModel {
            keys_current: self.keys_current,
            keys_previous: self.keys_current,
            mouse_buttons_current: self.mouse_buttons_current,
            mouse_buttons_previous: self.mouse_buttons_current,
        }
    }
}

/// Keyboard and mouse-button state.
pub struct Input {
    keys_current: HashMap<u64, ElementState>,
    keys_previous: HashMap<u64, ElementState>,
    mouse_buttons_current: HashMap<u64, ElementState>,
    mouse_buttons_previous: HashMap<u64, ElementState>,
}

impl View for Input {
    type V = InputModel;

    closed spec fn view(&self) -> InputModel {
        InputModel {
            keys_current: self.keys_current@,
            keys_previous: self.keys_previous@,
            mouse_buttons_current: self.mouse_buttons_current@,
            mouse_buttons_previous: self.mouse_buttons_previous@,
        }
    }
}

/// Whether `states` records `code` as `state`.
fn lookup(states: &HashMap<u64, ElementState>, code: u64, state: ElementState) -> (found: bool)
    ensures
        found == (states@.contains_key(code) && states@[code] == state),
{
    broadcast use vstd::std_specs::hash::group_hash_axioms;

    match states.get(&code) {
        Some(recorded) => *recorded == state,
        None => false,
    }
}

impl Input {
    /// A state in which no key or button has been seen.
    pub fn new() -> (input: Input)
        ensures
            input@ == InputModel::empty(),
    {
        Input {
            keys_current: HashMap::new(),
            keys_previous: HashMap::new(),
            mouse_buttons_current: HashMap::new(),
            mouse_buttons_previous: HashMap::new(),
        }
    }

    /// Records that `key` went down or came up.
    pub fn handle_key_input(&mut self, key: KeyCode, state: ElementState)
        ensures
            final(self)@ == old(self)@.with_key(key, state),
    {
        broadcast use vstd::std_specs::hash::group_hash_axioms;

        self.keys_current.insert(key.0 as u64, state);
    }

    /// Records that `button` went down or came up.
    pub fn handle_mouse_button(&mut self, button: MouseButton, state: ElementState)
        ensures
            final(self)@ == old(self)@.with_button(button, state),
    {
        broadcast use vstd::std_specs::hash::group_hash_axioms;

        self.mouse_buttons_current.insert(button_code(button), state);
    }

    /// Ends the frame: the current state becomes the previous one, so every
    /// press and release edge is consumed.
    pub fn update(&mut self)
        ensures
            final(self)@ == old(self)@.updated(),
    {
        self.keys_previous = self.keys_current.clone();
        self.mouse_buttons_previous = self.mouse_buttons_current.clone();
    }

    /// Whether `key` went down since the last frame.
    pub fn is_key_pressed(&self, key: KeyCode) -> (pressed: bool)
        ensures
            pressed == self@.key_pressed(key),
    {
        lookup(&self.keys_current, key.0 as u64, ElementState::Pressed) && !lookup(
            &self.keys_previous,
            key.0 as u64,
            ElementState::Pressed,
        )
    }

    /// Whether `key` came up since the last frame.
    pub fn is_key_released(&self, key: KeyCode) -> (released: bool)
        ensures
            released == self@.key_released(key),
    {
        lookup(&self.keys_current, key.0 as u64, ElementState::Released) && lookup(
            &self.keys_previous,
            key.0 as u64,
            ElementState::Pressed,
        )
    }

    /// Whether `key` is held.
    pub fn is_key_down(&self, key: KeyCode) -> (down: bool)
        ensures
            down == self@.key_down(key),
    {
        lookup(&self.keys_current, key.0 as u64, ElementState::Pressed)
    }

    /// Whether `button` went down since the last frame.
    pub fn is_mouse_button_pressed(&self, button: MouseButton) -> (pressed: bool)
        ensures
            pressed == self@.button_pressed(button),
    {
        let code: u64 = button_code(button);
        lookup(&self.mouse_buttons_current, code, ElementState::Pressed) && !lookup(
            &self.mouse_buttons_previous,
            code,
            ElementState::Pressed,
        )
    }

    /// Whether `button` came up since the last frame.
    pub fn is_mouse_button_released(&self, button: MouseButton) -> (released: bool)
        ensures
            released == self@.button_released(button),
    {
        let code: u64 = button_code(button);
        lookup(&self.mouse_buttons_current, code, ElementState::Released) && lookup(
            &self.mouse_buttons_previous,
            code,
            ElementState::Pressed,
        )
    }

    /// Whether `button` is held.
    pub fn is_mouse_button_down(&self, button: MouseButton) -> (down: bool)
        ensures
            down == self@.button_down(button),
    {
        lookup(&self.mouse_buttons_current, button_code(button), ElementState::Pressed)
    }
}

/// An edge lasts one frame. A key that goes down while it was not down
/// counts as pressed until the frame ends; after the frame ends it still
/// counts as down but no longer as pressed, and nothing counts as pressed
/// or released until the next event. Other keys are not affected.
pub proof fn lemma_key_edges(model: InputModel, key: KeyCode, other: KeyCode)
    ensures
        !model.key_down(key) ==> model.updated().with_key(key, ElementState::Pressed).key_pressed(
            key,
        ),
        model.with_key(key, ElementState::Pressed).key_down(key),
        model.with_key(key, ElementState::Pressed).updated().key_down(key),
        !model.updated().key_pressed(other),
        !model.updated().key_released(other),
        model.key_down(key) ==> model.updated().with_key(key, ElementState::Released).key_released(
            key,
        ),
        !model.with_key(key, ElementState::Released).key_down(key),
        other != key ==> forall|state: ElementState|
            (#[trigger] model.with_key(key, state)).key_down(other) == model.key_down(other),
        forall|state: ElementState, button: MouseButton|
            #[trigger] model.with_key(key, state).button_down(button) == model.button_down(button),
{
}

/// The same for mouse buttons.
pub proof fn lemma_button_edges(model: InputModel, button: MouseButton, other: MouseButton)
    ensures
        !model.button_down(button) ==> model.updated().with_button(
            button,
            ElementState::Pressed,
        ).button_pressed(button),
        model.with_button(button, ElementState::Pressed).updated().button_down(button),
        !model.updated().button_pressed(other),
        !model.updated().button_released(other),
        model.button_down(button) ==> model.updated().with_button(
            button,
            ElementState::Released,
        ).button_released(button),
        other != button ==> forall|state: ElementState|
            (#[trigger] model.with_button(button, state)).button_down(other) == model.button_down(
                other,
            ),
{
    if other != button {
        if spec_button_code(other) == spec_button_code(button) {
            lemma_button_code_injective(other, button);
        }
    }
}

} // verus!
