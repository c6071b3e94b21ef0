//! Reading the movement keys out of the engine's keyboard state.

use vstd::prelude::*;
use bevy::input::keyboard::KeyCode;
use bevy::input::ButtonInput;
use std::hash::Hash;
use crate::input::Keys;

verus! {

/// The engine's record of the buttons of one device: an opaque collection.
#[verifier::external_type_specification]
#[verifier::external_body]
#[verifier::reject_recursive_types(T)]
pub struct ExButtonInput<T: Copy + Eq + Hash + Send + Sync + 'static>(ButtonInput<T>);

/// The engine's name of a key of the keyboard.
#[verifier::external_type_specification]
#[verifier::external_body]
pub struct ExKeyCode(KeyCode);

/// The keys that a keyboard state holds as pressed.
pub uninterp spec fn pressed_keys(keyboard: ButtonInput<KeyCode>) -> Set<KeyCode>;

/// `ButtonInput::pressed` of bevy: tells whether `key` is among the keys
/// that the keyboard state holds as pressed. Believed, not proved.
#[verifier::external_body]
fn is_pressed(keyboard: &ButtonInput<KeyCode>, key: KeyCode) -> (down: bool)
    ensures
        down == pressed_keys(*keyboard).contains(key),
{
    keyboard.pressed(key)
}

/// Which key of the keyboard stands for which movement key.
#[derive(Clone, Copy)]
pub struct Bindings {
    pub forward: KeyCode,
    pub backward: KeyCode,
    pub turn_left: KeyCode,
    pub turn_right: KeyCode,
}

/// The movement keys that are down: each one is down exactly when the key
/// bound to it is among the pressed keys of the keyboard.
pub fn read_keys(keyboard: &ButtonInput<KeyCode>, bindings: &Bindings) -> (keys: Keys)
    ensures
        keys.forward == pressed_keys(*keyboard).contains(bindings.forward),
        keys.backward == pressed_keys(*keyboard).contains(bindings.backward),
        keys.turn_left == pressed_keys(*keyboard).contains(bindings.turn_left),
        keys.turn_right == pressed_keys(*keyboard).contains(bindings.turn_right),
{
    Keys {
        forward: is_pressed(keyboard, bindings.forward),
        backward: is_pressed(keyboard, bindings.backward),
        turn_left: is_pressed(keyboard, bindings.turn_left),
        turn_right: is_pressed(keyboard, bindings.turn_right),
    }
}

} // verus!
