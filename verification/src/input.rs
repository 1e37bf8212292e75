//! The keyboard state that the engine hands to the game each frame, and the
//! keys the game listens to.
//!
//! The keyboard state is the engine's own `ButtonInput<KeyCode>`. Nothing in
//! this module is proved about the engine: the two query functions below state
//! what the engine's documentation and source say, and the rest of the crate
//! is verified against those statements.

use bevy::input::keyboard::KeyCode;
use bevy::input::keyboard::NativeKeyCode;
use bevy::input::ButtonInput;
use vstd::prelude::*;

verus! {

/// `bevy::input::keyboard::NativeKeyCode`, the platform's raw code carried by
/// an unidentified key. Declared with its variants so that `KeyCode` can be.
#[verifier::external_type_specification]
pub struct ExNativeKeyCode(NativeKeyCode);

/// `bevy::input::keyboard::KeyCode`, the physical key. Declared with its
/// variants so that verified code can name a key and tell two keys apart.
#[verifier::external_type_specification]
pub struct ExKeyCode(KeyCode);

/// `bevy::input::ButtonInput`, the set of buttons that are down together with
/// the set of those that went down during the current frame. Its fields are
/// private to the engine; the crate speaks of them through [`pressed_keys`]
/// and [`just_pressed_keys`].
#[verifier::external_type_specification]
#[verifier::external_body]
#[verifier::reject_recursive_types(T)]
pub struct ExButtonInput<T: Copy + Eq + std::hash::Hash + Send + Sync + 'static>(ButtonInput<T>);

/// The keys that are down: those for which a press has been registered and no
/// release since.
pub uninterp spec fn pressed_keys(keys: ButtonInput<KeyCode>) -> Set<KeyCode>;

/// The keys that went down during the current frame: those for which a press
/// has been registered since the engine last cleared the per-frame state.
pub uninterp spec fn just_pressed_keys(keys: ButtonInput<KeyCode>) -> Set<KeyCode>;

/// `ButtonInput::pressed`: whether `key` is in the set of keys that are down.
/// The engine answers by a lookup in that set and changes nothing.
#[verifier::external_body]
fn pressed(keys: &ButtonInput<KeyCode>, key: KeyCode) -> (down: bool)
    ensures
        down == pressed_keys(*keys).contains(key),
{
    keys.pressed(key)
}

/// `ButtonInput::just_pressed`: whether `key` is in the set of keys that went
/// down during the current frame. The engine answers by a lookup in that set
/// and changes nothing.
#[verifier::external_body]
fn just_pressed(keys: &ButtonInput<KeyCode>, key: KeyCode) -> (fresh: bool)
    ensures
        fresh == just_pressed_keys(*keys).contains(key),
{
    keys.just_pressed(key)
}

/// The key that moves the player on to the next team.
pub const ADVANCE_KEY: KeyCode = KeyCode::Space;

/// The key that pushes the player forward.
pub const FORWARD_KEY: KeyCode = KeyCode::KeyW;

/// The key that pushes the player back.
pub const BACK_KEY: KeyCode = KeyCode::KeyS;

/// The key that pushes the player to the left.
pub const LEFT_KEY: KeyCode = KeyCode::KeyA;

/// The key that pushes the player to the right.
pub const RIGHT_KEY: KeyCode = KeyCode::KeyD;

/// The state of the four movement keys during one frame.
#[derive(Clone, Copy, Debug, PartialEq, Eq, Structural)]
pub struct MoveKeys {
    pub forward: bool,
    pub back: bool,
    pub left: bool,
    pub right: bool,
}

/// The movement keys as `keys` reports them: each flag says whether the key
/// bound to that direction is down.
pub open spec fn spec_move_keys(keys: ButtonInput<KeyCode>) -> MoveKeys {
    MoveKeys {
        forward: pressed_keys(keys).contains(FORWARD_KEY),
        back: pressed_keys(keys).contains(BACK_KEY),
        left: pressed_keys(keys).contains(LEFT_KEY),
        right: pressed_keys(keys).contains(RIGHT_KEY),
    }
}

/// Whether the advance key went down during the frame that `keys` describes.
pub open spec fn spec_advance_pressed(keys: ButtonInput<KeyCode>) -> bool {
    just_pressed_keys(keys).contains(ADVANCE_KEY)
}

/// Reads the four movement keys from the keyboard state.
pub fn move_keys(keys: &ButtonInput<KeyCode>) -> (held: MoveKeys)
    ensures
        held == spec_move_keys(*keys),
{
    MoveKeys {
        forward: pressed(keys, FORWARD_KEY),
        back: pressed(keys, BACK_KEY),
        left: pressed(keys, LEFT_KEY),
        right: pressed(keys, RIGHT_KEY),
    }
}

/// Tells whether the advance key went down during this frame. A key that is
/// merely still down from an earlier frame does not count.
pub fn advance_pressed(keys: &ButtonInput<KeyCode>) -> (fresh: bool)
    ensures
        fresh == spec_advance_pressed(*keys),
{
    just_pressed(keys, ADVANCE_KEY)
}

} // verus!
