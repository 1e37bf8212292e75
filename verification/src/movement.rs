//! Which way the movement keys push the player.
//!
//! The push is worked out on the player's own axes before the player's
//! orientation is applied: `z` points ahead of the player and `x` to its left.

use crate::input::move_keys;
use crate::input::spec_move_keys;
use crate::input::MoveKeys;
use bevy::input::keyboard::KeyCode;
use bevy::input::ButtonInput;
use vstd::prelude::*;

verus! {

/// How strongly the player is pushed along its heading.
pub const MOVEMENT_STRENGTH: u8 = 4;

/// The sum of the pushes of the keys that are down, one unit per key, before
/// it is brought to unit length. There is no vertical part: the keys never
/// push up or down.
#[derive(Clone, Copy, Debug, PartialEq, Eq, Structural)]
pub struct MoveDir {
    /// Net push to the left, between -1 and 1.
    pub x: i8,
    /// Net push ahead, between -1 and 1.
    pub z: i8,
}

/// What one key adds along its axis: one unit while it is down.
pub open spec fn spec_push(down: bool) -> int {
    if down {
        1
    } else {
        0
    }
}

/// The direction that the given keys ask for: ahead minus back along `z`,
/// left minus right along `x`.
pub open spec fn spec_movement_dir(keys: MoveKeys) -> MoveDir {
    MoveDir {
        x: (spec_push(keys.left) - spec_push(keys.right)) as i8,
        z: (spec_push(keys.forward) - spec_push(keys.back)) as i8,
    }
}

impl MoveDir {
    /// Whether the keys ask for no movement at all.
    pub open spec fn is_zero(&self) -> bool {
        self.x == 0 && self.z == 0
    }
}

/// Adds up the pushes of the keys that are down. Each key counts once, and
/// two opposite keys cancel.
pub fn movement_dir(keys: MoveKeys) -> (dir: MoveDir)
    ensures
        dir == spec_movement_dir(keys),
{
    let mut x: i8 = 0;
    let mut z: i8 = 0;
    if keys.forward {
        z = z + 1;
    }
    if keys.back {
        z = z - 1;
    }
    if keys.left {
        x = x + 1;
    }
    if keys.right {
        x = x - 1;
    }
    MoveDir { x, z }
}

/// Works out the player's heading for this frame from the keyboard state.
pub fn player_movement(keys: &ButtonInput<KeyCode>) -> (dir: MoveDir)
    ensures
        dir == spec_movement_dir(spec_move_keys(*keys)),
{
    movement_dir(move_keys(keys))
}

/// With no movement key down the heading is zero, and more generally the
/// heading is zero exactly when each key is matched by its opposite.
pub proof fn lemma_heading_zero_iff_keys_cancel(keys: MoveKeys)
    ensures
        !keys.forward && !keys.back && !keys.left && !keys.right ==> spec_movement_dir(
            keys,
        ).is_zero(),
        spec_movement_dir(keys).is_zero() <==> (keys.forward == keys.back && keys.left
            == keys.right),
{
}

/// Each part of a heading is a whole step: -1, 0 or 1, the sum of what the
/// two keys of its axis add.
pub proof fn lemma_heading_parts_are_steps(keys: MoveKeys)
    ensures
        spec_movement_dir(keys).x == spec_push(keys.left) - spec_push(keys.right),
        spec_movement_dir(keys).z == spec_push(keys.forward) - spec_push(keys.back),
        -1 <= spec_movement_dir(keys).x <= 1,
        -1 <= spec_movement_dir(keys).z <= 1,
{
}

} // verus!
