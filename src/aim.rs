use vstd::prelude::*;
use crate::geometry::{sat_diff, saturating_diff, Vec2};

verus! {

/// The vector from the weapon to the cursor, which the weapon's facing
/// angle is taken from; `None`, and no change to the facing, when the
/// cursor has no world position this frame.
pub fn aim_offset(weapon: Vec2, cursor: Option<Vec2>) -> (r: Option<Vec2>)
    ensures
        cursor is None ==> (r is None),
        cursor matches Some(c) ==> r == Some(sat_diff(c, weapon)),
{
    match cursor {
        Some(c) => Some(saturating_diff(c, weapon)),
        None => None,
    }
}

/// A projectile: where it was fired from.
#[derive(Clone, Copy, PartialEq, Eq, Structural, Debug)]
pub struct Projectile {
    pub origin: Vec2,
}

/// One projectile at the weapon's position on every frame that the trigger
/// is held, none otherwise.
pub fn fire(trigger_held: bool, weapon: Vec2) -> (r: Option<Projectile>)
    ensures
        r == (if trigger_held {
            Some(Projectile { origin: weapon })
        } else {
            None
        }),
{
    if trigger_held {
        Some(Projectile { origin: weapon })
    } else {
        None
    }
}

} // verus!
