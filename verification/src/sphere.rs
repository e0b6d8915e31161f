//! Arrow-key steering of the test sphere.
//!
//! Up pushes along `+x` with weight 5 and Down along `-x`; Left and Right push
//! sideways along `-z` and `+z` with weight 5, each with a drift of 1 along
//! `+x`. The pushes of all held keys add up; the engine then scales the sum
//! to unit length (or leaves it zero) and to the frame's time.
use vstd::prelude::*;

verus! {

/// Which arrow keys are held this frame.
#[derive(Clone, Copy, Debug, PartialEq, Eq, Structural)]
pub struct ArrowKeys {
    pub up: bool,
    pub down: bool,
    pub left: bool,
    pub right: bool,
}

/// A direction with whole-number components.
#[derive(Clone, Copy, Debug, PartialEq, Eq, Structural)]
pub struct Steer {
    pub x: i32,
    pub y: i32,
    pub z: i32,
}

/// `1` for a held key, `0` for a released one.
pub open spec fn held(key: bool) -> int {
    if key { 1 } else { 0 }
}

/// The sum of the pushes of the held arrow keys, as `(x, y, z)`.
pub open spec fn arrow_push(keys: ArrowKeys) -> (int, int, int) {
    (
        5 * held(keys.up) - 5 * held(keys.down) + held(keys.left) + held(keys.right),
        0,
        5 * held(keys.right) - 5 * held(keys.left),
    )
}

/// The sum of the pushes of the held arrow keys.
pub fn arrow_direction(keys: ArrowKeys) -> (dir: Steer)
    ensures
        (dir.x as int, dir.y as int, dir.z as int) == arrow_push(keys),
        dir.x == 5 * held(keys.up) - 5 * held(keys.down) + held(keys.left) + held(keys.right),
        dir.y == 0,
        dir.z == 5 * held(keys.right) - 5 * held(keys.left),
{
    let mut dir = Steer { x: 0, y: 0, z: 0 };
    if keys.up {
        dir.x = dir.x + 5;
    }
    if keys.down {
        dir.x = dir.x - 5;
    }
    if keys.left {
        dir.x = dir.x + 1;
        dir.z = dir.z - 5;
    }
    if keys.right {
        dir.x = dir.x + 1;
        dir.z = dir.z + 5;
    }
    dir
}

/// Up and Down held together steer as if neither were held; Left and Right
/// held together cancel sideways and leave a drift of 2 along `+x`.
pub proof fn opposite_arrows_cancel(keys: ArrowKeys)
    ensures
        keys.up && keys.down ==> arrow_push(keys) == arrow_push(
            ArrowKeys { up: false, down: false, ..keys },
        ),
        keys.left && keys.right ==> {
            let neither = arrow_push(ArrowKeys { left: false, right: false, ..keys });
            arrow_push(keys) == (neither.0 + 2, neither.1, neither.2)
        },
{
}

} // verus!
