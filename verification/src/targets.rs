//! Where a shot target reappears.
//!
//! Targets stand on the wall at `x = -15`. A target that is shot jumps to a
//! fresh random spot on that wall: its height and its depth are each drawn
//! uniformly from the whole hundredths in `[1.00, 9.00)`.
use vstd::prelude::*;

verus! {

/// Marks the shootable target tiles.
#[derive(Clone, Copy, Debug, PartialEq, Eq, Structural)]
pub struct Kovaak;

/// A point in the world, in hundredths of a world unit on each axis.
#[derive(Clone, Copy, Debug, PartialEq, Eq, Structural)]
pub struct Spot {
    pub x_hundredths: i32,
    pub y_hundredths: i32,
    pub z_hundredths: i32,
}

/// The wall the targets stand on, in hundredths of a world unit along `x`.
pub const TARGET_WALL_X_HUNDREDTHS: i32 = -1500;

/// The smallest height and depth, in hundredths, a target reappears at.
pub const TARGET_ROLL_LOW: i32 = 100;

/// One past the largest height and depth, in hundredths, a target reappears at.
pub const TARGET_ROLL_HIGH: i32 = 900;

/// Calls `fastrand::i32(low..high)`, which draws from the thread's generator
/// a number in `[low, high)`; the crate's source panics on an empty range,
/// which `requires` rules out. Which number comes out is chance.
#[verifier::external_body]
fn random_i32(low: i32, high: i32) -> (value: i32)
    requires
        low < high,
    ensures
        low <= value < high,
{
    fastrand::i32(low..high)
}

/// Whether a height or depth, in hundredths, is one a target may reappear at.
pub open spec fn is_target_roll(roll: int) -> bool {
    TARGET_ROLL_LOW <= roll < TARGET_ROLL_HIGH
}

/// Whether a spot lies on the target wall, at a height and a depth in
/// `[1.00, 9.00)`.
pub open spec fn on_target_wall(spot: Spot) -> bool {
    &&& spot.x_hundredths == TARGET_WALL_X_HUNDREDTHS
    &&& is_target_roll(spot.y_hundredths as int)
    &&& is_target_roll(spot.z_hundredths as int)
}

impl Kovaak {
    /// The spot on the target wall at height `y_roll` and depth `z_roll`,
    /// both in hundredths.
    pub fn spot_from_rolls(y_roll: i32, z_roll: i32) -> (spot: Spot)
        ensures
            spot.x_hundredths == TARGET_WALL_X_HUNDREDTHS,
            spot.x_hundredths == -1500,
            spot.y_hundredths == y_roll,
            spot.z_hundredths == z_roll,
    {
        Spot { x_hundredths: TARGET_WALL_X_HUNDREDTHS, y_hundredths: y_roll, z_hundredths: z_roll }
    }

    /// A fresh random spot for a target that was shot: on the target wall, at
    /// a height and a depth drawn (height first) from `[1.00, 9.00)`.
    pub fn respawn_spot() -> (spot: Spot)
        ensures
            spot.x_hundredths == TARGET_WALL_X_HUNDREDTHS,
            is_target_roll(spot.y_hundredths as int),
            is_target_roll(spot.z_hundredths as int),
            on_target_wall(spot),
            spot.x_hundredths == -1500,
            100 <= spot.y_hundredths < 900,
            100 <= spot.z_hundredths < 900,
    {
        let y_roll = random_i32(TARGET_ROLL_LOW, TARGET_ROLL_HIGH);
        let z_roll = random_i32(TARGET_ROLL_LOW, TARGET_ROLL_HIGH);
        Kovaak::spot_from_rolls(y_roll, z_roll)
    }

    /// Where the first target tile starts: `(-15, 7, 7)`.
    pub fn first_tile_spot() -> (spot: Spot)
        ensures
            spot == first_tile_start(),
            on_target_wall(spot),
            spot.x_hundredths == -1500 && spot.y_hundredths == 700 && spot.z_hundredths == 700,
    {
        Kovaak::spot_from_rolls(700, 700)
    }

    /// Where the second target tile starts: `(-15, 3, 3)`.
    pub fn second_tile_spot() -> (spot: Spot)
        ensures
            spot == second_tile_start(),
            on_target_wall(spot),
            spot.x_hundredths == -1500 && spot.y_hundredths == 300 && spot.z_hundredths == 300,
    {
        Kovaak::spot_from_rolls(300, 300)
    }
}

/// The first target tile's starting spot: `(-15, 7, 7)`.
pub open spec fn first_tile_start() -> Spot {
    Spot { x_hundredths: -1500i32, y_hundredths: 700i32, z_hundredths: 700i32 }
}

/// The second target tile's starting spot: `(-15, 3, 3)`.
pub open spec fn second_tile_start() -> Spot {
    Spot { x_hundredths: -1500i32, y_hundredths: 300i32, z_hundredths: 300i32 }
}

/// Targets stay on the wall: a target starts at one of the two tile spots and
/// each shot moves it to a respawn spot, which `Kovaak::respawn_spot` keeps on
/// the wall in range; so after any run of shots the target is where it
/// started or where the last shot sent it, and either way on the wall in range.
pub proof fn targets_stay_on_wall(start: Spot, respawns: Seq<Spot>)
    requires
        start == first_tile_start() || start == second_tile_start(),
        forall|i: int| 0 <= i < respawns.len() ==> on_target_wall(#[trigger] respawns[i]),
    ensures
        on_target_wall(if respawns.len() == 0 { start } else { respawns.last() }),
{
    if respawns.len() > 0 {
        assert(on_target_wall(respawns[respawns.len() - 1]));
    }
}

} // verus!
