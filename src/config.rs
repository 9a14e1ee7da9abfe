use vstd::prelude::*;

verus! {

// Lengths and speeds are fixed-point numbers: thousandths of a pixel, and
// thousandths of a pixel per tick.

/// One pixel in the fixed-point unit used for lengths and speeds.
pub const UNIT: i64 = 1000;

/// Largest magnitude of a coordinate or speed that the simulation accepts.
/// Keeping every stored value within it lets the sum of two of them fit in an `i64`.
pub const COORD_LIMIT: i64 = 1152921504606846976;

pub const JUMP_VELOCITY: i64 = -5000;
pub const MAX_VELOCITY: i64 = 2000;
pub const ACCELERATION: i64 = 100;
pub const GROUND: i64 = 205000;
pub const KICK_FRAME_DURATION: u32 = 8;

/// Damping applied while accelerating, in hundredths (0.98).
pub const ACCEL_DAMPING_PERCENT: i64 = 98;
/// Idle friction, in hundredths (0.95).
pub const FRICTION_PERCENT: i64 = 95;
/// Below this magnitude idle friction stops the player outright (0.1 px/tick).
pub const REST_EPSILON: i64 = 100;

/// Band of heights in which the player is "almost on the ground".
pub const ALMOST_GROUND_TOP: i64 = 140000;
pub const ALMOST_GROUND_BOTTOM: i64 = 160000;

/// The player's footprint: its leading edge is `x + FOOT_LEAD`, its trailing edge `x + FOOT_TRAIL`.
pub const FOOT_LEAD: i64 = 10000;
pub const FOOT_TRAIL: i64 = 5000;
/// Height above an obstacle's bottom line at which a landing player rests.
pub const LANDING_OFFSET: i64 = 10000;
/// Tolerances of the forward probe, below the obstacle's top and below its bottom.
pub const PROBE_TOP_MARGIN: i64 = 10000;
pub const PROBE_BOTTOM_MARGIN: i64 = 25000;
/// Knockback of a trap hit: distance behind the trap's left edge, and vertical speed.
pub const KNOCKBACK_DISTANCE: i64 = 64000;
pub const KNOCKBACK_VY: i64 = 2000;

pub const MAX_HEALTH: u8 = 3;
/// Ticks a direction key must be held before the walk animation advances a frame.
pub const FRAMES_PER_STEP: usize = 3;
/// Walk animation frames: right-facing `0..=3`, left-facing `4..=7`.
pub const RIGHT_FIRST_FRAME: usize = 0;
pub const RIGHT_LAST_FRAME: usize = 3;
pub const LEFT_FIRST_FRAME: usize = 4;
pub const LEFT_LAST_FRAME: usize = 7;

pub const WALK_SOUND_1: usize = 0;
pub const WALK_SOUND_2: usize = 1;
pub const WALK_SOUND_3: usize = 2;
pub const WALK_SOUND_4: usize = 3;
pub const JUMP_SOUND: usize = 4;
pub const FALL_MILD_SOUND: usize = 5;
pub const FALL_HEAVY_SOUND: usize = 6;
pub const DOWN_SOUND: usize = 7;
pub const EXPLOSION_SOUND: usize = 8;
pub const KICK_SOUND: usize = 9;
pub const KICK_BOX_SOUND: usize = 10;
/// How long the mild fall sound plays, in milliseconds.
pub const FALL_MILD_DURATION_MS: u64 = 2500;

/// Whether a stored coordinate or speed is within the accepted range.
pub open spec fn in_range(v: i64) -> bool {
    -COORD_LIMIT <= v <= COORD_LIMIT
}

} // verus!
