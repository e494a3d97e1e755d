use vstd::prelude::*;

verus! {

/// Columns of the play field.
pub const GAME_WIDTH: u16 = 80;

/// Rows of the play field; the bottom row is the ground.
pub const GAME_HEIGHT: u16 = 20;

/// Column the bird stays in.
pub const BIRD_START_X: u16 = 5;

/// Row the bird starts in.
pub const BIRD_START_Y: u16 = GAME_HEIGHT / 2;

/// Jumps available between two landings.
pub const MAX_JUMPS: u8 = 3;

/// Velocities are kept in tenths of a row per tick.
pub const VELOCITY_SCALE: i32 = 10;

/// Upward impulse of a jump, in rows per tick.
pub const JUMP_POWER: i32 = 4;

/// Downward acceleration per tick, in tenths of a row per tick (0.2 rows).
pub const GRAVITY: i32 = 2;

/// Columns an obstacle moves left per tick.
pub const OBSTACLE_SPEED: u16 = 1;

/// An obstacle spawns every this many ticks.
pub const SPAWN_RATE: usize = 15;

/// Row where clouds spawn.
pub const CLOUD_ROW: u16 = 3;

/// Wall-clock length of a tick, in nanoseconds (100 ms).
pub const TICK_RATE_NANOS: u64 = 100_000_000;

/// Divisor between the tick counter and the score shown to the player.
pub const SCORE_DIVISOR: u32 = 10;

} // verus!
