use vstd::prelude::*;

use crate::config::{
    BIRD_START_X, BIRD_START_Y, GAME_HEIGHT, GRAVITY, JUMP_POWER, MAX_JUMPS, VELOCITY_SCALE,
};

verus! {

/// The row reached from row `y` moving by `v` tenths of a row: the exact
/// position truncated toward zero, and never above the top row.
pub open spec fn next_row(y: int, v: int) -> int {
    let pos = y * VELOCITY_SCALE + v;
    if pos <= 0 {
        0
    } else {
        pos / VELOCITY_SCALE as int
    }
}

/// The least number of rows a bird has fallen since it last had no downward
/// speed, given that its downward speed is now `v` tenths of a row per tick.
pub open spec fn fall_depth(v: int) -> int
    decreases v,
{
    if v <= 0 {
        0
    } else if v <= GRAVITY {
        v / VELOCITY_SCALE as int
    } else {
        fall_depth(v - GRAVITY) + v / VELOCITY_SCALE as int
    }
}

/// Velocity right after a jump, in tenths of a row per tick.
pub open spec fn jump_velocity() -> int {
    -(JUMP_POWER * VELOCITY_SCALE)
}

/// The player's character.
#[derive(Clone, Copy, Debug, PartialEq, Eq, Structural)]
pub struct Bird {
    pub x: u16,
    pub y: u16,
    /// Vertical velocity in tenths of a row per tick; positive is downward.
    pub velocity: i32,
    pub jumps_left: u8,
    pub is_jumping: bool,
}

impl Bird {
    /// Within the field, with a bounded jump count, and no faster downward
    /// than its fall since its last moment at rest allows.
    pub open spec fn wf(self) -> bool {
        &&& self.y < GAME_HEIGHT
        &&& self.jumps_left <= MAX_JUMPS
        &&& self.velocity >= jump_velocity()
        &&& (self.velocity > 0 ==> fall_depth(self.velocity as int) <= self.y)
    }

    /// The bird after a jump command.
    pub open spec fn jumped(self) -> Bird {
        if self.jumps_left > 0 {
            Bird {
                velocity: jump_velocity() as i32,
                jumps_left: (self.jumps_left - 1) as u8,
                is_jumping: true,
                ..self
            }
        } else {
            self
        }
    }

    /// Whether the next tick brings the bird onto the ground row.
    pub open spec fn lands(self) -> bool {
        next_row(self.y as int, self.velocity + GRAVITY) >= GAME_HEIGHT - 1
    }

    /// The bird after one tick: gravity, then the move, then ground and
    /// ceiling.
    pub open spec fn stepped(self) -> Bird {
        let v = self.velocity + GRAVITY;
        let row = next_row(self.y as int, v);
        if self.lands() {
            Bird {
                y: (GAME_HEIGHT - 1) as u16,
                velocity: 0,
                is_jumping: false,
                jumps_left: MAX_JUMPS,
                ..self
            }
        } else if row == 0 {
            Bird { y: 0, velocity: 0, ..self }
        } else {
            Bird { y: row as u16, velocity: v as i32, ..self }
        }
    }

    /// A bird at its start cell, at rest, with every jump available.
    pub fn new() -> (r: Bird)
        ensures
            r.x == BIRD_START_X,
            r.y == BIRD_START_Y,
            r.velocity == 0,
            r.jumps_left == MAX_JUMPS,
            !r.is_jumping,
            r.wf(),
    {
        Bird {
            x: BIRD_START_X,
            y: BIRD_START_Y,
            velocity: 0,
            jumps_left: MAX_JUMPS,
            is_jumping: false,
        }
    }

    /// Gives an upward impulse if a jump is left; otherwise does nothing.
    pub fn jump(&mut self)
        ensures
            *final(self) == old(self).jumped(),
            old(self).jumps_left == 0 ==> *final(self) == *old(self),
            old(self).wf() ==> final(self).wf(),
    {
        if self.jumps_left > 0 {
            self.velocity = -(JUMP_POWER * VELOCITY_SCALE);
            self.jumps_left = self.jumps_left - 1;
            self.is_jumping = true;
        }
    }

    /// Advances the bird by one tick.
    pub fn update(&mut self)
        requires
            old(self).wf(),
        ensures
            *final(self) == old(self).stepped(),
            final(self).wf(),
            final(self).y <= GAME_HEIGHT - 1,
            old(self).lands() ==> final(self).y == GAME_HEIGHT - 1 && final(self).jumps_left
                == MAX_JUMPS && final(self).velocity == 0,
    {
        proof {
            lemma_fall_depth_bounds_velocity(self.velocity as int);
            lemma_step_keeps_wf(*self);
        }
        let v: i32 = self.velocity + GRAVITY;
        let pos: i32 = self.y as i32 * VELOCITY_SCALE + v;
        let row: i32 = if pos <= 0 {
            0
        } else {
            pos / VELOCITY_SCALE
        };
        if row >= (GAME_HEIGHT - 1) as i32 {
            self.y = GAME_HEIGHT - 1;
            self.velocity = 0;
            self.is_jumping = false;
            self.jumps_left = MAX_JUMPS;
        } else {
            self.y = row as u16;
            self.velocity = v;
            if self.y == 0 {
                self.velocity = 0;
            }
        }
    }
}

/// A tick keeps a well-formed bird well-formed, so inside the field.
pub proof fn lemma_step_keeps_wf(b: Bird)
    requires
        b.wf(),
    ensures
        b.stepped().wf(),
        b.stepped().y <= GAME_HEIGHT - 1,
{
    lemma_fall_depth_bounds_velocity(b.velocity as int);
    if !b.lands() && next_row(b.y as int, b.velocity + GRAVITY) != 0 {
        lemma_fall_depth_step(b.velocity as int, b.y as int);
    }
}

/// A bird that has fallen at most the height of the field moves down by
/// fewer than four rows a tick.
proof fn lemma_fall_depth_bounds_velocity(v: int)
    requires
        fall_depth(v) < GAME_HEIGHT,
    ensures
        v <= 31,
    decreases v,
{
    if v >= 34 {
        lemma_fall_depth_bounds_velocity(v - GRAVITY);
    } else if v == 32 || v == 33 {
        reveal_with_fuel(fall_depth, 18);
    }
}

/// One tick of falling deepens the fall by at least the rows moved.
proof fn lemma_fall_depth_step(v: int, y: int)
    requires
        y >= 0,
        v >= jump_velocity(),
        v > 0 ==> fall_depth(v) <= y,
        next_row(y, v + GRAVITY) > 0,
    ensures
        v + GRAVITY > 0 ==> fall_depth(v + GRAVITY) <= next_row(y, v + GRAVITY),
{
    let w = v + GRAVITY;
    if w > 0 {
        assert((y * 10 + w) / 10 == y + w / 10);
        if v <= 0 {
            assert(fall_depth(v) == 0);
        }
    }
}

/// A bird with every jump available can jump exactly that many times in a
/// row: the jump after those leaves it unchanged, with no jump left.
pub proof fn lemma_jumps_run_out(b: Bird)
    requires
        b.jumps_left == MAX_JUMPS,
    ensures
        b.jumped().jumped().jumped().jumps_left == 0,
        b.jumped().jumped().jumped().jumped() == b.jumped().jumped().jumped(),
{
}

} // verus!
