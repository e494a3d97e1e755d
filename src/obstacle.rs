use vstd::prelude::*;

use crate::bird::Bird;
use crate::config::OBSTACLE_SPEED;

verus! {

/// The kinds of obstacle; each has its own width.
#[derive(Clone, Copy, Debug, PartialEq, Eq, Structural)]
pub enum ObstacleType {
    Tree,
    Rock,
    Cloud,
}

/// The width, in columns, of an obstacle of type `t`.
pub open spec fn width_of(t: ObstacleType) -> u16 {
    match t {
        ObstacleType::Tree => 3,
        ObstacleType::Rock => 2,
        ObstacleType::Cloud => 4,
    }
}

impl ObstacleType {
    /// The width, in columns, of an obstacle of this type.
    pub fn width(&self) -> (r: u16)
        ensures
            r == width_of(*self),
    {
        match self {
            ObstacleType::Tree => 3,
            ObstacleType::Rock => 2,
            ObstacleType::Cloud => 4,
        }
    }
}

/// Something the bird must not touch: one row high, `width` columns wide,
/// with its left edge at column `x`.
#[derive(Clone, Copy, Debug, PartialEq, Eq, Structural)]
pub struct Obstacle {
    pub x: u16,
    pub y: u16,
    pub width: u16,
    pub obstacle_type: ObstacleType,
}

impl Obstacle {
    /// Its width is the one its type gives.
    pub open spec fn wf(self) -> bool {
        self.width == width_of(self.obstacle_type)
    }

    /// The obstacle after one tick: moved left, stopping at column 0.
    pub open spec fn scrolled(self) -> Obstacle {
        Obstacle {
            x: if self.x >= OBSTACLE_SPEED {
                (self.x - OBSTACLE_SPEED) as u16
            } else {
                0
            },
            ..self
        }
    }

    /// The obstacle after `n` ticks.
    pub open spec fn scrolled_by(self, n: nat) -> Obstacle
        decreases n,
    {
        if n == 0 {
            self
        } else {
            self.scrolled_by((n - 1) as nat).scrolled()
        }
    }

    /// Its right edge has passed the left edge of the field.
    pub open spec fn off_screen(self) -> bool {
        self.x + self.width < 1
    }

    /// Its cells and the bird's cell overlap.
    pub open spec fn hits(self, bird: Bird) -> bool {
        &&& bird.x + 1 > self.x
        &&& bird.x < self.x + self.width
        &&& bird.y + 1 > self.y
        &&& bird.y < self.y + 1
    }

    /// An obstacle of type `obstacle_type` with its left edge at (`x`, `y`).
    pub fn new(x: u16, y: u16, obstacle_type: ObstacleType) -> (r: Obstacle)
        ensures
            r.x == x,
            r.y == y,
            r.obstacle_type == obstacle_type,
            r.width == width_of(obstacle_type),
            r.wf(),
    {
        let width = obstacle_type.width();
        Obstacle { x, y, width, obstacle_type }
    }

    /// Moves the obstacle left by one tick's distance, stopping at column 0.
    pub fn update(&mut self)
        ensures
            *final(self) == old(self).scrolled(),
    {
        if self.x >= OBSTACLE_SPEED {
            self.x = self.x - OBSTACLE_SPEED;
        } else {
            self.x = 0;
        }
    }

    /// Whether the obstacle has scrolled fully past the left edge.
    pub fn is_off_screen(&self) -> (r: bool)
        ensures
            r == self.off_screen(),
    {
        (self.x as u32) + (self.width as u32) < 1
    }

    /// Whether the obstacle's box overlaps the bird's one-cell box.
    pub fn collides_with_bird(&self, bird: &Bird) -> (r: bool)
        ensures
            r == self.hits(*bird),
    {
        let bird_left = bird.x as u32;
        let bird_right = bird.x as u32 + 1;
        let bird_top = bird.y as u32;
        let bird_bottom = bird.y as u32 + 1;
        let obstacle_left = self.x as u32;
        let obstacle_right = self.x as u32 + self.width as u32;
        let obstacle_top = self.y as u32;
        let obstacle_bottom = self.y as u32 + 1;
        bird_right > obstacle_left && bird_left < obstacle_right && bird_bottom > obstacle_top
            && bird_top < obstacle_bottom
    }
}

/// An obstacle drifts left one column a tick until it reaches column 0 and
/// stays there; as its width is never zero, it never counts as off-screen.
pub proof fn lemma_scroll_stops_at_left_edge(o: Obstacle, n: nat)
    requires
        o.wf(),
    ensures
        o.scrolled_by(n).x == (if n <= o.x {
            o.x - n
        } else {
            0
        }),
        o.scrolled_by(n).wf(),
        !o.scrolled_by(n).off_screen(),
    decreases n,
{
    if n > 0 {
        lemma_scroll_stops_at_left_edge(o, (n - 1) as nat);
    }
}

} // verus!
