use vstd::prelude::*;

use crate::bird::{lemma_step_keeps_wf, Bird};
use crate::config::{
    BIRD_START_X, BIRD_START_Y, CLOUD_ROW, GAME_HEIGHT, GAME_WIDTH, MAX_JUMPS, SCORE_DIVISOR,
    SPAWN_RATE,
};
use crate::input::{is_jump, is_jump_key, is_quit, is_quit_key, KeyCode};
use crate::obstacle::{width_of, Obstacle, ObstacleType};

verus! {

/// The type of the `k`-th obstacle spawned: trees, rocks and clouds in turn.
pub open spec fn spawn_type_of(k: int) -> ObstacleType {
    if k % 3 == 0 {
        ObstacleType::Tree
    } else if k % 3 == 1 {
        ObstacleType::Rock
    } else {
        ObstacleType::Cloud
    }
}

/// The row an obstacle of type `t` spawns in: clouds high, the others just
/// above the ground.
pub open spec fn spawn_row_of(t: ObstacleType) -> u16 {
    if t == ObstacleType::Cloud {
        CLOUD_ROW
    } else {
        (GAME_HEIGHT - 2) as u16
    }
}

/// The obstacle spawned on tick `frame`, if any: one every `SPAWN_RATE`
/// ticks, at the right edge.
pub open spec fn spawn_at(frame: int) -> Option<Obstacle> {
    if frame % SPAWN_RATE as int == 0 {
        let t = spawn_type_of(frame / SPAWN_RATE as int);
        Some(Obstacle { x: GAME_WIDTH, y: spawn_row_of(t), width: width_of(t), obstacle_type: t })
    } else {
        None
    }
}

/// The obstacles `s` after they all moved, without those now off-screen, in
/// their order.
pub open spec fn advanced(s: Seq<Obstacle>) -> Seq<Obstacle>
    decreases s.len(),
{
    if s.len() == 0 {
        s
    } else {
        let rest = advanced(s.drop_last());
        let o = s.last().scrolled();
        if o.off_screen() {
            rest
        } else {
            rest.push(o)
        }
    }
}

/// Some obstacle of `s` touches `bird`.
pub open spec fn any_hit(s: Seq<Obstacle>, bird: Bird) -> bool {
    exists|i: int| 0 <= i < s.len() && #[trigger] s[i].hits(bird)
}

/// The score the player is shown for an internal score.
pub open spec fn shown_score(score: u32) -> u32 {
    score / SCORE_DIVISOR
}

/// The state of a game, with its obstacles as a sequence.
pub struct GameView {
    pub bird: Bird,
    pub obstacles: Seq<Obstacle>,
    pub score: u32,
    pub game_over: bool,
    pub frame_count: usize,
}

impl GameView {
    /// A well-formed bird and well-formed obstacles.
    pub open spec fn wf(self) -> bool {
        &&& self.bird.wf()
        &&& forall|i: int| 0 <= i < self.obstacles.len() ==> #[trigger] self.obstacles[i].wf()
    }

    /// A game about to start.
    pub open spec fn fresh() -> GameView {
        GameView {
            bird: Bird {
                x: BIRD_START_X,
                y: BIRD_START_Y,
                velocity: 0,
                jumps_left: MAX_JUMPS,
                is_jumping: false,
            },
            obstacles: Seq::empty(),
            score: 0,
            game_over: false,
            frame_count: 0,
        }
    }

    /// The game after a key press: a jump or a quit while it runs, and
    /// nothing else.
    pub open spec fn after_key(self, code: KeyCode) -> GameView {
        if self.game_over {
            self
        } else if is_jump(code) {
            GameView { bird: self.bird.jumped(), ..self }
        } else if is_quit(code) {
            GameView { game_over: true, ..self }
        } else {
            self
        }
    }

    /// The game after one tick. A finished game stays as it is.
    pub open spec fn stepped(self) -> GameView {
        if self.game_over {
            self
        } else {
            let bird = self.bird.stepped();
            let kept = advanced(self.obstacles);
            let obstacles = match spawn_at(self.frame_count as int) {
                Some(o) => kept.push(o),
                None => kept,
            };
            GameView {
                bird,
                obstacles,
                score: (self.score + 1) as u32,
                game_over: any_hit(obstacles, bird),
                frame_count: (self.frame_count + 1) as usize,
            }
        }
    }

    /// The game after `n` ticks.
    pub open spec fn steps(self, n: nat) -> GameView
        decreases n,
    {
        if n == 0 {
            self
        } else {
            self.steps((n - 1) as nat).stepped()
        }
    }
}

/// The whole simulation: the bird, the live obstacles, and the counters.
pub struct Game {
    pub bird: Bird,
    pub obstacles: Vec<Obstacle>,
    pub score: u32,
    pub game_over: bool,
    pub frame_count: usize,
}

impl View for Game {
    type V = GameView;

    open spec fn view(&self) -> GameView {
        GameView {
            bird: self.bird,
            obstacles: self.obstacles@,
            score: self.score,
            game_over: self.game_over,
            frame_count: self.frame_count,
        }
    }
}

impl Game {
    /// The game's state is well-formed.
    pub open spec fn wf(&self) -> bool {
        self@.wf()
    }

    /// A game about to start: the bird at its start cell, no obstacle, both
    /// counters at zero.
    pub fn new() -> (r: Game)
        ensures
            r@ == GameView::fresh(),
            r.wf(),
    {
        Game {
            bird: Bird::new(),
            obstacles: Vec::new(),
            score: 0,
            game_over: false,
            frame_count: 0,
        }
    }

    /// Applies a key press: space jumps and `q` or Escape end the game while
    /// it runs; any other key, or any key once it is over, changes nothing.
    pub fn handle_input(&mut self, code: KeyCode)
        requires
            old(self).wf(),
        ensures
            final(self)@ == old(self)@.after_key(code),
            final(self).wf(),
    {
        if self.game_over {
            return ;
        }
        if is_jump_key(code) {
            self.bird.jump();
        } else if is_quit_key(code) {
            self.game_over = true;
        }
    }

    /// Advances the game by one tick; does nothing once it is over.
    pub fn update(&mut self)
        requires
            old(self).wf(),
            !old(self).game_over ==> old(self).score < u32::MAX && old(self).frame_count
                < usize::MAX,
        ensures
            final(self)@ == old(self)@.stepped(),
            final(self).wf(),
            final(self).bird.y <= GAME_HEIGHT - 1,
            old(self).game_over ==> final(self)@ == old(self)@,
    {
        if self.game_over {
            return ;
        }
        proof {
            lemma_step_keeps_wf(self.bird);
        }
        self.bird.update();
        let mut obstacles = advance_obstacles(&self.obstacles);
        match spawn_for_frame(self.frame_count) {
            Some(o) => obstacles.push(o),
            None => {},
        }
        self.obstacles = obstacles;
        if any_collision(&self.obstacles, &self.bird) {
            self.game_over = true;
        }
        self.score = self.score + 1;
        self.frame_count = self.frame_count + 1;
    }
}

/// The obstacle to spawn on tick `frame_count`, if any.
fn spawn_for_frame(frame_count: usize) -> (r: Option<Obstacle>)
    ensures
        r == spawn_at(frame_count as int),
{
    if frame_count % SPAWN_RATE == 0 {
        let obstacle_type = match frame_count / SPAWN_RATE % 3 {
            0 => ObstacleType::Tree,
            1 => ObstacleType::Rock,
            _ => ObstacleType::Cloud,
        };
        let y = if obstacle_type == ObstacleType::Cloud {
            CLOUD_ROW
        } else {
            GAME_HEIGHT - 2
        };
        Some(Obstacle::new(GAME_WIDTH, y, obstacle_type))
    } else {
        None
    }
}

/// Moves every obstacle and keeps those still on screen, in order.
fn advance_obstacles(obstacles: &Vec<Obstacle>) -> (r: Vec<Obstacle>)
    requires
        forall|i: int| 0 <= i < obstacles@.len() ==> #[trigger] obstacles@[i].wf(),
    ensures
        r@ == advanced(obstacles@),
        forall|i: int| 0 <= i < r@.len() ==> #[trigger] r@[i].wf(),
{
    let mut kept: Vec<Obstacle> = Vec::new();
    let mut i: usize = 0;
    while i < obstacles.len()
        invariant
            i <= obstacles@.len(),
            forall|j: int| 0 <= j < obstacles@.len() ==> #[trigger] obstacles@[j].wf(),
            kept@ == advanced(obstacles@.take(i as int)),
            forall|j: int| 0 <= j < kept@.len() ==> #[trigger] kept@[j].wf(),
        decreases obstacles@.len() - i,
    {
        let mut o = obstacles[i];
        assert(obstacles@[i as int].wf());
        o.update();
        assert(obstacles@.take(i + 1).drop_last() =~= obstacles@.take(i as int));
        if !o.is_off_screen() {
            kept.push(o);
        }
        i = i + 1;
    }
    assert(obstacles@.take(i as int) =~= obstacles@);
    kept
}

/// Whether any obstacle touches the bird.
fn any_collision(obstacles: &Vec<Obstacle>, bird: &Bird) -> (r: bool)
    ensures
        r == any_hit(obstacles@, *bird),
{
    let mut hit = false;
    let mut i: usize = 0;
    while i < obstacles.len()
        invariant
            i <= obstacles@.len(),
            hit == exists|j: int| 0 <= j < i && #[trigger] obstacles@[j].hits(*bird),
        decreases obstacles@.len() - i,
    {
        if obstacles[i].collides_with_bird(bird) {
            hit = true;
        }
        i = i + 1;
    }
    hit
}

/// The score shown to the player: the internal score divided by ten.
pub fn display_score(score: u32) -> (r: u32)
    ensures
        r == shown_score(score),
{
    score / SCORE_DIVISOR
}

/// Moving and pruning keeps obstacles well-formed.
proof fn lemma_advanced_wf(s: Seq<Obstacle>)
    requires
        forall|i: int| 0 <= i < s.len() ==> #[trigger] s[i].wf(),
    ensures
        forall|i: int| 0 <= i < advanced(s).len() ==> #[trigger] advanced(s)[i].wf(),
    decreases s.len(),
{
    if s.len() > 0 {
        assert forall|i: int| 0 <= i < s.drop_last().len() implies #[trigger] s.drop_last()[i].wf() by {
            assert(s[i].wf());
        }
        assert(s[s.len() - 1].wf());
        lemma_advanced_wf(s.drop_last());
        let rest = advanced(s.drop_last());
        assert forall|i: int| 0 <= i < advanced(s).len() implies #[trigger] advanced(s)[i].wf() by {
            if i < rest.len() {
                assert(rest[i].wf());
            }
        }
    }
}

/// A tick keeps a well-formed game well-formed.
pub proof fn lemma_tick_keeps_wf(g: GameView)
    requires
        g.wf(),
    ensures
        g.stepped().wf(),
        g.stepped().bird.y <= GAME_HEIGHT - 1,
{
    lemma_step_keeps_wf(g.bird);
    lemma_advanced_wf(g.obstacles);
}

/// However many ticks pass, the bird of a well-formed game stays between the
/// top row and the ground row.
pub proof fn lemma_bird_stays_in_field(g: GameView, n: nat)
    requires
        g.wf(),
    ensures
        g.steps(n).wf(),
        g.steps(n).bird.y <= GAME_HEIGHT - 1,
    decreases n,
{
    if n > 0 {
        lemma_bird_stays_in_field(g, (n - 1) as nat);
        lemma_tick_keeps_wf(g.steps((n - 1) as nat));
    }
}

/// The `k`-th spawn, on tick `k * SPAWN_RATE`, is a tree, a rock or a cloud
/// as `k` is 0, 1 or 2 modulo 3, at its type's row on the right edge; no
/// other tick spawns.
pub proof fn lemma_spawn_cycle(k: nat, frame: int)
    ensures
        spawn_at(k * SPAWN_RATE) == Some(
            Obstacle {
                x: GAME_WIDTH,
                y: spawn_row_of(spawn_type_of(k as int)),
                width: width_of(spawn_type_of(k as int)),
                obstacle_type: spawn_type_of(k as int),
            },
        ),
        k % 3 == 0 ==> spawn_type_of(k as int) == ObstacleType::Tree,
        k % 3 == 1 ==> spawn_type_of(k as int) == ObstacleType::Rock,
        k % 3 == 2 ==> spawn_type_of(k as int) == ObstacleType::Cloud,
        frame % SPAWN_RATE as int != 0 ==> spawn_at(frame) is None,
{
    vstd::arithmetic::div_mod::lemma_mod_multiples_basic(k as int, SPAWN_RATE as int);
    vstd::arithmetic::div_mod::lemma_div_multiples_vanish(k as int, SPAWN_RATE as int);
    assert(k * SPAWN_RATE == SPAWN_RATE * k) by (nonlinear_arith);
}

/// Once a game is over, ticks change nothing.
pub proof fn lemma_over_is_frozen(g: GameView, n: nat)
    requires
        g.game_over,
    ensures
        g.steps(n) == g,
    decreases n,
{
    if n > 0 {
        lemma_over_is_frozen(g, (n - 1) as nat);
    }
}

/// While a game runs, each tick adds one to the score and to the tick
/// counter; the score shown is the score divided by ten.
pub proof fn lemma_score_counts_ticks(g: GameView, n: nat)
    requires
        forall|k: nat| k < n ==> !(#[trigger] g.steps(k)).game_over,
        g.score + n <= u32::MAX,
        g.frame_count + n <= usize::MAX,
    ensures
        g.steps(n).score == g.score + n,
        g.steps(n).frame_count == g.frame_count + n,
        shown_score(g.steps(n).score) == (g.score + n) / 10,
    decreases n,
{
    if n > 0 {
        assert(!g.steps((n - 1) as nat).game_over);
        lemma_score_counts_ticks(g, (n - 1) as nat);
    }
}

} // verus!
