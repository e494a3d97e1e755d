use vstd::prelude::*;

use crate::config::TICK_RATE_NANOS;
use crate::game::{Game, GameView};
use crate::input::{is_quit, is_quit_key, KeyCode};

verus! {

/// Where the real-time loop stands.
#[derive(Clone, Copy, Debug, PartialEq, Eq, Structural)]
pub enum Phase {
    /// Ticks advance and keys steer the bird.
    Running,
    /// The game is over; only a quit key is awaited.
    AwaitingQuit,
    /// The player confirmed the quit; the loop ends.
    Finished,
}

/// A tick is due once a full tick interval has passed since the last one.
pub open spec fn tick_due(elapsed_nanos: u64) -> bool {
    elapsed_nanos >= TICK_RATE_NANOS
}

/// How long to wait for input before the next tick is due.
pub open spec fn wait_before_tick(elapsed_nanos: u64) -> u64 {
    if tick_due(elapsed_nanos) {
        0
    } else {
        (TICK_RATE_NANOS - elapsed_nanos) as u64
    }
}

/// The game after an optional key press.
pub open spec fn after_optional_key(g: GameView, key: Option<KeyCode>) -> GameView {
    match key {
        Some(code) => g.after_key(code),
        None => g,
    }
}

/// The loop's decisions: the game it owns and the phase it is in.
pub struct Driver {
    pub game: Game,
    pub phase: Phase,
}

impl Driver {
    /// A well-formed game, and the loop runs exactly while the game does
    /// (until the quit is confirmed).
    pub open spec fn wf(&self) -> bool {
        &&& self.game.wf()
        &&& self.phase != Phase::Finished ==> (self.phase == Phase::Running <==> !self.game.game_over)
    }

    /// A loop about to run a fresh game.
    pub fn new() -> (r: Driver)
        ensures
            r.game@ == GameView::fresh(),
            r.phase == Phase::Running,
            r.wf(),
    {
        Driver { game: Game::new(), phase: Phase::Running }
    }

    /// Nanoseconds to wait for input, `elapsed_nanos` after the last tick.
    pub fn poll_timeout(elapsed_nanos: u64) -> (r: u64)
        ensures
            r == wait_before_tick(elapsed_nanos),
    {
        if elapsed_nanos >= TICK_RATE_NANOS {
            0
        } else {
            TICK_RATE_NANOS - elapsed_nanos
        }
    }

    /// One pass of the running loop: applies `key` if one came, advances a
    /// tick if `elapsed_nanos` since the last one make it due, and moves to
    /// awaiting the quit once the game is over. Returns whether a tick was
    /// advanced, so that the caller restarts its clock.
    pub fn run_pass(&mut self, key: Option<KeyCode>, elapsed_nanos: u64) -> (ticked: bool)
        requires
            old(self).wf(),
            old(self).phase == Phase::Running,
            old(self).game.score < u32::MAX,
            old(self).game.frame_count < usize::MAX,
        ensures
            ticked == tick_due(elapsed_nanos),
            final(self).game@ == (if ticked {
                after_optional_key(old(self).game@, key).stepped()
            } else {
                after_optional_key(old(self).game@, key)
            }),
            final(self).phase == (if final(self).game.game_over {
                Phase::AwaitingQuit
            } else {
                Phase::Running
            }),
            final(self).wf(),
    {
        match key {
            Some(code) => self.game.handle_input(code),
            None => {},
        }
        let ticked = elapsed_nanos >= TICK_RATE_NANOS;
        if ticked {
            self.game.update();
        }
        if self.game.game_over {
            self.phase = Phase::AwaitingQuit;
        }
        ticked
    }

    /// Takes a key pressed after the game ended: a quit key finishes the
    /// loop, any other key is ignored.
    pub fn confirm_quit(&mut self, key: KeyCode)
        requires
            old(self).wf(),
        ensures
            final(self).game@ == old(self).game@,
            final(self).phase == (if old(self).phase == Phase::AwaitingQuit && is_quit(key) {
                Phase::Finished
            } else {
                old(self).phase
            }),
            final(self).wf(),
    {
        if self.phase == Phase::AwaitingQuit && is_quit_key(key) {
            self.phase = Phase::Finished;
        }
    }

    /// Whether the loop has ended.
    pub fn is_finished(&self) -> (r: bool)
        ensures
            r == (self.phase == Phase::Finished),
    {
        self.phase == Phase::Finished
    }
}

} // verus!
