//! Controls the game flow and handles user actions.
use vstd::prelude::*;

use super::Game;
use crate::components::enemies::Hitmap;
use crate::components::hud::SplashState;
use crate::components::player::PlayerState;
use crate::components::player::jump_moves;
use crate::components::DynComp;

verus! {

/// Initial delay between frames, in milliseconds.
pub const INI_DELAY: u64 = 60;

/// The delay between frames never goes below this, in milliseconds.
pub const MIN_DELAY: u64 = 30;

/// Points needed for each millisecond less of delay.
pub const DELAY_STEP: u32 = 50;

/// Height of the player's jump.
pub const JUMP_HEIGHT: u16 = 3;

/// Possible user actions.
#[derive(Debug, Clone, Copy, PartialEq, Eq, Structural)]
pub enum Act {
    /// The player jumps.
    PlayerJump,
    /// The game pauses.
    Pause,
    /// The game starts over.
    Restart,
    /// The game ends.
    Quit,
}

/// The action bound to a key: space jumps, escape pauses, `r` restarts and
/// `q` quits, in either case.
pub open spec fn key_act(c: char) -> Option<Act> {
    if c == ' ' {
        Some(Act::PlayerJump)
    } else if c == '\u{1b}' {
        Some(Act::Pause)
    } else if c == 'r' || c == 'R' {
        Some(Act::Restart)
    } else if c == 'q' || c == 'Q' {
        Some(Act::Quit)
    } else {
        None
    }
}

/// Returns the action bound to a key, if any; escape is `'\u{1b}'`.
pub fn act_for_key(c: char) -> (r: Option<Act>)
    ensures
        r == key_act(c),
{
    if c == ' ' {
        Some(Act::PlayerJump)
    } else if c == '\u{1b}' {
        Some(Act::Pause)
    } else if c == 'r' || c == 'R' {
        Some(Act::Restart)
    } else if c == 'q' || c == 'Q' {
        Some(Act::Quit)
    } else {
        None
    }
}

/// The delay between frames at a given score: one millisecond less than
/// `INI_DELAY` for each `DELAY_STEP` points, but never below `MIN_DELAY`.
pub open spec fn delay_spec(score: u32) -> u64 {
    let steps = score / DELAY_STEP;
    if steps + MIN_DELAY >= INI_DELAY {
        MIN_DELAY
    } else {
        (INI_DELAY - steps) as u64
    }
}

/// Returns the delay between frames at a given score.
pub fn delay_for(score: u32) -> (r: u64)
    ensures
        r == delay_spec(score),
        MIN_DELAY <= r <= INI_DELAY,
{
    let steps = (score / DELAY_STEP) as u64;
    if steps + MIN_DELAY >= INI_DELAY {
        MIN_DELAY
    } else {
        INI_DELAY - steps
    }
}

/// Controls the run of a [`Game`].
pub struct Runner {
    pub(crate) game: Game,
    pub(crate) delay: u64,
    pub(crate) proceed: bool,
}

impl Runner {
    /// The game.
    pub open(crate) spec fn spec_game(&self) -> Game {
        self.game
    }

    /// Delay before the next frame, in milliseconds.
    pub open(crate) spec fn spec_delay(&self) -> u64 {
        self.delay
    }

    /// The game goes on.
    pub open(crate) spec fn spec_proceed(&self) -> bool {
        self.proceed
    }

    /// The game keeps its invariant.
    pub open(crate) spec fn wf(&self) -> bool {
        self.game.inv()
    }

    /// A restart leads from `g` to `next`: a reset, then one frame.
    pub open(crate) spec fn restarted(g: Game, next: Game) -> bool {
        exists|mid: Game| g.resets_to(&mid) && mid.updates_to(&next)
    }

    /// What handling `act` leads to: a jump for a running player, the pause
    /// screen when no splash screen is shown, a restart, or the end.
    pub open(crate) spec fn handled(&self, act: Act, next: &Runner) -> bool {
        let (g, h) = (self.game, next.game);
        match act {
            Act::PlayerJump => {
                &&& if g.player.spec_state() == PlayerState::Running {
                    &&& h.player.spec_state() == PlayerState::Jumping
                    &&& h.player.spec_moves() == jump_moves(JUMP_HEIGHT as nat, g.player.spec_pos().row as int)
                    &&& h.player.spec_obj() == g.player.spec_obj()
                    &&& h.player.spec_default_pos() == g.player.spec_default_pos()
                } else {
                    h.player == g.player
                }
                &&& h.stage == g.stage
                &&& h.enemies == g.enemies
                &&& h.hud == g.hud
                &&& next.delay == self.delay
                &&& next.proceed == self.proceed
            },
            Act::Pause => {
                &&& g.hud.spec_splash().with_state(
                    &h.hud.spec_splash(),
                    if g.hud.spec_splash().spec_state() == SplashState::OffScreen {
                        SplashState::Pause
                    } else {
                        g.hud.spec_splash().spec_state()
                    },
                )
                &&& h.hud.spec_score() == g.hud.spec_score()
                &&& h.player == g.player
                &&& h.stage == g.stage
                &&& h.enemies == g.enemies
                &&& next.delay == self.delay
                &&& next.proceed == self.proceed
            },
            Act::Restart => {
                &&& next.delay == INI_DELAY
                &&& Self::restarted(g, h)
                &&& next.proceed == self.proceed
            },
            Act::Quit => {
                &&& h == g
                &&& next.delay == self.delay
                &&& !next.proceed
            },
        }
    }

    /// The splash screen removed; nothing else changes.
    pub open(crate) spec fn resumed(&self, next: &Runner) -> bool {
        &&& self.game.hud.spec_splash().with_state(&next.game.hud.spec_splash(), SplashState::OffScreen)
        &&& next.game.hud.spec_score() == self.game.hud.spec_score()
        &&& next.game.player == self.game.player
        &&& next.game.stage == self.game.stage
        &&& next.game.enemies == self.game.enemies
        &&& next.delay == self.delay
        &&& next.proceed == self.proceed
    }

    /// One frame of the game, with the delay set for the new score.
    pub open(crate) spec fn advanced(&self, next: &Runner) -> bool {
        &&& self.game.updates_to(&next.game)
        &&& next.delay == delay_spec(next.game.hud.spec_score().spec_current())
        &&& next.proceed == self.proceed
    }

    /// A step with action `act` goes through `a` (the action handled) and
    /// `b` (the splash screen removed, if one was shown) to `next`, and
    /// returns `r`: whether the game goes on, in which case it moved one
    /// frame.
    pub open(crate) spec fn step_through(&self, act: Option<Act>, a: Runner, b: Runner, r: bool, next: Runner) -> bool {
        &&& match act {
            Some(x) => self.handled(x, &a),
            None => a == *self,
        }
        &&& if self.spec_paused() {
            a.resumed(&b)
        } else {
            b == a
        }
        &&& r == b.proceed
        &&& if r {
            b.advanced(&next)
        } else {
            next == b
        }
    }

    /// A splash screen is shown: the game waits for an action.
    pub open(crate) spec fn spec_paused(&self) -> bool {
        self.game.hud.spec_splash().spec_state() != SplashState::OffScreen
    }

    /// Returns a runner for the given game.
    pub fn new(game: Game) -> (r: Self)
        requires
            game.inv(),
        ensures
            r.wf(),
            r.spec_game() == game,
            r.spec_delay() == INI_DELAY,
            r.spec_proceed(),
    {
        Runner { game, delay: INI_DELAY, proceed: true }
    }

    /// Returns the game.
    pub fn game(&self) -> (r: &Game)
        ensures
            *r == self.spec_game(),
    {
        &self.game
    }

    /// Returns the delay before the next frame, in milliseconds.
    pub fn delay(&self) -> (r: u64)
        ensures
            r == self.spec_delay(),
    {
        self.delay
    }

    /// Returns `true` while the game goes on.
    pub fn proceeds(&self) -> (r: bool)
        ensures
            r == self.spec_proceed(),
    {
        self.proceed
    }

    /// Returns `true` while a splash screen is shown: the game waits for an
    /// action.
    pub fn paused(&self) -> (r: bool)
        ensures
            r == self.spec_paused(),
    {
        !self.game.hud.splash().is_off()
    }

    /// Shows the title screen.
    pub fn show_title(&mut self)
        requires
            old(self).wf(),
        ensures
            final(self).wf(),
            old(self).spec_game().hud.spec_splash().with_state(
                &final(self).spec_game().hud.spec_splash(),
                SplashState::Title,
            ),
            final(self).spec_game().hud.spec_score() == old(self).spec_game().hud.spec_score(),
            final(self).spec_game().player == old(self).spec_game().player,
            final(self).spec_game().stage == old(self).spec_game().stage,
            final(self).spec_game().enemies == old(self).spec_game().enemies,
            final(self).spec_delay() == old(self).spec_delay(),
            final(self).spec_proceed() == old(self).spec_proceed(),
    {
        self.game.hud.splash_mut().title();
    }

    /// Removes the splash screen.
    pub fn resume(&mut self)
        requires
            old(self).wf(),
        ensures
            final(self).wf(),
            old(self).resumed(final(self)),
    {
        self.game.hud.splash_mut().off();
    }

    /// Restarts the game: the delay goes back to its initial value, and the
    /// game is reset and moved one frame.
    pub fn restart(&mut self)
        requires
            old(self).wf(),
        ensures
            final(self).wf(),
            final(self).spec_delay() == INI_DELAY,
            Self::restarted(old(self).spec_game(), final(self).spec_game()),
            final(self).spec_proceed() == old(self).spec_proceed(),
    {
        self.delay = INI_DELAY;
        self.game.reset();
        let ghost mid = self.game;
        self.game.update();
        assert(mid.updates_to(&self.game));
    }

    /// Ends the game.
    pub fn quit(&mut self)
        ensures
            final(self).spec_game() == old(self).spec_game(),
            final(self).spec_delay() == old(self).spec_delay(),
            !final(self).spec_proceed(),
    {
        self.proceed = false;
    }

    /// Handles a user action.
    pub fn act_handler(&mut self, act: Act)
        requires
            old(self).wf(),
        ensures
            final(self).wf(),
            old(self).handled(act, final(self)),
    {
        match act {
            Act::PlayerJump => self.game.player.jump(JUMP_HEIGHT),
            Act::Pause => {
                if self.game.hud.splash().is_off() {
                    self.game.hud.splash_mut().pause();
                }
            },
            Act::Restart => self.restart(),
            Act::Quit => self.quit(),
        }
    }

    /// Checks whether an enemy hits the player; if one does, restarts the
    /// game and returns `true`.
    pub fn collide(&mut self) -> (r: bool)
        requires
            old(self).wf(),
        ensures
            final(self).wf(),
            r == old(self).spec_game().enemies.hit_at(old(self).spec_game().player.spec_pos()),
            r ==> final(self).spec_delay() == INI_DELAY && Self::restarted(
                old(self).spec_game(),
                final(self).spec_game(),
            ),
            !r ==> *final(self) == *old(self),
    {
        let pos = self.game.player.pos();
        if self.game.enemies.hits(&pos) {
            self.restart();
            true
        } else {
            false
        }
    }

    /// Moves the game one frame and sets the delay for the new score.
    pub fn advance(&mut self)
        requires
            old(self).wf(),
        ensures
            final(self).wf(),
            old(self).advanced(final(self)),
    {
        self.game.update();
        self.delay = delay_for(self.game.hud.score().current());
    }

    /// The part of a frame that follows the hit test: handles the action
    /// that came, if any; removes the splash screen if one was shown; then,
    /// unless the game ended, moves it one frame. Returns whether the game
    /// goes on.
    pub fn step(&mut self, act: Option<Act>) -> (r: bool)
        requires
            old(self).wf(),
        ensures
            final(self).wf(),
            exists|a: Runner, b: Runner| old(self).step_through(act, a, b, r, *final(self)),
    {
        let was_paused = self.paused();
        if let Some(x) = act {
            self.act_handler(x);
        }
        let ghost a = *self;
        if was_paused {
            self.resume();
        }
        let ghost b = *self;
        if !self.proceed {
            assert(old(self).step_through(act, a, b, false, *self));
            return false;
        }
        self.advance();
        assert(old(self).step_through(act, a, b, true, *self));
        true
    }
}

} // verus!
