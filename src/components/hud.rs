use vstd::prelude::*;

use crate::components::DynComp;
use crate::graphics::{Obj, Pos, Size, Sprite};
use crate::text::{chars_of, padded_decimal, padded_digits, string_of};

verus! {

/// Label of the current score.
pub const CURR_LABEL: &'static str = "Score";

/// Label of the best score.
pub const REC_LABEL: &'static str = "Record";

/// Digits shown for a score.
pub const SCORE_DIGITS: usize = 10;

/// The line that shows a score: the label, a colon, a space and the score in
/// ten digits with leading zeros.
pub open spec fn score_line(label: Seq<char>, n: nat) -> Seq<char> {
    label + seq![':', ' '] + padded_digits(n, SCORE_DIGITS as nat)
}

/// Returns the line that shows a score under the given label.
fn score_chars(label: &str, n: u32) -> (r: Vec<char>)
    ensures
        r@ == score_line(label@, n as nat),
{
    let mut out = chars_of(label);
    out.push(':');
    out.push(' ');
    let mut digits = padded_decimal(n, SCORE_DIGITS);
    out.append(&mut digits);
    out
}

/// Tracks the current and the best score (shown in the top-left corner).
#[derive(Debug)]
pub struct Score {
    pub(crate) current: u32,
    pub(crate) record: u32,
}

impl Score {
    /// Frames survived in the current run.
    pub open(crate) spec fn spec_current(&self) -> u32 {
        self.current
    }

    /// Best score of the earlier runs.
    pub open(crate) spec fn spec_record(&self) -> u32 {
        self.record
    }

    /// Returns a new score: zero, and no record yet.
    pub fn new() -> (r: Self)
        ensures
            r.spec_current() == 0,
            r.spec_record() == 0,
    {
        Score { current: 0, record: 0 }
    }

    /// Returns the current score.
    pub fn current(&self) -> (r: u32)
        ensures
            r == self.spec_current(),
    {
        self.current
    }

    /// Returns the best score.
    pub fn record(&self) -> (r: u32)
        ensures
            r == self.spec_record(),
    {
        self.record
    }

    /// Returns the line that shows the current score.
    pub fn curr_ascii_matrix(&self) -> (r: Vec<char>)
        ensures
            r@ == score_line(CURR_LABEL@, self.spec_current() as nat),
    {
        score_chars(CURR_LABEL, self.current)
    }

    /// Returns the line that shows the best score.
    pub fn best_ascii_matrix(&self) -> (r: Vec<char>)
        ensures
            r@ == score_line(REC_LABEL@, self.spec_record() as nat),
    {
        score_chars(REC_LABEL, self.record)
    }

    /// Returns the current score as a formatted `String`.
    pub fn curr_to_string(&self) -> (r: String)
        ensures
            r@ == score_line(CURR_LABEL@, self.spec_current() as nat),
    {
        string_of(&self.curr_ascii_matrix())
    }

    /// Returns the best score as a formatted `String`.
    pub fn best_to_string(&self) -> (r: String)
        ensures
            r@ == score_line(REC_LABEL@, self.spec_record() as nat),
    {
        string_of(&self.best_ascii_matrix())
    }
}

impl Default for Score {
    fn default() -> (r: Self)
        ensures
            r.spec_current() == 0,
            r.spec_record() == 0,
    {
        Score::new()
    }
}

impl DynComp for Score {
    open spec fn inv(&self) -> bool {
        true
    }

    /// One more frame survived; the count stops at `u32::MAX`.
    open spec fn updates_to(&self, next: &Score) -> bool {
        &&& next.spec_current() == if self.spec_current() < u32::MAX {
            (self.spec_current() + 1) as u32
        } else {
            u32::MAX
        }
        &&& next.spec_record() == self.spec_record()
    }

    /// A new run: the current score goes into the record if it beats it, and
    /// starts again from zero.
    open spec fn resets_to(&self, next: &Score) -> bool {
        &&& next.spec_current() == 0
        &&& next.spec_record() == if self.spec_current() > self.spec_record() {
            self.spec_current()
        } else {
            self.spec_record()
        }
    }

    fn update(&mut self) {
        self.current = self.current.saturating_add(1);
    }

    fn reset(&mut self) {
        if self.current > self.record {
            self.record = self.current;
        }
        self.current = 0;
    }
}

/// The column where a message `len` characters long starts when centered on
/// a screen `width` columns wide; column 1 where it does not fit.
pub open spec fn centered_col(width: u16, len: nat) -> u16 {
    let center = width / 2 + 1;
    if center >= len / 2 {
        (center - len / 2) as u16
    } else {
        1
    }
}

/// `o` shows `msg` on one row, centered on a screen of the given size.
pub open spec fn centered(o: Obj, msg: Seq<char>, color: String, size: Size) -> bool {
    &&& o.pos == (Pos { col: centered_col(size.width, msg.len()), row: size.height / 2 })
    &&& o.sprite.wf()
    &&& o.sprite.cells() == msg
    &&& o.sprite.spec_height() == 1
    &&& o.color == color
}

/// Creates an object that shows `msg` on one row, centered on the screen.
fn splash_obj(msg: &str, color: String, size: &Size) -> (r: Obj)
    requires
        0 < msg@.len() <= u16::MAX,
    ensures
        centered(r, msg@, color, *size),
{
    let chars = chars_of(msg);
    let len = chars.len();
    let center = size.width / 2 + 1;
    let half = (len / 2) as u16;
    let col = if center >= half {
        center - half
    } else {
        1
    };
    let pos = Pos { col, row: size.height / 2 };
    let sprite = match Sprite::new(chars, len as u16) {
        Ok(s) => s,
        Err(_) => vstd::pervasive::unreached(),
    };
    proof {
        vstd::arithmetic::div_mod::lemma_div_by_self(len as int);
        assert(sprite.spec_width() * sprite.spec_height() == sprite.spec_width() * 1);
        vstd::arithmetic::mul::lemma_mul_equality_converse(
            sprite.spec_width() as int,
            sprite.spec_height() as int,
            1,
        );
    }
    Obj::new(pos, sprite, color)
}

/// What the splash screen shows.
#[derive(Debug, Clone, Copy, PartialEq, Eq, Structural)]
pub enum SplashState {
    /// The title.
    Title,
    /// The pause message.
    Pause,
    /// Nothing.
    OffScreen,
}

impl Default for SplashState {
    fn default() -> (r: Self)
        ensures
            r == SplashState::OffScreen,
    {
        SplashState::OffScreen
    }
}

/// Title and pause screens: text centered on the screen, at most one of them
/// shown at a time.
#[derive(Debug)]
pub struct Splash {
    pub(crate) title: Obj,
    pub(crate) pause: Obj,
    pub(crate) state: SplashState,
}

impl Splash {
    /// What the splash screen shows.
    pub open(crate) spec fn spec_state(&self) -> SplashState {
        self.state
    }

    /// The object that shows the title.
    pub open(crate) spec fn spec_title(&self) -> Obj {
        self.title
    }

    /// The object that shows the pause message.
    pub open(crate) spec fn spec_pause(&self) -> Obj {
        self.pause
    }

    /// The same screens, now in state `s`.
    pub open(crate) spec fn with_state(&self, next: &Splash, s: SplashState) -> bool {
        &&& next.state == s
        &&& next.title == self.title
        &&& next.pause == self.pause
    }

    /// Returns title and pause screens for a screen of the given size, with
    /// the given messages and colors; nothing is shown yet.
    pub fn new(size: &Size, title: &str, tcolor: String, pause_msg: &str, pcolor: String) -> (r: Self)
        requires
            0 < title@.len() <= u16::MAX,
            0 < pause_msg@.len() <= u16::MAX,
        ensures
            centered(r.spec_title(), title@, tcolor, *size),
            centered(r.spec_pause(), pause_msg@, pcolor, *size),
            r.spec_state() == SplashState::OffScreen,
    {
        let title = splash_obj(title, tcolor, size);
        let pause = splash_obj(pause_msg, pcolor, size);
        Splash { title, pause, state: SplashState::OffScreen }
    }

    /// Shows nothing, the default state.
    pub fn default_state(&mut self)
        ensures
            old(self).with_state(final(self), SplashState::OffScreen),
    {
        self.state = SplashState::OffScreen;
    }

    /// Shows the pause message.
    pub fn pause(&mut self)
        ensures
            old(self).with_state(final(self), SplashState::Pause),
    {
        self.state = SplashState::Pause;
    }

    /// Shows the title.
    pub fn title(&mut self)
        ensures
            old(self).with_state(final(self), SplashState::Title),
    {
        self.state = SplashState::Title;
    }

    /// Turns the splash screen off.
    pub fn off(&mut self)
        ensures
            old(self).with_state(final(self), SplashState::OffScreen),
    {
        self.state = SplashState::OffScreen;
    }

    /// Returns `true` if no splash screen is shown and `false` otherwise.
    pub fn is_off(&self) -> (r: bool)
        ensures
            r == (self.spec_state() == SplashState::OffScreen),
    {
        if let SplashState::OffScreen = self.state {
            return true;
        }
        false
    }

    /// Returns the current state.
    pub fn state(&self) -> (r: &SplashState)
        ensures
            *r == self.spec_state(),
    {
        &self.state
    }

    /// Returns the object that is shown, if any.
    pub fn shown(&self) -> (r: Option<&Obj>)
        ensures
            r == match self.spec_state() {
                SplashState::Title => Some(&self.spec_title()),
                SplashState::Pause => Some(&self.spec_pause()),
                SplashState::OffScreen => None,
            },
    {
        match self.state {
            SplashState::Title => Some(&self.title),
            SplashState::Pause => Some(&self.pause),
            SplashState::OffScreen => None,
        }
    }
}

/// The head-up display: the score and the splash screens.
#[derive(Debug)]
pub struct Hud {
    pub(crate) score: Score,
    pub(crate) splash: Splash,
}

impl Hud {
    /// The score.
    pub open(crate) spec fn spec_score(&self) -> Score {
        self.score
    }

    /// The splash screens.
    pub open(crate) spec fn spec_splash(&self) -> Splash {
        self.splash
    }

    /// Returns a new HUD with the given splash screens and a new score.
    pub fn new(splash: Splash) -> (r: Self)
        ensures
            r.spec_splash() == splash,
            r.spec_score() == Score::new_spec(),
    {
        let score = Score::new();
        Hud { score, splash }
    }

    /// Returns a reference to the score.
    pub fn score(&self) -> (r: &Score)
        ensures
            *r == self.spec_score(),
    {
        &self.score
    }

    /// Returns a mutable reference to the score.
    pub fn score_mut(&mut self) -> (r: &mut Score)
        ensures
            *r == old(self).spec_score(),
            final(self).spec_score() == *final(r),
            final(self).spec_splash() == old(self).spec_splash(),
    {
        &mut self.score
    }

    /// Returns a reference to the splash screens.
    pub fn splash(&self) -> (r: &Splash)
        ensures
            *r == self.spec_splash(),
    {
        &self.splash
    }

    /// Returns a mutable reference to the splash screens.
    pub fn splash_mut(&mut self) -> (r: &mut Splash)
        ensures
            *r == old(self).spec_splash(),
            final(self).spec_splash() == *final(r),
            final(self).spec_score() == old(self).spec_score(),
    {
        &mut self.splash
    }
}

impl Score {
    /// A new score: zero, and no record yet.
    pub open(crate) spec fn new_spec() -> Score {
        Score { current: 0, record: 0 }
    }
}

impl DynComp for Hud {
    open spec fn inv(&self) -> bool {
        true
    }

    /// One more frame on the score; the splash screens stay.
    open spec fn updates_to(&self, next: &Hud) -> bool {
        &&& self.spec_score().updates_to(&next.spec_score())
        &&& next.spec_splash() == self.spec_splash()
    }

    /// A new run on the score, and no splash screen shown.
    open spec fn resets_to(&self, next: &Hud) -> bool {
        &&& self.spec_score().resets_to(&next.spec_score())
        &&& self.spec_splash().with_state(&next.spec_splash(), SplashState::OffScreen)
    }

    fn update(&mut self) {
        self.score.update();
    }

    fn reset(&mut self) {
        self.score.reset();
        self.splash.default_state();
    }
}

} // verus!
