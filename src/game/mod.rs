//! How all the components are put together, and their behavior from frame
//! to frame.
use vstd::prelude::*;

use crate::components::enemies::Enemies;
use crate::components::{DynComp, Hud, Player, Stage};

mod runner;

pub use runner::{act_for_key, delay_for, Act, Runner, DELAY_STEP, INI_DELAY, JUMP_HEIGHT, MIN_DELAY};

verus! {

/// A jumper game: all the components in a single structure.
pub struct Game {
    /// The player.
    pub player: Player,
    /// The stage.
    pub stage: Stage,
    /// What can hit the player.
    pub enemies: Enemies,
    /// Score and splash screens.
    pub hud: Hud,
}

impl Game {
    /// Returns a new instance of `Game`.
    pub fn new(player: Player, stage: Stage, enemies: Enemies, hud: Hud) -> (r: Self)
        ensures
            r == (Game { player, stage, enemies, hud }),
    {
        Game { player, stage, enemies, hud }
    }
}

impl DynComp for Game {
    open spec fn inv(&self) -> bool {
        &&& self.player.inv()
        &&& self.stage.inv()
        &&& self.enemies.inv()
        &&& self.hud.inv()
    }

    open spec fn updates_to(&self, next: &Game) -> bool {
        &&& self.stage.updates_to(&next.stage)
        &&& self.enemies.updates_to(&next.enemies)
        &&& self.player.updates_to(&next.player)
        &&& self.hud.updates_to(&next.hud)
    }

    open spec fn resets_to(&self, next: &Game) -> bool {
        &&& self.stage.resets_to(&next.stage)
        &&& self.enemies.resets_to(&next.enemies)
        &&& self.player.resets_to(&next.player)
        &&& self.hud.resets_to(&next.hud)
    }

    fn update(&mut self) {
        self.stage.update();
        self.enemies.update();
        self.player.update();
        self.hud.update();
    }

    fn reset(&mut self) {
        self.stage.reset();
        self.enemies.reset();
        self.player.reset();
        self.hud.reset();
    }
}

} // verus!
