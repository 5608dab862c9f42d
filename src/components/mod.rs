use vstd::prelude::*;

/// The player's enemies.
pub mod enemies;
/// Head-up display components.
pub mod hud;
/// The player of the game.
pub mod player;
/// The game stage (scenario) and its scrolling layers.
pub mod stage;

pub use hud::Hud;
pub use player::Player;
pub use stage::Stage;



verus! {

/// Behavior of the components that change from frame to frame.
///
/// Each component states its own invariant, the states that one frame can
/// lead to, and the state that a reset leads to.
pub trait DynComp: Sized {
    /// The component's invariant.
    spec fn inv(&self) -> bool;

    /// One frame can lead from `self` to `next`.
    spec fn updates_to(&self, next: &Self) -> bool;

    /// A reset leads from `self` to `next`.
    spec fn resets_to(&self, next: &Self) -> bool;

    /// Updates the component (goes to the next frame).
    fn update(&mut self)
        requires
            old(self).inv(),
        ensures
            final(self).inv(),
            old(self).updates_to(final(self)),
    ;

    /// Resets the component to its initial state.
    fn reset(&mut self)
        requires
            old(self).inv(),
        ensures
            final(self).inv(),
            old(self).resets_to(final(self)),
    ;
}

} // verus!
