use vstd::prelude::*;

use crate::components::DynComp;
use crate::graphics::Pos;

/// Obstacle walls.
pub mod walls;

pub use walls::{Wall, Walls};

verus! {

/// Behavior of the components that can tell whether they hit a position.
pub trait Hitmap: DynComp {
    /// The component hits `pos`.
    spec fn hit_at(&self, pos: Pos) -> bool;

    /// Returns `true` if the component hits `pos`.
    fn hits(&self, pos: &Pos) -> (r: bool)
        requires
            self.inv(),
        ensures
            r == self.hit_at(*pos),
    ;
}

/// Components that can hit the player: they change from frame to frame and
/// answer the hit test.
pub trait Enemy: Hitmap {

}

/// Components that can hit the player.
pub struct Enemies {
    pub(crate) comps: Vec<Walls>,
}

impl Enemies {
    /// The components, in the order they were added.
    pub open(crate) spec fn spec_comps(&self) -> Seq<Walls> {
        self.comps@
    }

    /// Every component keeps its invariant.
    pub open(crate) spec fn wf(&self) -> bool {
        forall|i: int| 0 <= i < self.comps@.len() ==> (#[trigger] self.comps@[i]).inv()
    }

    /// Each component of `next` is what one frame (`reset` false) or a reset
    /// (`reset` true) leads to from the same component of `self`.
    pub open(crate) spec fn each(&self, next: &Enemies, reset: bool) -> bool {
        &&& next.comps@.len() == self.comps@.len()
        &&& forall|i: int|
            0 <= i < self.comps@.len() ==> if reset {
                self.comps@[i].resets_to(&#[trigger] next.comps@[i])
            } else {
                self.comps@[i].updates_to(&#[trigger] next.comps@[i])
            }
    }

    /// Returns a new, empty set of enemies.
    pub fn new() -> (r: Self)
        ensures
            r.wf(),
            r.spec_comps().len() == 0,
    {
        Enemies { comps: Vec::new() }
    }

    /// Adds an enemy to the set.
    pub fn add_enemy(&mut self, enemy: Walls)
        requires
            old(self).wf(),
            enemy.inv(),
        ensures
            final(self).wf(),
            final(self).spec_comps() == old(self).spec_comps().push(enemy),
    {
        self.comps.push(enemy);
        proof {
            assert forall|i: int| 0 <= i < self.comps@.len() implies (#[trigger] self.comps@[i]).inv() by {
                if i < old(self).comps@.len() {
                    assert(old(self).comps@[i].inv());
                }
            }
        }
    }

    /// Returns the components, in the order they were added.
    pub fn comps(&self) -> (r: &Vec<Walls>)
        ensures
            r@ == self.spec_comps(),
    {
        &self.comps
    }

    /// Updates (`reset` false) or resets (`reset` true) every component.
    fn each_comp(&mut self, reset: bool)
        requires
            old(self).wf(),
        ensures
            final(self).wf(),
            old(self).each(final(self), reset),
    {
        let mut rest: Vec<Walls> = Vec::new();
        std::mem::swap(&mut rest, &mut self.comps);
        let ghost all = rest@;
        let n = rest.len();
        let mut i: usize = 0;
        while i < n
            invariant
                n == all.len(),
                all == old(self).comps@,
                forall|k: int| 0 <= k < all.len() ==> (#[trigger] all[k]).inv(),
                i <= n,
                rest@ == all.subrange(i as int, n as int),
                self.comps@.len() == i,
                forall|k: int|
                    0 <= k < i ==> (#[trigger] self.comps@[k]).inv() && if reset {
                        all[k].resets_to(&self.comps@[k])
                    } else {
                        all[k].updates_to(&self.comps@[k])
                    },
            decreases n - i,
        {
            assert(all[i as int].inv());
            let mut c = rest.remove(0);
            if reset {
                c.reset();
            } else {
                c.update();
            }
            self.comps.push(c);
            i += 1;
            proof {
                assert(rest@ =~= all.subrange(i as int, n as int));
            }
        }
    }
}

impl DynComp for Enemies {
    open spec fn inv(&self) -> bool {
        self.wf()
    }

    open spec fn updates_to(&self, next: &Enemies) -> bool {
        self.each(next, false)
    }

    open spec fn resets_to(&self, next: &Enemies) -> bool {
        self.each(next, true)
    }

    fn update(&mut self) {
        self.each_comp(false);
    }

    fn reset(&mut self) {
        self.each_comp(true);
    }
}

impl Hitmap for Enemies {
    open spec fn hit_at(&self, pos: Pos) -> bool {
        exists|i: int| 0 <= i < self.spec_comps().len() && (#[trigger] self.spec_comps()[i]).hit_at(pos)
    }

    fn hits(&self, pos: &Pos) -> (r: bool) {
        let n = self.comps.len();
        let mut i: usize = 0;
        while i < n
            invariant
                self.wf(),
                n == self.comps@.len(),
                i <= n,
                forall|k: int| 0 <= k < i ==> !(#[trigger] self.comps@[k]).hit_at(*pos),
            decreases n - i,
        {
            assert(self.comps@[i as int].inv());
            if self.comps[i].hits(pos) {
                assert(self.spec_comps()[i as int].hit_at(*pos));
                return true;
            }
            i += 1;
        }
        false
    }
}

impl Enemy for Enemies {

}

} // verus!
