use rand::distributions::{Bernoulli, BernoulliError, Distribution};
use std::collections::VecDeque;
use vstd::prelude::*;

use super::{Enemy, Hitmap};
use crate::components::DynComp;
use crate::graphics::{Obj, Pos, Sprite};

verus! {

#[verifier::external_type_specification]
#[verifier::external_body]
pub struct ExBernoulli(Bernoulli);

#[verifier::external_type_specification]
#[verifier::external_body]
pub struct ExBernoulliError(BernoulliError);

/// Relies on `rand::distributions::Bernoulli::from_ratio`: it fails exactly
/// when the denominator is 0 or smaller than the numerator.
#[verifier::external_body]
fn bernoulli_from_ratio(numerator: u32, denominator: u32) -> (r: Result<Bernoulli, BernoulliError>)
    ensures
        r.is_ok() <==> (denominator != 0 && numerator <= denominator),
{
    Bernoulli::from_ratio(numerator, denominator)
}

/// Relies on `Bernoulli::sample` with `rand::thread_rng`: a random outcome.
#[verifier::external_body]
fn bernoulli_draw(dist: &Bernoulli) -> bool {
    dist.sample(&mut rand::thread_rng())
}

/// Relies on `rand::random::<bool>`: a random outcome.
#[verifier::external_body]
fn coin() -> bool {
    rand::random::<bool>()
}

/// Relies on the display of `termion::color::Fg(termion::color::Red)`: the
/// escape sequence that turns the foreground red.
#[verifier::external_body]
fn red_foreground() -> String {
    termion::color::Fg(termion::color::Red).to_string()
}

/// Wall slots drawn at random in each chunk.
pub const CHUNK_WALLS: usize = 4;

/// Empty slots that follow them.
pub const CHUNK_GAP: usize = 4;

/// Chance of a wall in a slot: `WALL_CHANCE` out of `WALL_CHANCE_OUT_OF`.
pub const WALL_CHANCE: u32 = 16;

/// See [`WALL_CHANCE`].
pub const WALL_CHANCE_OUT_OF: u32 = 100;

/// Kinds of wall.
#[derive(Debug, Clone, Copy, PartialEq, Eq, Structural)]
pub enum Wall {
    /// Two rows high.
    Big,
    /// One row high.
    Small,
    /// No wall.
    Void,
}

/// Rows that a wall of kind `w` fills.
pub open spec fn wall_height(w: Wall) -> nat {
    match w {
        Wall::Big => 2,
        Wall::Small => 1,
        Wall::Void => 0,
    }
}

/// The wall of slot `slot` of a chunk, given whether the draw put a wall
/// there and, for the inner slots, whether it is a big one. The first and
/// the last wall slots only ever hold small walls.
pub open spec fn slot_wall_spec(slot: nat, has_wall: bool, is_big: bool) -> Wall {
    if !has_wall || slot >= CHUNK_WALLS {
        Wall::Void
    } else if slot == 0 || slot == CHUNK_WALLS - 1 {
        Wall::Small
    } else if is_big {
        Wall::Big
    } else {
        Wall::Small
    }
}

/// Slot `slot` of a chunk may hold `w`, whatever the draws were.
pub open spec fn slot_allows(slot: nat, w: Wall) -> bool {
    &&& (slot == 0 || slot == CHUNK_WALLS - 1) ==> w != Wall::Big
    &&& slot >= CHUNK_WALLS ==> w == Wall::Void
}

/// Returns the wall of slot `slot` of a chunk, given whether the draw put a
/// wall there and, for the inner slots, whether it is a big one.
pub fn slot_wall(slot: usize, has_wall: bool, is_big: bool) -> (w: Wall)
    ensures
        w == slot_wall_spec(slot as nat, has_wall, is_big),
        slot_allows(slot as nat, w),
{
    if !has_wall || slot >= CHUNK_WALLS {
        Wall::Void
    } else if slot == 0 || slot == CHUNK_WALLS - 1 {
        Wall::Small
    } else if is_big {
        Wall::Big
    } else {
        Wall::Small
    }
}

/// Top row of a wall `h` rows high standing on `floor`; row 1 where there is
/// no room above the floor.
pub open spec fn spawn_row(floor: u16, h: nat) -> u16 {
    if floor >= h {
        (floor - h) as u16
    } else {
        1
    }
}

/// `o` is the object that stands for a wall of kind `w` (not void) drawn as
/// `icon` and spawned at `pos`: one column wide, as high as the wall, its
/// bottom row just above `pos.row`.
pub open spec fn spawned(o: Obj, w: Wall, icon: char, pos: Pos) -> bool {
    &&& o.pos == (Pos { col: pos.col, row: spawn_row(pos.row, wall_height(w)) })
    &&& o.sprite.wf()
    &&& o.sprite.spec_width() == 1
    &&& o.sprite.spec_height() == wall_height(w)
    &&& o.sprite.cells() == Seq::new(wall_height(w), |i: int| icon)
}

impl Wall {
    /// Returns the object that stands for this wall, drawn as `sprite_char`
    /// and spawned at `pos`; `None` for a void slot.
    pub fn to_obj(&self, sprite_char: char, pos: Pos) -> (r: Option<Obj>)
        ensures
            *self == Wall::Void <==> r.is_none(),
            r matches Some(o) ==> spawned(o, *self, sprite_char, pos),
    {
        let h: u16 = match self {
            Wall::Big => 2,
            Wall::Small => 1,
            Wall::Void => {
                return None;
            },
        };
        let row = if pos.row >= h {
            pos.row - h
        } else {
            1
        };
        let ascii_matrix = vec![sprite_char; h as usize];
        let sprite = match Sprite::new(ascii_matrix, 1) {
            Ok(s) => s,
            Err(_) => vstd::pervasive::unreached(),
        };
        proof {
            assert(sprite.cells() =~= Seq::new(wall_height(*self), |i: int| sprite_char));
        }
        Some(Obj::new(Pos { col: pos.col, row }, sprite, red_foreground()))
    }
}

/// Column at which an object in column `col` counts for a hit, where
/// obstacles move `shift` columns per frame.
pub open spec fn effective_col(col: u16, shift: u16) -> int {
    col + col % shift
}

/// Obstacle `o` hits `p`: its effective column is `p`'s column and `p`'s row
/// is one of the rows it fills.
pub open spec fn covers(o: Obj, shift: u16, p: Pos) -> bool {
    &&& effective_col(o.pos.col, shift) == p.col
    &&& o.pos.row <= p.row < o.pos.row + o.sprite.spec_height()
}

/// The hit test over obstacles kept oldest (leftmost) first: some obstacle
/// covers `p`, and no obstacle before it lies right of `p`.
pub open spec fn scan_hits(objs: Seq<Obj>, shift: u16, p: Pos) -> bool {
    exists|i: int|
        0 <= i < objs.len() && #[trigger] covers(objs[i], shift, p) && forall|j: int|
            0 <= j < i ==> effective_col(#[trigger] objs[j].pos.col, shift) <= p.col
}

/// The object one frame later: `shift` columns further left, stopping at
/// column 0.
pub open spec fn shifted_obj(o: Obj, shift: u16) -> Obj {
    Obj {
        pos: Pos {
            col: if o.pos.col >= shift {
                (o.pos.col - shift) as u16
            } else {
                0
            },
            ..o.pos
        },
        ..o
    }
}

/// Objects spawned in column `spawn` and moved `shift` columns per frame
/// since, oldest first: their columns never decrease along the sequence,
/// none is right of the spawn column, and each is in column 0 or a whole
/// number of moves away from the spawn column.
pub open spec fn spawn_ordered(objs: Seq<Obj>, spawn: u16, shift: u16) -> bool {
    &&& forall|i: int, j: int|
        0 <= i < j < objs.len() ==> (#[trigger] objs[i]).pos.col <= (#[trigger] objs[j]).pos.col
    &&& forall|i: int|
        0 <= i < objs.len() ==> {
            let c = (#[trigger] objs[i]).pos.col;
            &&& c <= spawn
            &&& c == 0 || c % shift == spawn % shift
        }
}

/// Obstacle walls: a queue of walls to come, and the objects of the walls
/// already on screen, oldest first.
pub struct Walls {
    pub(crate) pos: Pos,
    pub(crate) icon: char,
    pub(crate) shift: u16,
    pub(crate) queue: VecDeque<Wall>,
    pub(crate) objs: VecDeque<Obj>,
    pub(crate) wall_prob: Bernoulli,
}

impl Walls {
    /// Where walls spawn: the spawn column, and the floor row they stand on.
    pub open(crate) spec fn spec_pos(&self) -> Pos {
        self.pos
    }

    /// Character that walls are drawn with.
    pub open(crate) spec fn spec_icon(&self) -> char {
        self.icon
    }

    /// Columns that walls move per frame.
    pub open(crate) spec fn spec_shift(&self) -> u16 {
        self.shift
    }

    /// Walls to come, next first.
    pub open(crate) spec fn spec_queue(&self) -> Seq<Wall> {
        self.queue@
    }

    /// Objects of the walls on screen, oldest first.
    pub open(crate) spec fn spec_objs(&self) -> Seq<Obj> {
        self.objs@
    }

    /// Walls move, and every object on screen has a well-formed sprite.
    pub open(crate) spec fn wf(&self) -> bool {
        &&& self.shift > 0
        &&& forall|i: int| 0 <= i < self.objs@.len() ==> (#[trigger] self.objs@[i]).sprite.wf()
        &&& spawn_ordered(self.objs@, self.pos.col, self.shift)
    }

    /// The objects after one frame of moving left, before the oldest one is
    /// retired.
    pub open(crate) spec fn moved_objs(&self) -> Seq<Obj> {
        self.objs@.map_values(|o: Obj| shifted_obj(o, self.shift))
    }

    /// The objects after one frame of moving left and retiring the oldest
    /// one if it reached column 0.
    pub open(crate) spec fn kept_objs(&self) -> Seq<Obj> {
        let m = self.moved_objs();
        if m.len() > 0 && m[0].pos.col == 0 {
            m.drop_first()
        } else {
            m
        }
    }

    /// What one frame can lead to: walls move and the oldest is retired if
    /// it reached column 0; then the next queued wall spawns, or, with the
    /// queue empty, a new chunk is queued.
    pub open(crate) spec fn frame(&self, next: &Walls) -> bool {
        let kept = self.kept_objs();
        &&& next.pos == self.pos
        &&& next.icon == self.icon
        &&& next.shift == self.shift
        &&& next.wall_prob == self.wall_prob
        &&& if self.queue@.len() > 0 {
            let w = self.queue@[0];
            &&& next.queue@ == self.queue@.drop_first()
            &&& if w == Wall::Void {
                next.objs@ == kept
            } else {
                &&& next.objs@.len() == kept.len() + 1
                &&& next.objs@.drop_last() == kept
                &&& spawned(next.objs@.last(), w, self.icon, self.pos)
            }
        } else {
            &&& next.objs@ == kept
            &&& next.queue@.len() == CHUNK_WALLS + CHUNK_GAP
            &&& forall|k: int|
                0 <= k < next.queue@.len() ==> slot_allows(k as nat, #[trigger] next.queue@[k])
        }
    }

    /// Both the queue and the screen are empty; the rest is unchanged.
    pub open(crate) spec fn cleared(&self, next: &Walls) -> bool {
        &&& next.queue@.len() == 0
        &&& next.objs@.len() == 0
        &&& next.pos == self.pos
        &&& next.icon == self.icon
        &&& next.shift == self.shift
        &&& next.wall_prob == self.wall_prob
    }

    /// Returns walls drawn as `icon`, spawned at `pos.col` on the floor
    /// `pos.row`, moving `shift` columns per frame.
    pub fn new(icon: char, pos: Pos, shift: u16) -> (r: Self)
        requires
            shift > 0,
        ensures
            r.wf(),
            r.spec_pos() == pos,
            r.spec_icon() == icon,
            r.spec_shift() == shift,
            r.spec_queue().len() == 0,
            r.spec_objs().len() == 0,
    {
        let wall_prob = match bernoulli_from_ratio(WALL_CHANCE, WALL_CHANCE_OUT_OF) {
            Ok(b) => b,
            Err(_) => vstd::pervasive::unreached(),
        };
        Walls {
            pos,
            icon,
            shift,
            queue: VecDeque::with_capacity(CHUNK_WALLS + CHUNK_GAP),
            objs: VecDeque::new(),
            wall_prob,
        }
    }

    /// Queues a wall after the ones already queued.
    pub fn push_wall(&mut self, w: Wall)
        requires
            old(self).wf(),
        ensures
            final(self).wf(),
            final(self).spec_queue() == old(self).spec_queue().push(w),
            final(self).spec_objs() == old(self).spec_objs(),
            final(self).spec_pos() == old(self).spec_pos(),
            final(self).spec_icon() == old(self).spec_icon(),
            final(self).spec_shift() == old(self).spec_shift(),
    {
        self.queue.push_back(w);
    }

    /// Returns the objects of the walls on screen, oldest first.
    pub fn objs(&self) -> (r: &VecDeque<Obj>)
        ensures
            r@ == self.spec_objs(),
    {
        &self.objs
    }

    /// Queues a chunk: `CHUNK_WALLS` slots drawn at random, then `CHUNK_GAP`
    /// void ones.
    fn gen_walls(&mut self)
        ensures
            final(self).queue@.len() == old(self).queue@.len() + CHUNK_WALLS + CHUNK_GAP,
            final(self).queue@.subrange(0, old(self).queue@.len() as int) == old(self).queue@,
            forall|k: int|
                0 <= k < CHUNK_WALLS + CHUNK_GAP ==> slot_allows(
                    k as nat,
                    #[trigger] final(self).queue@[old(self).queue@.len() + k],
                ),
            final(self).objs == old(self).objs,
            final(self).pos == old(self).pos,
            final(self).icon == old(self).icon,
            final(self).shift == old(self).shift,
            final(self).wall_prob == old(self).wall_prob,
    {
        let ghost q0 = self.queue@;
        let mut i: usize = 0;
        while i < CHUNK_WALLS + CHUNK_GAP
            invariant
                i <= CHUNK_WALLS + CHUNK_GAP,
                self.queue@.len() == q0.len() + i,
                self.queue@.subrange(0, q0.len() as int) == q0,
                forall|k: int|
                    0 <= k < i ==> slot_allows(k as nat, #[trigger] self.queue@[q0.len() + k]),
                self.objs == old(self).objs,
                self.pos == old(self).pos,
                self.icon == old(self).icon,
                self.shift == old(self).shift,
                self.wall_prob == old(self).wall_prob,
            decreases CHUNK_WALLS + CHUNK_GAP - i,
        {
            let w = if i < CHUNK_WALLS {
                let has_wall = bernoulli_draw(&self.wall_prob);
                let is_big = if has_wall && i != 0 && i != CHUNK_WALLS - 1 {
                    coin()
                } else {
                    false
                };
                slot_wall(i, has_wall, is_big)
            } else {
                Wall::Void
            };
            let ghost before = self.queue@;
            self.queue.push_back(w);
            proof {
                assert(self.queue@.subrange(0, q0.len() as int) =~= before.subrange(0, q0.len() as int));
                assert forall|k: int| 0 <= k < i + 1 implies slot_allows(
                    k as nat,
                    #[trigger] self.queue@[q0.len() + k],
                ) by {
                    if k < i {
                        assert(self.queue@[q0.len() + k] == before[q0.len() + k]);
                    }
                }
            }
            i += 1;
        }
    }

    /// Moves each wall object `shift` columns left, stopping at column 0.
    fn shift_objs(&mut self)
        ensures
            final(self).objs@ == old(self).moved_objs(),
            final(self).queue == old(self).queue,
            final(self).pos == old(self).pos,
            final(self).icon == old(self).icon,
            final(self).shift == old(self).shift,
            final(self).wall_prob == old(self).wall_prob,
    {
        let mut rest: VecDeque<Obj> = VecDeque::new();
        std::mem::swap(&mut rest, &mut self.objs);
        let ghost all = rest@;
        let ghost target = old(self).moved_objs();
        let n = rest.len();
        let mut i: usize = 0;
        while i < n
            invariant
                n == all.len(),
                target.len() == all.len(),
                forall|k: int| 0 <= k < all.len() ==> #[trigger] target[k] == shifted_obj(all[k], self.shift),
                i <= n,
                rest@ == all.subrange(i as int, n as int),
                self.objs@ == target.subrange(0, i as int),
                self.queue == old(self).queue,
                self.pos == old(self).pos,
                self.icon == old(self).icon,
                self.shift == old(self).shift,
                self.wall_prob == old(self).wall_prob,
            decreases n - i,
        {
            let mut o = match rest.pop_front() {
                Some(o) => o,
                None => vstd::pervasive::unreached(),
            };
            o.pos.col = o.pos.col.saturating_sub(self.shift);
            self.objs.push_back(o);
            i += 1;
            proof {
                assert(rest@ =~= all.subrange(i as int, n as int));
                assert(self.objs@ =~= target.subrange(0, i as int));
            }
        }
        proof {
            assert(self.objs@ =~= target);
        }
    }

    /// Retires the oldest object if it reached column 0.
    fn clean_objs(&mut self)
        ensures
            final(self).objs@ == if old(self).objs@.len() > 0 && old(self).objs@[0].pos.col == 0 {
                old(self).objs@.drop_first()
            } else {
                old(self).objs@
            },
            final(self).queue == old(self).queue,
            final(self).pos == old(self).pos,
            final(self).icon == old(self).icon,
            final(self).shift == old(self).shift,
            final(self).wall_prob == old(self).wall_prob,
    {
        if self.objs.len() > 0 && self.objs[0].pos.col == 0 {
            let _ = self.objs.pop_front();
            proof {
                assert(self.objs@ =~= old(self).objs@.drop_first());
            }
        }
    }
}

impl DynComp for Walls {
    open spec fn inv(&self) -> bool {
        self.wf()
    }

    open spec fn updates_to(&self, next: &Walls) -> bool {
        self.frame(next)
    }

    open spec fn resets_to(&self, next: &Walls) -> bool {
        self.cleared(next)
    }

    fn update(&mut self) {
        self.shift_objs();
        self.clean_objs();
        match self.queue.pop_front() {
            Some(w) => {
                if let Some(obj) = w.to_obj(self.icon, self.pos) {
                    let ghost before = self.objs@;
                    self.objs.push_back(obj);
                    proof {
                        assert(self.objs@.drop_last() =~= before);
                    }
                }
            },
            None => {
                self.gen_walls();
                proof {
                    assert forall|k: int| 0 <= k < self.queue@.len() implies slot_allows(
                        k as nat,
                        #[trigger] self.queue@[k],
                    ) by {
                        assert(self.queue@[0 + k] == self.queue@[k]);
                    }
                }
            },
        }
        proof {
            let kept = old(self).kept_objs();
            let m = old(self).moved_objs();
            let (sp, sh) = (self.pos.col, self.shift);
            assert forall|i: int| 0 <= i < m.len() implies {
                let c = (#[trigger] m[i]).pos.col;
                &&& c <= sp
                &&& c == 0 || c % sh == sp % sh
            } by {
                let c0 = old(self).objs@[i].pos.col;
                if c0 >= sh && c0 - sh != 0 {
                    vstd::arithmetic::div_mod::lemma_mod_add_multiples_vanish((c0 - sh) as int, sh as int);
                }
            }
            assert forall|i: int, j: int| 0 <= i < j < m.len() implies (#[trigger] m[i]).pos.col
                <= (#[trigger] m[j]).pos.col by {
                assert(old(self).objs@[i].pos.col <= old(self).objs@[j].pos.col);
            }
            assert(spawn_ordered(kept, sp, sh)) by {
                if m.len() > 0 && m[0].pos.col == 0 {
                    assert forall|i: int, j: int| 0 <= i < j < kept.len() implies (#[trigger] kept[i]).pos.col
                        <= (#[trigger] kept[j]).pos.col by {
                        assert(kept[i] == m[i + 1] && kept[j] == m[j + 1]);
                    }
                    assert forall|i: int| 0 <= i < kept.len() implies {
                        let c = (#[trigger] kept[i]).pos.col;
                        &&& c <= sp
                        &&& c == 0 || c % sh == sp % sh
                    } by {
                        assert(kept[i] == m[i + 1]);
                    }
                }
            }
            if self.objs@.len() > kept.len() {
                assert(self.objs@.drop_last() == kept);
                assert forall|i: int, j: int| 0 <= i < j < self.objs@.len() implies (#[trigger] self.objs@[i]).pos.col
                    <= (#[trigger] self.objs@[j]).pos.col by {
                    assert(self.objs@[i] == kept[i]);
                    if j < kept.len() {
                        assert(self.objs@[j] == kept[j]);
                    }
                }
                assert forall|i: int| 0 <= i < self.objs@.len() implies {
                    let c = (#[trigger] self.objs@[i]).pos.col;
                    &&& c <= sp
                    &&& c == 0 || c % sh == sp % sh
                } by {
                    if i < kept.len() {
                        assert(self.objs@[i] == kept[i]);
                    }
                }
            }
            assert(self.objs@.len() >= kept.len());
            assert forall|i: int| 0 <= i < self.objs@.len() implies (#[trigger] self.objs@[i]).sprite.wf() by {
                if i < kept.len() {
                    let m = old(self).moved_objs();
                    if m.len() > 0 && m[0].pos.col == 0 {
                        assert(kept[i] == m[i + 1]);
                        assert(old(self).objs@[i + 1].sprite.wf());
                    } else {
                        assert(old(self).objs@[i].sprite.wf());
                    }
                    assert(self.objs@[i] == kept[i]);
                }
            }
        }
    }

    fn reset(&mut self) {
        self.queue.clear();
        self.objs.clear();
    }
}

impl Hitmap for Walls {
    open spec fn hit_at(&self, p: Pos) -> bool {
        scan_hits(self.spec_objs(), self.spec_shift(), p)
    }

    fn hits(&self, p: &Pos) -> (r: bool) {
        let n = self.objs.len();
        let mut i: usize = 0;
        while i < n
            invariant
                self.inv(),
                n == self.objs@.len(),
                i <= n,
                forall|j: int|
                    0 <= j < i ==> effective_col(#[trigger] self.objs@[j].pos.col, self.shift) <= p.col
                        && !covers(self.objs@[j], self.shift, *p),
            decreases n - i,
        {
            let o = &self.objs[i];
            let col = o.pos.col as u32 + (o.pos.col % self.shift) as u32;
            let (_, height) = o.sprite.size();
            if col > p.col as u32 {
                proof {
                    assert forall|k: int| 0 <= k < n && covers(self.objs@[k], self.shift, *p) implies !(
                    forall|j: int|
                        0 <= j < k ==> effective_col(#[trigger] self.objs@[j].pos.col, self.shift)
                            <= p.col) by {
                        if k > i {
                            assert(effective_col(self.objs@[i as int].pos.col, self.shift) > p.col);
                        }
                    }
                }
                return false;
            }
            if col == p.col as u32 && o.pos.row <= p.row && (p.row as u32) < o.pos.row as u32 + height as u32 {
                proof {
                    assert(covers(self.objs@[i as int], self.shift, *p));
                }
                return true;
            }
            i += 1;
        }
        false
    }
}

/// A position left of the effective column of every wall on screen is not
/// hit.
pub proof fn lemma_left_of_walls_is_safe(w: Walls, p: Pos)
    requires
        w.wf(),
        forall|i: int|
            0 <= i < w.spec_objs().len() ==> p.col < effective_col(
                #[trigger] w.spec_objs()[i].pos.col,
                w.spec_shift(),
            ),
    ensures
        !w.hit_at(p),
{
    if w.hit_at(p) {
        let i = choose|i: int|
            0 <= i < w.spec_objs().len() && #[trigger] covers(w.spec_objs()[i], w.spec_shift(), p)
                && forall|j: int|
                0 <= j < i ==> effective_col(#[trigger] w.spec_objs()[j].pos.col, w.spec_shift())
                    <= p.col;
        assert(p.col < effective_col(w.spec_objs()[i].pos.col, w.spec_shift()));
    }
}

/// On well-formed walls the hit test, which stops at the first wall right of
/// the position, is exact: a position is hit exactly when some wall on screen
/// covers it.
pub proof fn lemma_hit_is_exact(w: Walls, p: Pos)
    requires
        w.wf(),
    ensures
        w.hit_at(p) <==> exists|i: int|
            0 <= i < w.spec_objs().len() && #[trigger] covers(w.spec_objs()[i], w.spec_shift(), p),
{
    let objs = w.spec_objs();
    let s = w.spec_shift();
    if exists|i: int| 0 <= i < objs.len() && #[trigger] covers(objs[i], s, p) {
        let i = choose|i: int| 0 <= i < objs.len() && #[trigger] covers(objs[i], s, p);
        assert forall|j: int| 0 <= j < i implies effective_col(#[trigger] objs[j].pos.col, s) <= p.col by {
            let (cj, ci) = (objs[j].pos.col, objs[i].pos.col);
            assert(cj <= ci);
            assert(cj == 0 || cj % s == w.spec_pos().col % s);
            assert(ci == 0 || ci % s == w.spec_pos().col % s);
            if cj == 0 {
                vstd::arithmetic::div_mod::lemma_small_mod(0, s as nat);
            }
        }
    }
}

impl Enemy for Walls {

}

} // verus!
