use std::collections::VecDeque;
use vstd::prelude::*;

use crate::components::DynComp;
use crate::graphics::{Obj, Pos, Sprite};

verus! {

/// One pending move of the player, applied on one frame.
#[derive(Debug, Clone, Copy, PartialEq, Eq, Structural)]
pub enum Move {
    /// Go up by the given number of rows.
    Up(u16),
    /// Go down by the given number of rows.
    Down(u16),
    /// Stay where it is.
    Stop,
}

/// What the player is doing.
#[derive(Debug, Clone, Copy, PartialEq, Eq, Structural)]
pub enum PlayerState {
    /// In the air, with moves pending.
    Jumping,
    /// On the ground, with no move pending.
    Running,
    /// Out of the game until a reset.
    Killed,
}

/// Column at which the player runs.
pub const PLAYER_COL: u16 = 8;

/// `n` copies of the move `m`.
pub open spec fn repeated(m: Move, n: nat) -> Seq<Move> {
    Seq::new(n, |i: int| m)
}

/// The moves that a jump of height `h` queues when the player is at `row`:
/// `h` steps up (none where the player is already at the top row), one
/// stop at the apex, then `h` steps down.
pub open spec fn jump_moves(h: nat, row: int) -> Seq<Move> {
    let ups = if row > 1 {
        repeated(Move::Up(1), h)
    } else {
        Seq::empty()
    };
    ups.push(Move::Stop) + repeated(Move::Down(1), h)
}

/// The row after move `m` from `row`: a step up is taken only where the
/// player stays at row 1 or below it, and a step down stops at the last row a
/// `u16` can name.
pub open spec fn moved_row(row: u16, m: Move) -> u16 {
    match m {
        Move::Up(a) => if row > a {
            (row - a) as u16
        } else {
            row
        },
        Move::Down(a) => if row + a <= u16::MAX {
            (row + a) as u16
        } else {
            u16::MAX
        },
        Move::Stop => row,
    }
}

/// A player of the game: its object, its state and the queue of its pending
/// moves.
pub struct Player {
    /// What the player is doing.
    pub state: PlayerState,
    /// Position, sprite and color of the player.
    pub obj: Obj,
    pub(crate) default_pos: Pos,
    pub(crate) moves: VecDeque<Move>,
}

impl Player {
    /// What the player is doing.
    pub open(crate) spec fn spec_state(&self) -> PlayerState {
        self.state
    }

    /// Position, sprite and color of the player.
    pub open(crate) spec fn spec_obj(&self) -> Obj {
        self.obj
    }

    /// Where the player is.
    pub open(crate) spec fn spec_pos(&self) -> Pos {
        self.obj.pos
    }

    /// Where the player spawns.
    pub open(crate) spec fn spec_default_pos(&self) -> Pos {
        self.default_pos
    }

    /// The pending moves, next first.
    pub open(crate) spec fn spec_moves(&self) -> Seq<Move> {
        self.moves@
    }

    /// A running player has no pending move, and a jumping one has some.
    pub open(crate) spec fn wf(&self) -> bool {
        &&& self.state == PlayerState::Running ==> self.moves@.len() == 0
        &&& self.state == PlayerState::Jumping ==> self.moves@.len() > 0
    }

    /// The player after one frame: the next move, if any, is applied, and a
    /// player that is not killed is running once no move is left.
    pub open(crate) spec fn stepped(&self, next: &Player) -> bool {
        let rest = if self.moves@.len() == 0 {
            self.moves@
        } else {
            self.moves@.drop_first()
        };
        &&& next.moves@ == rest
        &&& next.obj.pos.col == self.obj.pos.col
        &&& next.obj.pos.row == if self.moves@.len() == 0 {
            self.obj.pos.row
        } else {
            moved_row(self.obj.pos.row, self.moves@[0])
        }
        &&& next.state == if rest.len() == 0 && self.state != PlayerState::Killed {
            PlayerState::Running
        } else {
            self.state
        }
        &&& next.default_pos == self.default_pos
        &&& next.obj.sprite == self.obj.sprite
        &&& next.obj.color == self.obj.color
    }

    /// The player back at its spawn position, running, with no pending move.
    pub open(crate) spec fn respawned(&self, next: &Player) -> bool {
        &&& next.moves@.len() == 0
        &&& next.obj.pos == self.default_pos
        &&& next.state == PlayerState::Running
        &&& next.default_pos == self.default_pos
        &&& next.obj.sprite == self.obj.sprite
        &&& next.obj.color == self.obj.color
    }

    /// Creates a running player drawn as `icon`, one row above `floor`.
    pub fn new(icon: char, color: String, floor: u16) -> (r: Player)
        requires
            floor >= 1,
        ensures
            r.wf(),
            r.spec_state() == PlayerState::Running,
            r.spec_pos() == (Pos { col: PLAYER_COL, row: (floor - 1) as u16 }),
            r.spec_default_pos() == r.spec_pos(),
            r.spec_moves().len() == 0,
            r.spec_obj().sprite.wf(),
            r.spec_obj().sprite.cells() == seq![icon],
            r.spec_obj().color == color,
    {
        let chars = vec![icon];
        let sprite = match Sprite::new(chars, 1) {
            Ok(s) => s,
            Err(_) => vstd::pervasive::unreached(),
        };
        let pos = Pos { col: PLAYER_COL, row: floor - 1 };
        Player {
            state: PlayerState::Running,
            obj: Obj::new(pos, sprite, color),
            default_pos: pos,
            moves: VecDeque::new(),
        }
    }

    /// Returns the position of the player.
    pub fn pos(&self) -> (r: Pos)
        ensures
            r == self.spec_pos(),
    {
        self.obj.pos
    }

    /// Returns the number of pending moves.
    pub fn pending(&self) -> (r: usize)
        ensures
            r == self.spec_moves().len(),
    {
        self.moves.len()
    }

    /// Queues a step up, unless the player is already at the top row.
    fn up(&mut self, amount: u16)
        ensures
            final(self).moves@ == if old(self).obj.pos.row > 1 {
                old(self).moves@.push(Move::Up(amount))
            } else {
                old(self).moves@
            },
            final(self).state == old(self).state,
            final(self).obj == old(self).obj,
            final(self).default_pos == old(self).default_pos,
    {
        if self.obj.pos.row > 1 {
            self.moves.push_back(Move::Up(amount));
        }
    }

    /// Queues a step down.
    fn down(&mut self, amount: u16)
        ensures
            final(self).moves@ == old(self).moves@.push(Move::Down(amount)),
            final(self).state == old(self).state,
            final(self).obj == old(self).obj,
            final(self).default_pos == old(self).default_pos,
    {
        self.moves.push_back(Move::Down(amount));
    }

    /// Queues a frame without movement.
    fn stop(&mut self)
        ensures
            final(self).moves@ == old(self).moves@.push(Move::Stop),
            final(self).state == old(self).state,
            final(self).obj == old(self).obj,
            final(self).default_pos == old(self).default_pos,
    {
        self.moves.push_back(Move::Stop);
    }

    /// Starts a jump of `height` rows: a running player starts jumping and
    /// queues the jump's moves; otherwise nothing changes.
    pub fn jump(&mut self, height: u16)
        requires
            old(self).wf(),
        ensures
            final(self).wf(),
            old(self).spec_state() == PlayerState::Running ==> {
                &&& final(self).spec_state() == PlayerState::Jumping
                &&& final(self).spec_moves() == jump_moves(height as nat, old(self).spec_pos().row as int)
                &&& final(self).spec_obj() == old(self).spec_obj()
                &&& final(self).spec_default_pos() == old(self).spec_default_pos()
            },
            old(self).spec_state() != PlayerState::Running ==> *final(self) == *old(self),
    {
        if let PlayerState::Running = self.state {
            self.state = PlayerState::Jumping;
            let ghost row = self.obj.pos.row;
            let mut i: u16 = 0;
            while i < height
                invariant
                    i <= height,
                    self.obj.pos.row == row,
                    self.state == PlayerState::Jumping,
                    self.obj == old(self).obj,
                    self.default_pos == old(self).default_pos,
                    self.moves@ == if row > 1 {
                        repeated(Move::Up(1), i as nat)
                    } else {
                        Seq::empty()
                    },
                decreases height - i,
            {
                self.up(1);
                i += 1;
                proof {
                    if row > 1 {
                        assert(self.moves@ =~= repeated(Move::Up(1), i as nat));
                    }
                }
            }
            self.stop();
            let ghost ups = self.moves@;
            let mut j: u16 = 0;
            while j < height
                invariant
                    j <= height,
                    self.state == PlayerState::Jumping,
                    self.obj == old(self).obj,
                    self.default_pos == old(self).default_pos,
                    self.moves@ == ups + repeated(Move::Down(1), j as nat),
                    ups.len() > 0,
                decreases height - j,
            {
                self.down(1);
                j += 1;
                proof {
                    assert(self.moves@ =~= ups + repeated(Move::Down(1), j as nat));
                }
            }
        }
    }

    /// Kills the player.
    pub fn kill(&mut self)
        ensures
            final(self).spec_state() == PlayerState::Killed,
            final(self).spec_moves() == old(self).spec_moves(),
            final(self).spec_obj() == old(self).spec_obj(),
            final(self).spec_default_pos() == old(self).spec_default_pos(),
    {
        self.state = PlayerState::Killed;
    }

    /// Applies the next pending move, if any; a player that is not killed is
    /// running once no move is left.
    pub fn mv(&mut self)
        requires
            old(self).wf(),
        ensures
            final(self).wf(),
            old(self).stepped(final(self)),
    {
        if let Some(m) = self.moves.pop_front() {
            let row = self.obj.pos.row;
            match m {
                Move::Up(amount) => {
                    if row > amount {
                        self.obj.pos.row = row - amount;
                    }
                },
                Move::Down(amount) => {
                    self.obj.pos.row = row.saturating_add(amount);
                },
                Move::Stop => {},
            }
        }
        if self.moves.len() == 0 {
            if let PlayerState::Killed = self.state {
            } else {
                self.state = PlayerState::Running;
            }
        }
    }
}

impl DynComp for Player {
    open spec fn inv(&self) -> bool {
        self.wf()
    }

    open spec fn updates_to(&self, next: &Player) -> bool {
        self.stepped(next)
    }

    open spec fn resets_to(&self, next: &Player) -> bool {
        self.respawned(next)
    }

    fn update(&mut self) {
        self.mv();
    }

    fn reset(&mut self) {
        self.obj.pos = self.default_pos;
        self.moves.clear();
        self.state = PlayerState::Running;
    }
}

} // verus!
