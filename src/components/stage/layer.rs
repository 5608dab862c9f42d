use vstd::prelude::*;

use crate::components::DynComp;
use crate::graphics::object::{lemma_cell_in_bounds, lemma_row_major};
use crate::graphics::{Size, Sprite};

verus! {

/// Greatest common divisor.
pub open spec fn gcd(a: nat, b: nat) -> nat
    decreases b,
{
    if b == 0 {
        a
    } else {
        gcd(b, a % b)
    }
}

/// The greatest common divisor of two numbers, not both zero, is positive
/// and divides both.
pub proof fn lemma_gcd_divides(a: nat, b: nat)
    requires
        a > 0 || b > 0,
    ensures
        gcd(a, b) > 0,
        a % gcd(a, b) == 0,
        b % gcd(a, b) == 0,
    decreases b,
{
    if b == 0 {
        vstd::arithmetic::div_mod::lemma_mod_self_0(a as int);
    } else {
        let r = a % b;
        lemma_gcd_divides(b, r);
        let g = gcd(b, r);
        assert(gcd(a, b) == g);
        let q1 = b / g;
        let q2 = r / g;
        let q = a / b;
        vstd::arithmetic::div_mod::lemma_fundamental_div_mod(b as int, g as int);
        vstd::arithmetic::div_mod::lemma_fundamental_div_mod(r as int, g as int);
        vstd::arithmetic::div_mod::lemma_fundamental_div_mod(a as int, b as int);
        assert(a == g * (q1 * q + q2)) by (nonlinear_arith)
            requires
                a == b * q + r,
                b == g * q1,
                r == g * q2,
        ;
        vstd::arithmetic::mul::lemma_mul_is_commutative(g as int, (q1 * q + q2) as int);
        vstd::arithmetic::div_mod::lemma_mod_multiples_basic((q1 * q + q2) as int, g as int);
    }
}

/// One horizontally scrolling band of a [`Stage`](super::Stage): a sprite
/// seen through a window of fixed width that starts at `offset` and wraps
/// around the sprite's right edge.
pub struct Layer {
    /// Size of the visible window: its width, and the sprite's height.
    pub size: Size,
    pub(crate) sprite: Sprite,
    pub(crate) shift: u16,
    pub(crate) offset: u16,
}

impl Layer {
    /// Size of the visible window.
    pub open(crate) spec fn spec_size(&self) -> Size {
        self.size
    }

    /// The sprite seen through the window.
    pub open(crate) spec fn spec_sprite(&self) -> Sprite {
        self.sprite
    }

    /// Columns moved on each frame.
    pub open(crate) spec fn spec_shift(&self) -> nat {
        self.shift as nat
    }

    /// First sprite column of the window.
    pub open(crate) spec fn spec_offset(&self) -> nat {
        self.offset as nat
    }

    /// The sprite is well formed, the window is not empty, both have the same
    /// height, and the offset names a column of the sprite.
    pub open(crate) spec fn wf(&self) -> bool {
        &&& self.sprite.wf()
        &&& self.size.width > 0
        &&& self.size.height == self.sprite.spec_height()
        &&& self.offset < self.sprite.spec_width()
    }

    /// Sprite column shown in window column `k`.
    pub open(crate) spec fn source_col(&self, k: int) -> int {
        (self.offset + k) % (self.sprite.spec_width() as int)
    }

    /// What the window shows, row by row: window column `k` of row `r` shows
    /// sprite column `(offset + k) mod sprite width`.
    pub open(crate) spec fn window(&self) -> Seq<char> {
        let w = self.size.width as int;
        Seq::new(
            (self.size.width * self.size.height) as nat,
            |idx: int| self.sprite.at(idx / w, self.source_col(idx % w)),
        )
    }

    /// The layer one frame later: the offset moves by `shift`, modulo the
    /// sprite width.
    pub open(crate) spec fn advanced(&self) -> Layer {
        Layer {
            offset: ((self.offset + self.shift) % (self.sprite.spec_width() as int)) as u16,
            ..*self
        }
    }

    /// The layer after `n` frames.
    pub open(crate) spec fn advanced_by(&self, n: nat) -> Layer
        decreases n,
    {
        if n == 0 {
            *self
        } else {
            self.advanced_by((n - 1) as nat).advanced()
        }
    }

    /// The layer back at its first frame.
    pub open(crate) spec fn rewound(&self) -> Layer {
        Layer { offset: 0, ..*self }
    }

    /// Returns a new layer builder for a window `width` columns wide.
    pub fn new(width: u16, sprite: Sprite) -> (r: LayerBuild)
        requires
            width > 0,
            sprite.wf(),
        ensures
            r.wf(),
            r.spec_width() == width,
            r.spec_sprite() == sprite,
            r.spec_shift().is_none(),
    {
        LayerBuild { width, sprite, shift: None }
    }

    /// Returns `true` if the layer doesn't move and `false` otherwise.
    pub fn is_static(&self) -> (r: bool)
        ensures
            r == (self.spec_shift() == 0),
    {
        self.shift == 0
    }

    /// Moves the window `shift` columns to the right, wrapping around.
    pub fn shift(&mut self)
        requires
            old(self).wf(),
        ensures
            *final(self) == old(self).advanced(),
            final(self).wf(),
    {
        let sw = self.sprite.size.width as u32;
        let next = (self.offset as u32 + self.shift as u32) % sw;
        self.offset = next as u16;
    }

    /// Returns what the window shows, row by row.
    pub fn ascii_matrix(&self) -> (r: Vec<char>)
        requires
            self.wf(),
        ensures
            r@ == self.window(),
    {
        let w = self.size.width as usize;
        let h = self.size.height as usize;
        let sw = self.sprite.size.width as usize;
        let mut out: Vec<char> = Vec::new();
        let mut i: usize = 0;
        proof {
            assert(h * w <= 65535 * 65535) by (nonlinear_arith)
                requires
                    h <= 65535,
                    w <= 65535,
            ;
        }
        while i < h
            invariant
                self.wf(),
                w == self.size.width,
                h == self.size.height,
                sw == self.sprite.spec_width(),
                h * w <= 65535 * 65535,
                i <= h,
                out@.len() == i * w,
                forall|idx: int|
                    0 <= idx < out@.len() ==> #[trigger] out@[idx] == self.sprite.at(
                        idx / (w as int),
                        self.source_col(idx % (w as int)),
                    ),
            decreases h - i,
        {
            proof {
                lemma_cell_in_bounds(i as int, 0, w as int, h as int);
                vstd::arithmetic::mul::lemma_mul_is_commutative(w as int, h as int);
            }
            let mut j: usize = 0;
            while j < w
                invariant
                    self.wf(),
                    w == self.size.width,
                    h == self.size.height,
                    sw == self.sprite.spec_width(),
                    i < h,
                    j <= w,
                    out@.len() == i * w + j,
                    i * w + w <= h * w,
                    h * w <= 65535 * 65535,
                    forall|idx: int|
                        0 <= idx < out@.len() ==> #[trigger] out@[idx] == self.sprite.at(
                            idx / (w as int),
                            self.source_col(idx % (w as int)),
                        ),
                decreases w - j,
            {
                proof {
                    lemma_row_major(i as int, j as int, w as int);
                }
                let col = ((self.offset as usize) + j) % sw;
                let c = self.sprite.get(i as u16, col as u16);
                out.push(*c.unwrap());
                j += 1;
            }
            proof {
                vstd::arithmetic::mul::lemma_mul_is_distributive_add_other_way(w as int, i as int, 1);
            }
            i += 1;
        }
        proof {
            vstd::arithmetic::mul::lemma_mul_is_commutative(w as int, h as int);
            assert(out@ =~= self.window());
        }
        out
    }

    /// Returns the sprite representation of the layer: what its window shows.
    pub fn to_sprite(&self) -> (r: Sprite)
        requires
            self.wf(),
        ensures
            r.wf(),
            r.cells() == self.window(),
            r.spec_width() == self.spec_size().width,
            r.spec_height() == self.spec_size().height,
    {
        let m = self.ascii_matrix();
        proof {
            let (w, h) = (self.size.width as int, self.size.height as int);
            assert(w * h / w == h && (w * h) % w == 0) by {
                lemma_row_major(h, 0, w);
                vstd::arithmetic::mul::lemma_mul_is_commutative(w, h);
            }
            assert(w <= w * h) by {
                vstd::arithmetic::mul::lemma_mul_inequality(1, h, w);
                vstd::arithmetic::mul::lemma_mul_is_commutative(w, h);
            }
        }
        match Sprite::new(m, self.size.width) {
            Ok(s) => {
                proof {
                    vstd::arithmetic::div_mod::lemma_fundamental_div_mod(
                        s.cells().len() as int,
                        self.size.width as int,
                    );
                    vstd::arithmetic::mul::lemma_mul_is_commutative(self.size.width as int, self.size.height as int);
                    vstd::arithmetic::mul::lemma_mul_equality_converse(
                        self.size.width as int,
                        s.spec_height() as int,
                        self.size.height as int,
                    );
                }
                s
            },
            Err(_) => vstd::pervasive::unreached(),
        }
    }

    /// Returns the sprite representation of the layer: what its window shows.
    pub fn as_sprite(&self) -> (r: Sprite)
        requires
            self.wf(),
        ensures
            r.wf(),
            r.cells() == self.window(),
            r.spec_width() == self.spec_size().width,
            r.spec_height() == self.spec_size().height,
    {
        self.to_sprite()
    }
}

/// After `n` frames the offset has moved `n` times the shift, modulo the
/// sprite width; nothing else changes.
proof fn lemma_advanced_by(l: Layer, n: nat)
    requires
        l.wf(),
    ensures
        l.advanced_by(n).wf(),
        l.advanced_by(n).spec_offset() == (l.spec_offset() + n * l.spec_shift()) % l.spec_sprite().spec_width(),
        l.advanced_by(n) == (Layer { offset: l.advanced_by(n).offset, ..l }),
    decreases n,
{
    let w = l.sprite.spec_width() as int;
    if n == 0 {
        vstd::arithmetic::div_mod::lemma_small_mod(l.offset as nat, w as nat);
    } else {
        let m = (n - 1) as nat;
        lemma_advanced_by(l, m);
        let prev = l.advanced_by(m);
        let x = l.offset + m * l.shift;
        vstd::arithmetic::div_mod::lemma_add_mod_noop_right(l.shift as int, x, w);
        assert(n * l.shift == m * l.shift + l.shift) by (nonlinear_arith)
            requires
                n == m + 1,
        ;
        assert(prev.offset + l.shift == l.shift + x % w);
    }
}

/// Advancing a layer `w / gcd(shift, w)` times, where `w` is the width of its
/// sprite, brings its offset back to where it started.
pub proof fn lemma_advance_cycle(l: Layer)
    requires
        l.wf(),
    ensures
        l.advanced_by(l.spec_sprite().spec_width() / gcd(l.spec_shift(), l.spec_sprite().spec_width())).spec_offset()
            == l.spec_offset(),
{
    let w = l.sprite.spec_width();
    let s = l.shift as nat;
    lemma_gcd_divides(s, w);
    let g = gcd(s, w);
    let k = w / g;
    lemma_advanced_by(l, k);
    vstd::arithmetic::div_mod::lemma_fundamental_div_mod(w as int, g as int);
    vstd::arithmetic::div_mod::lemma_fundamental_div_mod(s as int, g as int);
    let m = s / g;
    assert(k * s == w * m) by (nonlinear_arith)
        requires
            w == g * k,
            s == g * m,
    ;
    vstd::arithmetic::div_mod::lemma_mod_multiples_vanish(m as int, l.offset as int, w as int);
    vstd::arithmetic::div_mod::lemma_small_mod(l.offset as nat, w);
}

impl DynComp for Layer {
    open spec fn inv(&self) -> bool {
        self.wf()
    }

    open spec fn updates_to(&self, next: &Layer) -> bool {
        *next == self.advanced()
    }

    open spec fn resets_to(&self, next: &Layer) -> bool {
        *next == self.rewound()
    }

    fn update(&mut self) {
        self.shift();
    }

    fn reset(&mut self) {
        self.offset = 0;
    }
}

/// Builds a new stage [`Layer`].
pub struct LayerBuild {
    pub(crate) width: u16,
    pub(crate) sprite: Sprite,
    pub(crate) shift: Option<u16>,
}

impl LayerBuild {
    /// Width of the window of the layer to build.
    pub open(crate) spec fn spec_width(&self) -> u16 {
        self.width
    }

    /// Sprite of the layer to build.
    pub open(crate) spec fn spec_sprite(&self) -> Sprite {
        self.sprite
    }

    /// Shift chosen so far, if any.
    pub open(crate) spec fn spec_shift(&self) -> Option<u16> {
        self.shift
    }

    /// The window is not empty and the sprite is well formed.
    pub open(crate) spec fn wf(&self) -> bool {
        self.width > 0 && self.sprite.wf()
    }

    /// Changes the step that the layer moves on each frame.
    pub fn shift(self, step: u16) -> (r: Self)
        ensures
            r.spec_width() == self.spec_width(),
            r.spec_sprite() == self.spec_sprite(),
            r.spec_shift() == Some(step),
    {
        let mut b = self;
        b.shift = Some(step);
        b
    }

    /// Adds a gap of `size` blank columns after each repetition of the sprite.
    pub fn gap(self, size: usize) -> (r: Self)
        requires
            self.wf(),
            self.spec_sprite().spec_width() + size <= u16::MAX,
        ensures
            r.wf(),
            r.spec_width() == self.spec_width(),
            r.spec_shift() == self.spec_shift(),
            r.spec_sprite().spec_width() == self.spec_sprite().spec_width() + size,
            r.spec_sprite().spec_height() == self.spec_sprite().spec_height(),
            forall|i: int, j: int|
                0 <= i < self.spec_sprite().spec_height() && 0 <= j < self.spec_sprite().spec_width()
                    ==> #[trigger] r.spec_sprite().at(i, j) == self.spec_sprite().at(i, j),
            forall|i: int, j: int|
                0 <= i < self.spec_sprite().spec_height() && self.spec_sprite().spec_width() <= j
                    < r.spec_sprite().spec_width() ==> #[trigger] r.spec_sprite().at(i, j) == ' ',
    {
        let mut b = self;
        b.sprite.stretch(size, ' ');
        b
    }

    /// Builds the layer; it moves one column per frame unless a shift was set.
    pub fn build(self) -> (r: Layer)
        requires
            self.wf(),
        ensures
            r.wf(),
            r.spec_size().width == self.spec_width(),
            r.spec_size().height == self.spec_sprite().spec_height(),
            r.spec_sprite() == self.spec_sprite(),
            r.spec_shift() == (match self.spec_shift() {
                Some(s) => s,
                None => 1u16,
            }),
            r.spec_offset() == 0,
    {
        let height = self.sprite.size.height;
        let shift = match self.shift {
            Some(s) => s,
            None => 1,
        };
        Layer { size: Size { width: self.width, height }, sprite: self.sprite, shift, offset: 0 }
    }
}

} // verus!
