//! Visual objects as characters on a terminal screen.
use vstd::prelude::*;

use super::{Pos, Size};

verus! {

/// Why a glyph matrix could not be built or changed.
#[derive(Debug, Clone, Copy, PartialEq, Eq, Structural)]
pub enum SpriteError {
    /// The width is zero, larger than the number of characters, does not
    /// divide it, or leaves more rows than a `u16` can count.
    InvalidDimensions,
    /// The replacement characters are not as many as the current ones.
    SizeMismatch,
}

/// `n` characters can be laid out in rows of `width`.
pub open spec fn valid_dims(n: nat, width: nat) -> bool {
    &&& 0 < width <= n
    &&& n % width == 0
    &&& n / width <= u16::MAX
}

/// Position `r * w + k` in a row-major layout holds row `r`, column `k`.
pub proof fn lemma_row_major(r: int, k: int, w: int)
    requires
        0 <= r,
        0 <= k < w,
    ensures
        (r * w + k) / w == r,
        (r * w + k) % w == k,
        r * w + k >= 0,
{
    assert(r * w >= 0) by (nonlinear_arith)
        requires
            0 <= r,
            0 < w,
    ;
    vstd::arithmetic::div_mod::lemma_fundamental_div_mod_converse(r * w + k, w, r, k);
}

/// Cell `(r, k)` of an `h` by `w` matrix lies inside its `w * h` cells.
pub proof fn lemma_cell_in_bounds(r: int, k: int, w: int, h: int)
    requires
        0 <= r < h,
        0 <= k < w,
    ensures
        0 <= r * w + k < w * h,
        r * w + w <= w * h,
{
    assert((r + 1) * w <= h * w) by {
        vstd::arithmetic::mul::lemma_mul_inequality(r + 1, h, w);
    }
    assert((r + 1) * w == r * w + w) by {
        vstd::arithmetic::mul::lemma_mul_is_distributive_add_other_way(w, r, 1);
    }
    assert(h * w == w * h) by {
        vstd::arithmetic::mul::lemma_mul_is_commutative(w, h);
    }
    assert(r * w >= 0) by {
        vstd::arithmetic::mul::lemma_mul_nonnegative(r, w);
    }
}

/// Length of the longest line; 0 for no line.
pub open spec fn max_len(lines: Seq<Seq<char>>) -> nat
    decreases lines.len(),
{
    if lines.len() == 0 {
        0
    } else {
        let rest = max_len(lines.drop_last());
        if lines.last().len() > rest {
            lines.last().len()
        } else {
            rest
        }
    }
}

/// No line is longer than the longest one, and the longest is one of them.
proof fn lemma_max_len(lines: Seq<Seq<char>>)
    ensures
        forall|i: int| 0 <= i < lines.len() ==> (#[trigger] lines[i]).len() <= max_len(lines),
        lines.len() > 0 ==> exists|i: int| 0 <= i < lines.len() && (#[trigger] lines[i]).len() == max_len(lines),
    decreases lines.len(),
{
    if lines.len() > 0 {
        let init = lines.drop_last();
        lemma_max_len(init);
        assert forall|i: int| 0 <= i < lines.len() implies (#[trigger] lines[i]).len() <= max_len(lines) by {
            if i < init.len() {
                assert(lines[i] == init[i]);
            }
        }
        if lines.last().len() <= max_len(init) && init.len() > 0 {
            let i = choose|i: int| 0 <= i < init.len() && (#[trigger] init[i]).len() == max_len(init);
            assert(lines[i] == init[i]);
        } else {
            assert(lines[lines.len() - 1].len() == max_len(lines));
        }
    }
}

/// Character at column `k` of `line` padded with spaces.
pub open spec fn padded_at(line: Seq<char>, k: int) -> char {
    if k < line.len() {
        line[k]
    } else {
        ' '
    }
}

/// Graphical representation of an [`Obj`]: a rectangular matrix of
/// characters, stored row by row.
#[derive(Debug)]
pub struct Sprite {
    pub(crate) size: Size,
    pub(crate) chars: Vec<char>,
}

impl Sprite {
    /// Number of columns.
    pub open(crate) spec fn spec_width(&self) -> nat {
        self.size.width as nat
    }

    /// Number of rows.
    pub open(crate) spec fn spec_height(&self) -> nat {
        self.size.height as nat
    }

    /// All characters, row after row.
    pub open(crate) spec fn cells(&self) -> Seq<char> {
        self.chars@
    }

    /// The character at row `r`, column `k`.
    pub open(crate) spec fn at(&self, r: int, k: int) -> char {
        self.chars@[r * self.spec_width() + k]
    }

    /// Row `r` as a sequence of characters.
    pub open(crate) spec fn row(&self, r: int) -> Seq<char> {
        self.chars@.subrange(r * self.spec_width(), r * self.spec_width() + self.spec_width())
    }

    /// The sprite has at least one row and one column, and the characters
    /// fill whole rows.
    pub open(crate) spec fn wf(&self) -> bool {
        &&& self.spec_width() > 0
        &&& self.spec_height() > 0
        &&& self.chars@.len() == self.spec_width() * self.spec_height()
    }

    /// Returns a new sprite with the given characters laid out in rows of
    /// `width`.
    pub fn new(chars: Vec<char>, width: u16) -> (r: Result<Sprite, SpriteError>)
        ensures
            r.is_ok() <==> valid_dims(chars@.len(), width as nat),
            r matches Ok(s) ==> s.wf() && s.cells() == chars@ && s.spec_width() == width,
            r matches Err(e) ==> e == SpriteError::InvalidDimensions,
    {
        let n = chars.len();
        let w = width as usize;
        if width == 0 || w > n || n % w != 0 || n / w > u16::MAX as usize {
            return Err(SpriteError::InvalidDimensions);
        }
        let height = (n / w) as u16;
        proof {
            vstd::arithmetic::div_mod::lemma_fundamental_div_mod(n as int, w as int);
            vstd::arithmetic::div_mod::lemma_div_is_ordered(w as int, n as int, w as int);
            vstd::arithmetic::div_mod::lemma_div_by_self(w as int);
        }
        Ok(Sprite { size: Size { width, height }, chars })
    }

    /// Returns a sprite with one row per line, each padded with spaces to the
    /// length of the longest line.
    pub fn from_lines(lines: &Vec<Vec<char>>) -> (r: Result<Sprite, SpriteError>)
        ensures
            r.is_ok() <==> (0 < max_len(lines@.map_values(|l: Vec<char>| l@)) <= u16::MAX
                && lines@.len() <= u16::MAX),
            r matches Ok(s) ==> {
                let ls = lines@.map_values(|l: Vec<char>| l@);
                &&& s.wf()
                &&& s.spec_width() == max_len(ls)
                &&& s.spec_height() == ls.len()
                &&& forall|i: int, j: int|
                    0 <= i < ls.len() && 0 <= j < s.spec_width() ==> #[trigger] s.at(i, j) == padded_at(
                        ls[i],
                        j,
                    )
            },
            r matches Err(e) ==> e == SpriteError::InvalidDimensions,
    {
        let ghost ls = lines@.map_values(|l: Vec<char>| l@);
        let n = lines.len();
        let mut width: usize = 0;
        let mut i: usize = 0;
        while i < n
            invariant
                n == lines@.len(),
                ls == lines@.map_values(|l: Vec<char>| l@),
                i <= n,
                width == max_len(ls.subrange(0, i as int)),
            decreases n - i,
        {
            proof {
                assert(ls.subrange(0, i as int + 1).drop_last() =~= ls.subrange(0, i as int));
            }
            if lines[i].len() > width {
                width = lines[i].len();
            }
            i += 1;
        }
        proof {
            assert(ls.subrange(0, n as int) =~= ls);
            lemma_max_len(ls);
        }
        if width == 0 || width > u16::MAX as usize || n > u16::MAX as usize {
            return Err(SpriteError::InvalidDimensions);
        }
        proof {
            assert(n * width <= 65535 * 65535) by (nonlinear_arith)
                requires
                    n <= 65535,
                    width <= 65535,
            ;
        }
        let mut out: Vec<char> = Vec::new();
        let mut r: usize = 0;
        while r < n
            invariant
                n == lines@.len(),
                ls == lines@.map_values(|l: Vec<char>| l@),
                0 < width <= u16::MAX,
                n <= u16::MAX,
                n * width <= 65535 * 65535,
                forall|q: int| 0 <= q < ls.len() ==> (#[trigger] ls[q]).len() <= width,
                r <= n,
                out@.len() == r * width,
                forall|idx: int|
                    0 <= idx < out@.len() ==> #[trigger] out@[idx] == padded_at(
                        ls[idx / (width as int)],
                        idx % (width as int),
                    ),
            decreases n - r,
        {
            proof {
                lemma_cell_in_bounds(r as int, 0, width as int, n as int);
                vstd::arithmetic::mul::lemma_mul_is_commutative(width as int, n as int);
            }
            let line = &lines[r];
            let len = line.len();
            let mut k: usize = 0;
            while k < width
                invariant
                    n == lines@.len(),
                    ls == lines@.map_values(|l: Vec<char>| l@),
                    0 < width <= u16::MAX,
                    r < n,
                    k <= width,
                    *line == lines@[r as int],
                    len == line@.len(),
                    r * width + width <= n * width,
                    n * width <= 65535 * 65535,
                    out@.len() == r * width + k,
                    forall|idx: int|
                        0 <= idx < out@.len() ==> #[trigger] out@[idx] == padded_at(
                            ls[idx / (width as int)],
                            idx % (width as int),
                        ),
                decreases width - k,
            {
                proof {
                    lemma_row_major(r as int, k as int, width as int);
                }
                if k < len {
                    out.push(line[k]);
                } else {
                    out.push(' ');
                }
                k += 1;
            }
            proof {
                vstd::arithmetic::mul::lemma_mul_is_distributive_add_other_way(width as int, r as int, 1);
            }
            r += 1;
        }
        proof {
            vstd::arithmetic::mul::lemma_mul_is_commutative(width as int, n as int);
            vstd::arithmetic::div_mod::lemma_fundamental_div_mod_converse(
                (n * width) as int,
                width as int,
                n as int,
                0,
            );
            assert((width as int) <= n * width) by (nonlinear_arith)
                requires
                    0 < width,
                    n >= 1,
            ;
        }
        let w16 = width as u16;
        match Sprite::new(out, w16) {
            Ok(s) => {
                proof {
                    vstd::arithmetic::mul::lemma_mul_equality_converse(
                        width as int,
                        s.spec_height() as int,
                        n as int,
                    );
                    assert forall|i: int, j: int|
                        0 <= i < ls.len() && 0 <= j < s.spec_width() implies #[trigger] s.at(i, j) == padded_at(
                        ls[i],
                        j,
                    ) by {
                        lemma_row_major(i, j, width as int);
                        lemma_cell_in_bounds(i, j, width as int, n as int);
                    }
                }
                Ok(s)
            },
            Err(_) => vstd::pervasive::unreached(),
        }
    }

    /// Returns the sprite size as a tuple (width, height).
    pub fn size(&self) -> (r: (u16, u16))
        ensures
            r.0 == self.spec_width(),
            r.1 == self.spec_height(),
    {
        (self.size.width, self.size.height)
    }

    /// Returns the number of characters that the sprite has.
    pub fn len(&self) -> (r: usize)
        ensures
            r == self.cells().len(),
    {
        self.chars.len()
    }

    /// Returns the character at row `i` and column `j`, or `None` where that
    /// cell lies outside the sprite.
    pub fn get(&self, i: u16, j: u16) -> (r: Option<&char>)
        requires
            self.wf(),
        ensures
            (i < self.spec_height() && j < self.spec_width()) ==> r == Some(&self.at(i as int, j as int)),
            !(i < self.spec_height() && j < self.spec_width()) ==> r.is_none(),
    {
        if i < self.size.height && j < self.size.width {
            proof {
                lemma_cell_in_bounds(i as int, j as int, self.spec_width() as int, self.spec_height() as int);
            }
            let n = self.chars.len();
            let idx = (i as usize) * (self.size.width as usize) + (j as usize);
            Some(&self.chars[idx])
        } else {
            None
        }
    }

    /// Replaces the characters of the sprite, keeping its size.
    pub fn set_ascii(&mut self, ascii_matrix: Vec<char>) -> (r: Result<(), SpriteError>)
        ensures
            r.is_ok() <==> ascii_matrix@.len() == old(self).cells().len(),
            r.is_ok() ==> final(self).cells() == ascii_matrix@,
            r.is_err() ==> r == Err::<(), SpriteError>(SpriteError::SizeMismatch) && *final(self) == *old(self),
            final(self).spec_width() == old(self).spec_width(),
            final(self).spec_height() == old(self).spec_height(),
    {
        if ascii_matrix.len() != self.chars.len() {
            return Err(SpriteError::SizeMismatch);
        }
        self.chars = ascii_matrix;
        Ok(())
    }

    /// Widens the sprite by `size` columns: `size` copies of `c` are added at
    /// the end of every row.
    pub fn stretch(&mut self, size: usize, c: char)
        requires
            old(self).wf(),
            old(self).spec_width() + size <= u16::MAX,
        ensures
            final(self).wf(),
            final(self).spec_width() == old(self).spec_width() + size,
            final(self).spec_height() == old(self).spec_height(),
            forall|r: int, k: int|
                0 <= r < old(self).spec_height() && 0 <= k < old(self).spec_width()
                    ==> #[trigger] final(self).at(r, k) == old(self).at(r, k),
            forall|r: int, k: int|
                0 <= r < old(self).spec_height() && old(self).spec_width() <= k < final(self).spec_width()
                    ==> #[trigger] final(self).at(r, k) == c,
    {
        let w = self.size.width as usize;
        let h = self.size.height as usize;
        let nw = w + size;
        let ghost cells = self.chars@;
        let n = self.chars.len();
        let mut out: Vec<char> = Vec::new();
        let mut r: usize = 0;
        proof {
            assert(h * nw <= 65535 * 65535) by (nonlinear_arith)
                requires
                    h <= 65535,
                    nw <= 65535,
            ;
        }
        while r < h
            invariant
                self.chars@ == cells,
                cells.len() == w * h,
                n == cells.len(),
                0 < w,
                nw == w + size,
                nw <= u16::MAX,
                h <= u16::MAX,
                h * nw <= 65535 * 65535,
                r <= h,
                out@.len() == r * nw,
                forall|idx: int|
                    0 <= idx < out@.len() ==> #[trigger] out@[idx] == (if idx % (nw as int) < w {
                        cells[(idx / (nw as int)) * w + idx % (nw as int)]
                    } else {
                        c
                    }),
            decreases h - r,
        {
            proof {
                lemma_cell_in_bounds(r as int, 0, nw as int, h as int);
            }
            let mut k: usize = 0;
            while k < nw
                invariant
                    self.chars@ == cells,
                    cells.len() == w * h,
                    n == cells.len(),
                    0 < w,
                    nw == w + size,
                    r < h,
                    k <= nw,
                    r * nw + nw <= nw * h,
                    h * nw <= 65535 * 65535,
                    out@.len() == r * nw + k,
                    forall|idx: int|
                        0 <= idx < out@.len() ==> #[trigger] out@[idx] == (if idx % (nw as int) < w {
                            cells[(idx / (nw as int)) * w + idx % (nw as int)]
                        } else {
                            c
                        }),
                decreases nw - k,
            {
                proof {
                    lemma_row_major(r as int, k as int, nw as int);
                    vstd::arithmetic::mul::lemma_mul_is_commutative(nw as int, h as int);
                }
                if k < w {
                    proof {
                        lemma_cell_in_bounds(r as int, k as int, w as int, h as int);
                    }
                    out.push(self.chars[r * w + k]);
                } else {
                    out.push(c);
                }
                k += 1;
            }
            proof {
                vstd::arithmetic::mul::lemma_mul_is_distributive_add_other_way(nw as int, r as int, 1);
            }
            r += 1;
        }
        proof {
            vstd::arithmetic::mul::lemma_mul_is_commutative(nw as int, h as int);
            assert forall|r: int, k: int| 0 <= r < h && 0 <= k < nw implies #[trigger] out@[r * nw + k] == (
            if k < w {
                cells[r * w + k]
            } else {
                c
            }) by {
                lemma_row_major(r, k, nw as int);
                lemma_cell_in_bounds(r, k, nw as int, h as int);
                if k < w {
                    lemma_cell_in_bounds(r, k, w as int, h as int);
                }
            }
        }
        self.chars = out;
        self.size.width = nw as u16;
    }

    /// Returns the rows of the sprite, top to bottom.
    pub fn rows(&self) -> (rows: Vec<Vec<char>>)
        requires
            self.wf(),
        ensures
            rows@.len() == self.spec_height(),
            forall|r: int| 0 <= r < rows@.len() ==> #[trigger] rows@[r]@ == self.row(r),
    {
        let w = self.size.width as usize;
        let h = self.size.height as usize;
        let n = self.chars.len();
        let mut rows: Vec<Vec<char>> = Vec::new();
        let mut r: usize = 0;
        while r < h
            invariant
                self.wf(),
                n == self.chars@.len(),
                w == self.spec_width(),
                h == self.spec_height(),
                r <= h,
                rows@.len() == r,
                forall|q: int| 0 <= q < r ==> #[trigger] rows@[q]@ == self.row(q),
            decreases h - r,
        {
            proof {
                lemma_cell_in_bounds(r as int, 0, w as int, h as int);
            }
            let mut line: Vec<char> = Vec::new();
            let mut k: usize = 0;
            while k < w
                invariant
                    self.wf(),
                    n == self.chars@.len(),
                    w == self.spec_width(),
                    h == self.spec_height(),
                    r < h,
                    r * w + w <= w * h,
                    k <= w,
                    line@ == self.chars@.subrange(r * w, r * w + k),
                decreases w - k,
            {
                line.push(self.chars[r * w + k]);
                k += 1;
                proof {
                    assert(line@ =~= self.chars@.subrange(r * w, r * w + k));
                }
            }
            rows.push(line);
            r += 1;
        }
        rows
    }
}

/// An object that can be drawn on screen: a sprite at a position, with the
/// terminal escape sequence that sets its foreground color.
#[derive(Debug)]
pub struct Obj {
    /// Position of the top-left cell.
    pub pos: Pos,
    /// Graphical representation.
    pub sprite: Sprite,
    /// Foreground color, as the escape sequence that selects it.
    pub color: String,
}

impl Obj {
    /// Returns a new instance of `Obj`.
    pub fn new(pos: Pos, sprite: Sprite, color: String) -> (r: Obj)
        ensures
            r.pos == pos,
            r.sprite == sprite,
            r.color == color,
    {
        Obj { pos, sprite, color }
    }
}

} // verus!
