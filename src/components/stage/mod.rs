use vstd::prelude::*;

use crate::components::DynComp;
use crate::graphics::{Obj, Pos, Size, Sprite};

mod layer;

pub use layer::{Layer, LayerBuild};

verus! {

/// Top row of a layer `layer_height` rows high, stacked on layers that fill
/// `below` rows at the bottom of a stage `stage_height` rows high; row 1
/// where the stage has no room left for it.
pub open spec fn top_row(stage_height: int, layer_height: int, below: int) -> int {
    if layer_height + below - 1 <= stage_height {
        stage_height - (layer_height + below - 1)
    } else {
        1
    }
}

/// The layer after one frame of its stage: static layers stay where they
/// are, the others advance.
pub open spec fn ticked(l: Layer) -> Layer {
    if l.spec_shift() == 0 {
        l
    } else {
        l.advanced()
    }
}

/// A game stage (scenario): layers stacked from the bottom up, each drawn by
/// an object that shows what its window currently holds.
pub struct Stage {
    /// Size of the stage.
    pub size: Size,
    /// Row that the player and the obstacles stand on.
    pub floor: u16,
    pub(crate) layers: Vec<Layer>,
    pub(crate) objs: Vec<Obj>,
    pub(crate) layers_height: u16,
}

impl Stage {
    /// Size of the stage.
    pub open(crate) spec fn spec_size(&self) -> Size {
        self.size
    }

    /// Row that the player and the obstacles stand on.
    pub open(crate) spec fn spec_floor(&self) -> u16 {
        self.floor
    }

    /// The layers, bottom first.
    pub open(crate) spec fn spec_layers(&self) -> Seq<Layer> {
        self.layers@
    }

    /// The objects that draw the layers, in the same order.
    pub open(crate) spec fn spec_objs(&self) -> Seq<Obj> {
        self.objs@
    }

    /// Rows filled by the layers so far.
    pub open(crate) spec fn spec_layers_height(&self) -> nat {
        self.layers_height as nat
    }

    /// Object `i` shows what the window of layer `i` holds.
    pub open(crate) spec fn shows(&self, i: int) -> bool {
        let (l, o) = (self.layers@[i], self.objs@[i]);
        &&& l.wf()
        &&& o.sprite.wf()
        &&& o.sprite.cells() == l.window()
        &&& o.sprite.spec_width() == l.spec_size().width
        &&& o.sprite.spec_height() == l.spec_size().height
    }

    /// Each layer has its object, and each object shows its layer.
    pub open(crate) spec fn wf(&self) -> bool {
        &&& self.layers@.len() == self.objs@.len()
        &&& forall|i: int| 0 <= i < self.layers@.len() ==> #[trigger] self.shows(i)
    }

    /// Returns a new, empty stage of the given size.
    pub fn new(width: u16, height: u16) -> (r: Stage)
        ensures
            r.wf(),
            r.spec_size() == (Size { width, height }),
            r.spec_floor() == 1,
            r.spec_layers().len() == 0,
            r.spec_layers_height() == 0,
    {
        Stage {
            size: Size { width, height },
            floor: 1,
            layers: Vec::new(),
            objs: Vec::new(),
            layers_height: 0,
        }
    }

    /// Returns the floor row.
    pub fn floor(&self) -> (r: u16)
        ensures
            r == self.spec_floor(),
    {
        self.floor
    }

    /// Returns the number of rows that the layers fill.
    pub fn layers_height(&self) -> (r: u16)
        ensures
            r == self.spec_layers_height(),
    {
        self.layers_height
    }

    /// Returns the position of the object that draws layer `i`.
    pub fn layer_pos(&self, i: usize) -> (r: Option<Pos>)
        ensures
            i < self.spec_objs().len() ==> r == Some(self.spec_objs()[i as int].pos),
            i >= self.spec_objs().len() ==> r.is_none(),
    {
        if i < self.objs.len() {
            Some(self.objs[i].pos)
        } else {
            None
        }
    }

    /// Returns the objects that draw the layers, bottom first.
    pub fn objs(&self) -> (r: &Vec<Obj>)
        ensures
            r@ == self.spec_objs(),
    {
        &self.objs
    }

    /// Pushes a layer on top of the others. Its object is drawn in column 1,
    /// directly above the layers pushed before, with the given color.
    pub fn push_layer(&mut self, layer: Layer, color: String)
        requires
            old(self).wf(),
            layer.wf(),
            old(self).spec_layers_height() + layer.spec_size().height <= u16::MAX,
        ensures
            final(self).wf(),
            final(self).spec_layers() == old(self).spec_layers().push(layer),
            final(self).spec_objs().len() == old(self).spec_objs().len() + 1,
            forall|i: int|
                0 <= i < old(self).spec_objs().len() ==> #[trigger] final(self).spec_objs()[i]
                    == old(self).spec_objs()[i],
            final(self).spec_objs().last().pos == (Pos {
                col: 1,
                row: top_row(
                    old(self).spec_size().height as int,
                    layer.spec_size().height as int,
                    old(self).spec_layers_height() as int,
                ) as u16,
            }),
            final(self).spec_objs().last().color == color,
            final(self).spec_layers_height() == old(self).spec_layers_height() + layer.spec_size().height,
            final(self).spec_size() == old(self).spec_size(),
            final(self).spec_floor() == old(self).spec_floor(),
    {
        let sprite = layer.to_sprite();
        let span = layer.size.height + self.layers_height - 1;
        let row = if span <= self.size.height {
            self.size.height - span
        } else {
            1
        };
        let obj = Obj::new(Pos { col: 1, row }, sprite, color);
        self.layers_height = self.layers_height + layer.size.height;
        self.objs.push(obj);
        self.layers.push(layer);
        proof {
            assert forall|i: int| 0 <= i < self.layers@.len() implies #[trigger] self.shows(i) by {
                if i < old(self).layers@.len() {
                    assert(old(self).shows(i));
                }
            }
        }
    }

    /// Adds a layer as wide as the stage, made of `sprite` with `gap` blank
    /// columns after each repetition and moving `shift` columns per frame;
    /// with `is_floor`, its top row becomes the floor.
    pub fn add_layer(&mut self, sprite: Sprite, color: String, gap: usize, shift: u16, is_floor: bool)
        requires
            old(self).wf(),
            old(self).spec_size().width > 0,
            sprite.wf(),
            sprite.spec_width() + gap <= u16::MAX,
            old(self).spec_layers_height() + sprite.spec_height() <= u16::MAX,
        ensures
            final(self).wf(),
            final(self).spec_layers().len() == old(self).spec_layers().len() + 1,
            final(self).spec_layers().drop_last() == old(self).spec_layers(),
            ({
                let l = final(self).spec_layers().last();
                &&& l.spec_size() == (Size { width: old(self).spec_size().width, height: sprite.spec_height() as u16 })
                &&& l.spec_shift() == shift
                &&& l.spec_offset() == 0
                &&& l.spec_sprite().spec_width() == sprite.spec_width() + gap
                &&& l.spec_sprite().spec_height() == sprite.spec_height()
                &&& forall|i: int, j: int|
                    0 <= i < sprite.spec_height() && 0 <= j < sprite.spec_width()
                        ==> #[trigger] l.spec_sprite().at(i, j) == sprite.at(i, j)
                &&& forall|i: int, j: int|
                    0 <= i < sprite.spec_height() && sprite.spec_width() <= j < l.spec_sprite().spec_width()
                        ==> #[trigger] l.spec_sprite().at(i, j) == ' '
            }),
            final(self).spec_objs().drop_last() == old(self).spec_objs(),
            final(self).spec_objs().last().pos == (Pos {
                col: 1,
                row: top_row(
                    old(self).spec_size().height as int,
                    sprite.spec_height() as int,
                    old(self).spec_layers_height() as int,
                ) as u16,
            }),
            final(self).spec_objs().last().color == color,
            final(self).spec_layers_height() == old(self).spec_layers_height() + sprite.spec_height(),
            final(self).spec_size() == old(self).spec_size(),
            final(self).spec_floor() == if is_floor {
                final(self).spec_objs().last().pos.row
            } else {
                old(self).spec_floor()
            },
    {
        let layer = Layer::new(self.size.width, sprite).gap(gap).shift(shift).build();
        self.push_layer(layer, color);
        proof {
            assert(self.layers@.drop_last() =~= old(self).layers@);
            assert(self.objs@.drop_last() =~= old(self).objs@);
        }
        if is_floor {
            self.set_floor();
        }
    }

    /// Sets the layer on top of the stack as the floor of the stage.
    pub fn set_floor(&mut self)
        ensures
            final(self).spec_floor() == (if old(self).spec_objs().len() == 0 {
                1u16
            } else {
                old(self).spec_objs().last().pos.row
            }),
            final(self).spec_layers() == old(self).spec_layers(),
            final(self).spec_objs() == old(self).spec_objs(),
            final(self).spec_layers_height() == old(self).spec_layers_height(),
            final(self).spec_size() == old(self).spec_size(),
            old(self).wf() ==> final(self).wf(),
    {
        let n = self.objs.len();
        self.floor = if n == 0 {
            1
        } else {
            self.objs[n - 1].pos.row
        };
        proof {
            if old(self).wf() {
                assert forall|i: int| 0 <= i < self.layers@.len() implies #[trigger] self.shows(i) by {
                    assert(old(self).shows(i));
                }
            }
        }
    }

    /// Moves every layer that is not static by one frame, and refreshes what
    /// its object shows.
    pub fn shift(&mut self)
        requires
            old(self).wf(),
        ensures
            final(self).wf(),
            final(self).spec_layers().len() == old(self).spec_layers().len(),
            forall|i: int|
                0 <= i < old(self).spec_layers().len() ==> #[trigger] final(self).spec_layers()[i]
                    == ticked(old(self).spec_layers()[i]),
            forall|i: int|
                0 <= i < old(self).spec_objs().len() ==> #[trigger] final(self).spec_objs()[i].pos
                    == old(self).spec_objs()[i].pos && final(self).spec_objs()[i].color
                    == old(self).spec_objs()[i].color,
            final(self).spec_layers_height() == old(self).spec_layers_height(),
            final(self).spec_size() == old(self).spec_size(),
            final(self).spec_floor() == old(self).spec_floor(),
    {
        self.refresh(false);
    }

    /// Advances the layers that are not static (`rewind` false), or sets
    /// every layer back to offset 0 (`rewind` true), and refreshes what each
    /// object shows.
    fn refresh(&mut self, rewind: bool)
        requires
            old(self).wf(),
        ensures
            final(self).wf(),
            final(self).spec_layers().len() == old(self).spec_layers().len(),
            forall|i: int|
                0 <= i < old(self).spec_layers().len() ==> #[trigger] final(self).spec_layers()[i]
                    == if rewind {
                    old(self).spec_layers()[i].rewound()
                } else {
                    ticked(old(self).spec_layers()[i])
                },
            forall|i: int|
                0 <= i < old(self).spec_objs().len() ==> #[trigger] final(self).spec_objs()[i].pos
                    == old(self).spec_objs()[i].pos && final(self).spec_objs()[i].color
                    == old(self).spec_objs()[i].color,
            final(self).spec_layers_height() == old(self).spec_layers_height(),
            final(self).spec_size() == old(self).spec_size(),
            final(self).spec_floor() == old(self).spec_floor(),
    {
        let mut layers: Vec<Layer> = Vec::new();
        let mut objs: Vec<Obj> = Vec::new();
        std::mem::swap(&mut layers, &mut self.layers);
        std::mem::swap(&mut objs, &mut self.objs);
        let ghost ls = layers@;
        let ghost os = objs@;
        let ghost st = *old(self);
        assert(forall|i: int| 0 <= i < ls.len() ==> #[trigger] st.shows(i));
        let n = layers.len();
        let mut new_layers: Vec<Layer> = Vec::new();
        let mut new_objs: Vec<Obj> = Vec::new();
        let mut i: usize = 0;
        while i < n
            invariant
                n == ls.len(),
                ls.len() == os.len(),
                ls == st.layers@,
                os == st.objs@,
                forall|k: int| 0 <= k < ls.len() ==> #[trigger] st.shows(k),
                i <= n,
                layers@ == ls.subrange(i as int, n as int),
                objs@ == os.subrange(i as int, n as int),
                new_layers@.len() == i,
                new_objs@.len() == i,
                forall|k: int|
                    0 <= k < i ==> #[trigger] new_layers@[k] == if rewind {
                        ls[k].rewound()
                    } else {
                        ticked(ls[k])
                    },
                forall|k: int|
                    0 <= k < i ==> {
                        let (l, o) = (new_layers@[k], #[trigger] new_objs@[k]);
                        &&& l.wf()
                        &&& o.sprite.wf()
                        &&& o.sprite.cells() == l.window()
                        &&& o.sprite.spec_width() == l.spec_size().width
                        &&& o.sprite.spec_height() == l.spec_size().height
                        &&& o.pos == os[k].pos
                        &&& o.color == os[k].color
                    },
            decreases n - i,
        {
            assert(st.shows(i as int));
            let mut l = layers.remove(0);
            let mut o = objs.remove(0);
            let ghost o0 = o;
            if rewind {
                l.offset = 0;
            } else if !l.is_static() {
                l.shift();
            }
            let m = l.ascii_matrix();
            let _ = o.sprite.set_ascii(m);
            assert(o.sprite.cells() == l.window());
            new_layers.push(l);
            new_objs.push(o);
            i += 1;
            proof {
                assert(layers@ =~= ls.subrange(i as int, n as int));
                assert(objs@ =~= os.subrange(i as int, n as int));
            }
        }
        self.layers = new_layers;
        self.objs = new_objs;
        proof {
            assert forall|k: int| 0 <= k < self.layers@.len() implies #[trigger] self.shows(k) by {
                assert(new_objs@[k] == self.objs@[k]);
            }
        }
    }
}

impl DynComp for Stage {
    open spec fn inv(&self) -> bool {
        self.wf()
    }

    open spec fn updates_to(&self, next: &Stage) -> bool {
        &&& next.spec_layers().len() == self.spec_layers().len()
        &&& forall|i: int|
            0 <= i < self.spec_layers().len() ==> #[trigger] next.spec_layers()[i] == ticked(
                self.spec_layers()[i],
            )
        &&& forall|i: int|
            0 <= i < self.spec_objs().len() ==> #[trigger] next.spec_objs()[i].pos
                == self.spec_objs()[i].pos && next.spec_objs()[i].color == self.spec_objs()[i].color
        &&& next.spec_layers_height() == self.spec_layers_height()
        &&& next.spec_size() == self.spec_size()
        &&& next.spec_floor() == self.spec_floor()
    }

    open spec fn resets_to(&self, next: &Stage) -> bool {
        &&& next.spec_layers().len() == self.spec_layers().len()
        &&& forall|i: int|
            0 <= i < self.spec_layers().len() ==> #[trigger] next.spec_layers()[i]
                == self.spec_layers()[i].rewound()
        &&& forall|i: int|
            0 <= i < self.spec_objs().len() ==> #[trigger] next.spec_objs()[i].pos
                == self.spec_objs()[i].pos && next.spec_objs()[i].color == self.spec_objs()[i].color
        &&& next.spec_layers_height() == self.spec_layers_height()
        &&& next.spec_size() == self.spec_size()
        &&& next.spec_floor() == self.spec_floor()
    }

    fn update(&mut self) {
        self.shift();
    }

    fn reset(&mut self) {
        self.refresh(true);
    }
}

} // verus!
