use crabbit::components::stage::Layer;
use crabbit::components::{DynComp, Stage};
use crabbit::graphics::{Pos, Sprite};

fn chars(s: &str) -> Vec<char> {
    s.chars().collect()
}

fn text(v: &[char]) -> String {
    v.iter().collect()
}

fn gcd(a: u16, b: u16) -> u16 {
    if b == 0 {
        a
    } else {
        gcd(b, a % b)
    }
}

#[test]
fn layer_window_wraps_around() {
    let sprite = Sprite::new(chars("abcdefgh"), 4).unwrap();
    let mut layer = Layer::new(3, sprite).shift(3).build();
    assert_eq!(text(&layer.ascii_matrix()), "abcefg");
    layer.shift();
    assert_eq!(text(&layer.ascii_matrix()), "dabhef");
    layer.update();
    assert_eq!(text(&layer.ascii_matrix()), "cdaghe");
}

#[test]
fn layer_window_wider_than_sprite() {
    let sprite = Sprite::new(chars("ab"), 2).unwrap();
    let layer = Layer::new(5, sprite).build();
    assert_eq!(text(&layer.ascii_matrix()), "ababa");
    let s = layer.to_sprite();
    assert_eq!(s.size(), (5, 1));
    assert_eq!(layer.as_sprite().size(), (5, 1));
}

#[test]
fn layer_default_shift_is_one() {
    let sprite = Sprite::new(chars("abc"), 3).unwrap();
    let mut layer = Layer::new(2, sprite).build();
    assert!(!layer.is_static());
    layer.shift();
    assert_eq!(text(&layer.ascii_matrix()), "bc");
}

#[test]
fn layer_with_zero_shift_is_static() {
    let sprite = Sprite::new(chars("abc"), 3).unwrap();
    let layer = Layer::new(2, sprite).shift(0).build();
    assert!(layer.is_static());
}

#[test]
fn layer_gap_adds_blank_columns() {
    let sprite = Sprite::new(chars("ab"), 2).unwrap();
    let layer = Layer::new(6, sprite).gap(2).build();
    assert_eq!(text(&layer.ascii_matrix()), "ab  ab");
}

#[test]
fn layer_reset_rewinds() {
    let sprite = Sprite::new(chars("abcd"), 4).unwrap();
    let mut layer = Layer::new(2, sprite).shift(1).build();
    layer.shift();
    layer.reset();
    assert_eq!(text(&layer.ascii_matrix()), "ab");
}

#[test]
fn layer_advance_cycles_back() {
    // width 6 with shift 4: 6 / gcd(4, 6) = 3 frames.
    let sprite = Sprite::new(chars("abcdef"), 6).unwrap();
    let mut layer = Layer::new(2, sprite).shift(4).build();
    let start = layer.ascii_matrix();
    let frames = 6 / gcd(4, 6);
    assert_eq!(frames, 3);
    for i in 0..frames {
        if i > 0 {
            assert_ne!(layer.ascii_matrix(), start);
        }
        layer.shift();
    }
    assert_eq!(layer.ascii_matrix(), start);
}

#[test]
fn stage_two_layers_total_height_and_floor() {
    let mut stage = Stage::new(10, 24);
    let bottom = Layer::new(10, Sprite::new(chars("abcdefghi"), 3).unwrap()).build();
    let top = Layer::new(10, Sprite::new(chars("abcd"), 2).unwrap()).build();
    stage.push_layer(bottom, "w".to_string());
    stage.set_floor();
    let first_row = stage.layer_pos(0).unwrap().row;
    assert_eq!(first_row, 22);
    assert_eq!(stage.floor(), first_row);
    stage.push_layer(top, "g".to_string());
    assert_eq!(stage.layers_height(), 5);
    assert_eq!(stage.floor(), first_row);
    assert_eq!(stage.floor, first_row);
    assert_eq!(stage.layer_pos(1), Some(Pos { col: 1, row: 20 }));
    assert_eq!(stage.layer_pos(2), None);
}

#[test]
fn stage_floor_without_layers_is_one() {
    let mut stage = Stage::new(10, 24);
    stage.set_floor();
    assert_eq!(stage.floor(), 1);
}

#[test]
fn stage_layer_too_tall_goes_to_row_one() {
    let mut stage = Stage::new(4, 1);
    let layer = Layer::new(4, Sprite::new(chars("abc"), 1).unwrap()).build();
    stage.push_layer(layer, String::new());
    assert_eq!(stage.layer_pos(0).unwrap().row, 1);
}

#[test]
fn stage_shift_moves_only_moving_layers() {
    let mut stage = Stage::new(2, 10);
    let moving = Layer::new(2, Sprite::new(chars("abc"), 3).unwrap()).shift(1).build();
    let still = Layer::new(2, Sprite::new(chars("xyz"), 3).unwrap()).shift(0).build();
    stage.push_layer(moving, String::new());
    stage.push_layer(still, String::new());
    stage.shift();
    let objs = stage.objs();
    assert_eq!(objs[0].sprite.rows(), vec![chars("bc")]);
    assert_eq!(objs[1].sprite.rows(), vec![chars("xy")]);
    stage.update();
    assert_eq!(stage.objs()[0].sprite.rows(), vec![chars("ca")]);
    stage.reset();
    assert_eq!(stage.objs()[0].sprite.rows(), vec![chars("ab")]);
}

#[test]
fn stage_add_layer_builds_and_marks_floor() {
    let mut stage = Stage::new(4, 10);
    stage.add_layer(Sprite::new(chars("ab"), 2).unwrap(), String::new(), 1, 2, true);
    assert_eq!(stage.floor(), 10);
    assert_eq!(stage.objs()[0].sprite.rows(), vec![chars("ab a")]);
    stage.add_layer(Sprite::new(chars("cd"), 1).unwrap(), String::new(), 0, 0, false);
    assert_eq!(stage.floor(), 10);
    assert_eq!(stage.layer_pos(1).unwrap().row, 8);
    assert_eq!(stage.layers_height(), 3);
}
