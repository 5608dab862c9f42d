use crabbit::graphics::{Obj, Pos, Sprite, SpriteError};

fn chars(s: &str) -> Vec<char> {
    s.chars().collect()
}

#[test]
fn sprite_new_accepts_whole_rows() {
    let s = Sprite::new(chars("abcdef"), 3).unwrap();
    assert_eq!(s.size(), (3, 2));
    assert_eq!(s.len(), 6);
}

#[test]
fn sprite_new_rejects_bad_widths() {
    assert_eq!(Sprite::new(chars("abcdef"), 4).unwrap_err(), SpriteError::InvalidDimensions);
    assert_eq!(Sprite::new(chars("abc"), 4).unwrap_err(), SpriteError::InvalidDimensions);
    assert_eq!(Sprite::new(chars("abc"), 0).unwrap_err(), SpriteError::InvalidDimensions);
    assert_eq!(Sprite::new(Vec::new(), 1).unwrap_err(), SpriteError::InvalidDimensions);
}

#[test]
fn sprite_get_reads_row_major() {
    let s = Sprite::new(chars("abcdef"), 3).unwrap();
    assert_eq!(s.get(0, 0), Some(&'a'));
    assert_eq!(s.get(0, 2), Some(&'c'));
    assert_eq!(s.get(1, 0), Some(&'d'));
    assert_eq!(s.get(1, 2), Some(&'f'));
}

#[test]
fn sprite_get_out_of_bounds_is_none() {
    let s = Sprite::new(chars("abcdef"), 3).unwrap();
    assert_eq!(s.get(2, 0), None);
    assert_eq!(s.get(0, 3), None);
}

#[test]
fn sprite_set_ascii_keeps_size() {
    let mut s = Sprite::new(chars("abcdef"), 3).unwrap();
    assert_eq!(s.set_ascii(chars("uvwxyz")), Ok(()));
    assert_eq!(s.get(1, 1), Some(&'y'));
    assert_eq!(s.size(), (3, 2));
}

#[test]
fn sprite_set_ascii_rejects_other_length() {
    let mut s = Sprite::new(chars("abcdef"), 3).unwrap();
    assert_eq!(s.set_ascii(chars("abc")), Err(SpriteError::SizeMismatch));
    assert_eq!(s.get(0, 0), Some(&'a'));
}

#[test]
fn sprite_stretch_pads_every_row() {
    let mut s = Sprite::new(chars("abcdef"), 3).unwrap();
    s.stretch(2, '.');
    assert_eq!(s.size(), (5, 2));
    let rows: Vec<String> = s.rows().iter().map(|r| r.iter().collect()).collect();
    assert_eq!(rows, vec!["abc..".to_string(), "def..".to_string()]);
}

#[test]
fn sprite_stretch_by_zero_changes_nothing() {
    let mut s = Sprite::new(chars("abcd"), 2).unwrap();
    s.stretch(0, '.');
    assert_eq!(s.size(), (2, 2));
    assert_eq!(s.get(1, 1), Some(&'d'));
}

#[test]
fn sprite_rows_split_by_width() {
    let s = Sprite::new(chars("abcdef"), 2).unwrap();
    let rows = s.rows();
    assert_eq!(rows, vec![chars("ab"), chars("cd"), chars("ef")]);
}

#[test]
fn sprite_from_lines_pads_to_longest() {
    let lines = vec![chars("ab"), chars("abcd"), chars("")];
    let s = Sprite::from_lines(&lines).unwrap();
    assert_eq!(s.size(), (4, 3));
    assert_eq!(s.rows(), vec![chars("ab  "), chars("abcd"), chars("    ")]);
}

#[test]
fn sprite_from_lines_rejects_blank_input() {
    assert_eq!(Sprite::from_lines(&Vec::new()).unwrap_err(), SpriteError::InvalidDimensions);
    assert_eq!(Sprite::from_lines(&vec![Vec::new()]).unwrap_err(), SpriteError::InvalidDimensions);
}

#[test]
fn obj_new_keeps_its_parts() {
    let s = Sprite::new(chars("x"), 1).unwrap();
    let o = Obj::new(Pos { col: 3, row: 4 }, s, "c".to_string());
    assert_eq!(o.pos, Pos { col: 3, row: 4 });
    assert_eq!(o.color, "c");
    assert_eq!(o.sprite.size(), (1, 1));
}
