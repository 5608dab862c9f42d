use crabbit::components::player::{Player, PlayerState};
use crabbit::components::DynComp;
use crabbit::graphics::Pos;

#[test]
fn player_spawns_above_floor() {
    let p = Player::new('O', "y".to_string(), 11);
    assert_eq!(p.pos(), Pos { col: 8, row: 10 });
    assert_eq!(p.state, PlayerState::Running);
    assert_eq!(p.pending(), 0);
    assert_eq!(p.obj.color, "y");
    assert_eq!(p.obj.sprite.get(0, 0), Some(&'O'));
}

#[test]
fn player_jump_arc() {
    let mut p = Player::new('O', String::new(), 11);
    assert_eq!(p.pos().row, 10);
    p.jump(3);
    assert_eq!(p.state, PlayerState::Jumping);
    assert_eq!(p.pending(), 7);
    for _ in 0..3 {
        p.update();
    }
    assert_eq!(p.pos().row, 7);
    p.update();
    assert_eq!(p.pos().row, 7);
    assert_eq!(p.state, PlayerState::Jumping);
    for _ in 0..3 {
        p.update();
    }
    assert_eq!(p.pos().row, 10);
    assert_eq!(p.state, PlayerState::Running);
    assert_eq!(p.pending(), 0);
}

#[test]
fn player_jump_while_jumping_is_ignored() {
    let mut p = Player::new('O', String::new(), 11);
    p.jump(3);
    p.mv();
    let pending = p.pending();
    let row = p.pos().row;
    p.jump(5);
    assert_eq!(p.pending(), pending);
    assert_eq!(p.state, PlayerState::Jumping);
    assert_eq!(p.pos().row, row);
}

#[test]
fn player_at_top_row_does_not_rise() {
    let mut p = Player::new('O', String::new(), 2);
    assert_eq!(p.pos().row, 1);
    p.jump(2);
    assert_eq!(p.pending(), 3);
    p.mv();
    assert_eq!(p.pos().row, 1);
    p.mv();
    assert_eq!(p.pos().row, 2);
    p.mv();
    assert_eq!(p.pos().row, 3);
    assert_eq!(p.state, PlayerState::Running);
}

#[test]
fn player_jump_of_zero_holds_one_frame() {
    let mut p = Player::new('O', String::new(), 11);
    p.jump(0);
    assert_eq!(p.pending(), 1);
    p.mv();
    assert_eq!(p.pos().row, 10);
    assert_eq!(p.state, PlayerState::Running);
}

#[test]
fn player_killed_stays_killed() {
    let mut p = Player::new('O', String::new(), 11);
    p.kill();
    assert_eq!(p.state, PlayerState::Killed);
    p.jump(3);
    assert_eq!(p.pending(), 0);
    p.update();
    assert_eq!(p.state, PlayerState::Killed);
}

#[test]
fn player_reset_respawns() {
    let mut p = Player::new('O', String::new(), 11);
    p.jump(3);
    p.update();
    p.update();
    p.kill();
    p.reset();
    assert_eq!(p.pos(), Pos { col: 8, row: 10 });
    assert_eq!(p.state, PlayerState::Running);
    assert_eq!(p.pending(), 0);
}
