use crabbit::components::enemies::{Enemies, Wall, Walls};
use crabbit::components::hud::{Hud, Splash};
use crabbit::components::player::{Player, PlayerState};
use crabbit::components::stage::Layer;
use crabbit::components::Stage;
use crabbit::game::{act_for_key, delay_for, Act, Game, Runner, INI_DELAY, MIN_DELAY};
use crabbit::graphics::{Pos, Sprite};

fn game_with_wall_at(col: u16) -> Game {
    let mut stage = Stage::new(20, 10);
    let ground = Layer::new(20, Sprite::new("__--".chars().collect(), 4).unwrap()).shift(1).build();
    stage.push_layer(ground, String::new());
    stage.set_floor();
    let floor = stage.floor();
    let player = Player::new('O', String::new(), floor);
    let mut walls = Walls::new('|', Pos { col, row: floor }, 1);
    walls.push_wall(Wall::Small);
    let mut enemies = Enemies::new();
    enemies.add_enemy(walls);
    let splash = Splash::new(&stage.size, "Title", String::new(), "Pause", String::new());
    Game::new(player, stage, enemies, Hud::new(splash))
}

#[test]
fn keys_map_to_actions() {
    assert_eq!(act_for_key(' '), Some(Act::PlayerJump));
    assert_eq!(act_for_key('q'), Some(Act::Quit));
    assert_eq!(act_for_key('Q'), Some(Act::Quit));
    assert_eq!(act_for_key('r'), Some(Act::Restart));
    assert_eq!(act_for_key('R'), Some(Act::Restart));
    assert_eq!(act_for_key('\u{1b}'), Some(Act::Pause));
    assert_eq!(act_for_key('x'), None);
}

#[test]
fn delay_shrinks_with_score() {
    assert_eq!(delay_for(0), 60);
    assert_eq!(delay_for(49), 60);
    assert_eq!(delay_for(50), 59);
    assert_eq!(delay_for(1499), 31);
    assert_eq!(delay_for(1500), 30);
    assert_eq!(delay_for(u32::MAX), MIN_DELAY);
}

#[test]
fn runner_starts_at_initial_delay() {
    let r = Runner::new(game_with_wall_at(40));
    assert_eq!(r.delay(), INI_DELAY);
    assert!(r.proceeds());
    assert!(!r.paused());
}

#[test]
fn runner_jump_and_quit() {
    let mut r = Runner::new(game_with_wall_at(40));
    r.act_handler(Act::PlayerJump);
    assert_eq!(r.game().player.state, PlayerState::Jumping);
    assert!(r.step(None));
    assert_eq!(r.game().player.pos().row, 8);
    assert_eq!(r.game().hud.score().current(), 1);
    assert!(!r.step(Some(Act::Quit)));
    assert!(!r.proceeds());
    assert_eq!(r.game().hud.score().current(), 1);
}

#[test]
fn runner_pause_and_resume() {
    let mut r = Runner::new(game_with_wall_at(40));
    r.act_handler(Act::Pause);
    assert!(r.paused());
    assert!(r.step(Some(Act::Pause)));
    assert!(!r.paused());
    r.show_title();
    assert!(r.paused());
    r.resume();
    assert!(!r.paused());
}

#[test]
fn runner_collision_restarts() {
    // the wall spawns in the player's column, on the player's row
    let mut r = Runner::new(game_with_wall_at(8));
    assert!(!r.collide());
    r.advance();
    r.advance();
    r.advance();
    assert_eq!(r.game().hud.score().current(), 3);
    r.act_handler(Act::Restart);
    assert_eq!(r.game().hud.score().record(), 3);
    let mut r = Runner::new(game_with_wall_at(8));
    r.advance();
    assert!(r.collide());
    assert_eq!(r.delay(), INI_DELAY);
    assert_eq!(r.game().hud.score().current(), 1);
    assert_eq!(r.game().hud.score().record(), 1);
    assert!(!r.collide());
}

#[test]
fn runner_restart_resets_game() {
    let mut r = Runner::new(game_with_wall_at(40));
    r.act_handler(Act::PlayerJump);
    r.advance();
    r.act_handler(Act::Restart);
    assert_eq!(r.delay(), INI_DELAY);
    assert_eq!(r.game().player.state, PlayerState::Running);
    assert_eq!(r.game().hud.score().current(), 1);
    assert_eq!(r.game().hud.score().record(), 1);
}
