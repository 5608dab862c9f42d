use crabbit::components::enemies::walls::slot_wall;
use crabbit::components::enemies::{Enemies, Hitmap, Wall, Walls};
use crabbit::components::DynComp;
use crabbit::graphics::Pos;

#[test]
fn edge_slots_never_hold_big_walls() {
    for &big in &[false, true] {
        assert_eq!(slot_wall(0, true, big), Wall::Small);
        assert_eq!(slot_wall(3, true, big), Wall::Small);
    }
    assert_eq!(slot_wall(1, true, true), Wall::Big);
    assert_eq!(slot_wall(2, true, false), Wall::Small);
    assert_eq!(slot_wall(2, false, true), Wall::Void);
    assert_eq!(slot_wall(5, true, true), Wall::Void);
}

#[test]
fn wall_to_obj_stands_on_floor() {
    let o = Wall::Big.to_obj('|', Pos { col: 20, row: 15 }).unwrap();
    assert_eq!(o.pos, Pos { col: 20, row: 13 });
    assert_eq!(o.sprite.size(), (1, 2));
    assert_eq!(o.color, "\u{1b}[38;5;1m");
    let o = Wall::Small.to_obj('|', Pos { col: 20, row: 15 }).unwrap();
    assert_eq!(o.pos, Pos { col: 20, row: 14 });
    assert_eq!(o.sprite.get(0, 0), Some(&'|'));
    assert!(Wall::Void.to_obj('|', Pos { col: 20, row: 15 }).is_none());
}

#[test]
fn wall_on_low_floor_goes_to_row_one() {
    let o = Wall::Big.to_obj('|', Pos { col: 5, row: 1 }).unwrap();
    assert_eq!(o.pos.row, 1);
}

#[test]
fn walls_short_wall_reaches_column_ten() {
    let mut w = Walls::new('|', Pos { col: 20, row: 15 }, 2);
    w.push_wall(Wall::Small);
    let target = Pos { col: 10, row: 14 };
    for tick in 1..=10 {
        w.update();
        let front = w.objs()[0].pos;
        assert_eq!(front.col, 20 - 2 * (tick - 1));
        assert_eq!(front.row, 14);
        if tick <= 6 {
            let effective = front.col + front.col % 2;
            assert_eq!(w.hits(&target), effective == 10);
        }
    }
    assert!(w.hits(&Pos { col: 2, row: 14 }));
    assert!(!w.hits(&Pos { col: 2, row: 13 }));
}

#[test]
fn walls_retire_at_column_zero() {
    let mut w = Walls::new('|', Pos { col: 4, row: 15 }, 2);
    w.push_wall(Wall::Small);
    w.update();
    assert_eq!(w.objs()[0].pos.col, 4);
    w.update();
    assert_eq!(w.objs()[0].pos.col, 2);
    for _ in 0..20 {
        w.update();
        for o in w.objs() {
            assert!(o.pos.col > 0);
        }
    }
}

#[test]
fn walls_refill_queue_when_empty() {
    let mut w = Walls::new('|', Pos { col: 30, row: 15 }, 1);
    w.update();
    assert_eq!(w.objs().len(), 0);
    for _ in 0..8 {
        w.update();
    }
    for o in w.objs() {
        let (_, h) = o.sprite.size();
        assert!(h == 1 || h == 2);
    }
}

#[test]
fn walls_miss_left_of_every_wall() {
    let mut w = Walls::new('|', Pos { col: 20, row: 15 }, 3);
    w.push_wall(Wall::Big);
    w.update();
    w.update();
    // column 17, effective column 17 + 17 % 3 = 19
    assert_eq!(w.objs()[0].pos.col, 17);
    for col in 0..19 {
        assert!(!w.hits(&Pos { col, row: 13 }));
        assert!(!w.hits(&Pos { col, row: 14 }));
    }
    assert!(w.hits(&Pos { col: 19, row: 13 }));
    assert!(w.hits(&Pos { col: 19, row: 14 }));
    assert!(!w.hits(&Pos { col: 19, row: 15 }));
}

#[test]
fn walls_reset_clears_everything() {
    let mut w = Walls::new('|', Pos { col: 20, row: 15 }, 2);
    w.push_wall(Wall::Small);
    w.update();
    w.reset();
    assert_eq!(w.objs().len(), 0);
    w.update();
    assert_eq!(w.objs().len(), 0);
}

#[test]
fn empty_walls_hit_nothing() {
    let w = Walls::new('|', Pos { col: 20, row: 15 }, 2);
    assert!(!w.hits(&Pos { col: 20, row: 14 }));
}

#[test]
fn enemies_hit_when_any_member_hits() {
    let mut e = Enemies::new();
    assert!(!e.hits(&Pos { col: 10, row: 14 }));
    let mut w = Walls::new('|', Pos { col: 10, row: 15 }, 2);
    w.push_wall(Wall::Small);
    e.add_enemy(w);
    e.add_enemy(Walls::new('#', Pos { col: 30, row: 15 }, 1));
    e.update();
    assert_eq!(e.comps().len(), 2);
    assert!(e.hits(&Pos { col: 10, row: 14 }));
    e.reset();
    assert!(!e.hits(&Pos { col: 10, row: 14 }));
}
