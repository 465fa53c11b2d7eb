use vshooter::actor::Bullet;
use vshooter::collision::{clash, hit_player, retain_live};
use vshooter::geometry::{AbsoluteDirection, Position, Team};

fn mono(x: i32, y: i32) -> Bullet {
    Bullet::new(x, y, AbsoluteDirection::XPlus, Team::Mono)
}

fn di(x: i32, y: i32) -> Bullet {
    Bullet::new(x, y, AbsoluteDirection::XMinus, Team::Di)
}

#[test]
fn colliding_bullets_both_disable() {
    let mut ms = vec![mono(40, 20)];
    let mut ds = vec![di(41, 20)];
    clash(&mut ms, &mut ds);
    assert!(!ms[0].active);
    assert!(!ds[0].active);
}

#[test]
fn distant_bullets_pass_each_other() {
    let mut ms = vec![mono(40, 20)];
    let mut ds = vec![di(41, 21)];
    clash(&mut ms, &mut ds);
    assert!(ms[0].active);
    assert!(ds[0].active);
}

#[test]
fn a_bullet_destroys_only_the_first_opponent_it_meets() {
    let mut ms = vec![mono(40, 20), mono(60, 0)];
    let mut ds = vec![di(40, 21), di(40, 19)];
    clash(&mut ms, &mut ds);
    assert!(!ms[0].active);
    assert!(!ds[0].active);
    assert!(ds[1].active);
    assert!(ms[1].active);
}

#[test]
fn disabled_bullets_clash_with_nothing() {
    let mut m = mono(40, 20);
    m.disable();
    let mut ms = vec![m];
    let mut ds = vec![di(40, 20)];
    clash(&mut ms, &mut ds);
    assert!(ds[0].active);
    assert_eq!(hit_player(Position::new(40, 20), &mut ms), 0);
}

#[test]
fn player_hit_counts_once() {
    let player = Position::new(118, 32);
    let mut bullets = vec![mono(117, 32), mono(100, 32), mono(118, 33)];
    assert_eq!(hit_player(player, &mut bullets), 2);
    assert!(!bullets[0].active);
    assert!(bullets[1].active);
    assert!(!bullets[2].active);
    assert_eq!(hit_player(player, &mut bullets), 0);
}

#[test]
fn removal_keeps_live_bullets_in_order() {
    let mut gone = mono(5, 5);
    gone.disable();
    let mut bullets = vec![mono(-8, 5), mono(3, 4), gone, mono(135, 71), mono(50, 72)];
    retain_live(&mut bullets);
    assert_eq!(bullets.len(), 2);
    assert_eq!((bullets[0].x, bullets[0].y), (3, 4));
    assert_eq!((bullets[1].x, bullets[1].y), (135, 71));
}
