use vshooter::actor::{Bullet, ObjectEnum, Player, Players};
use vshooter::geometry::{is_hit, is_in_tracked_region, AbsoluteDirection, Position, Team};
use vshooter::input::{ButtonLevels, Inputs, Key, Level};
use vshooter::render::DrawCommand;

fn released() -> ButtonLevels {
    ButtonLevels::new(Level::High, Level::High)
}

fn holding(keys: Vec<Key>) -> Inputs {
    Inputs::new(keys, released())
}

#[test]
fn hit_distance_is_manhattan_one() {
    assert!(is_hit(Position::new(5, 5), Position::new(5, 5)));
    assert!(is_hit(Position::new(5, 5), Position::new(6, 5)));
    assert!(is_hit(Position::new(5, 5), Position::new(5, 4)));
    assert!(!is_hit(Position::new(5, 5), Position::new(6, 6)));
    assert!(!is_hit(Position::new(0, 0), Position::new(2, 0)));
}

#[test]
fn tracked_region_is_display_plus_margin() {
    assert!(is_in_tracked_region(Position::new(-7, 0)));
    assert!(!is_in_tracked_region(Position::new(-8, 0)));
    assert!(is_in_tracked_region(Position::new(135, 71)));
    assert!(!is_in_tracked_region(Position::new(136, 10)));
    assert!(!is_in_tracked_region(Position::new(10, 72)));
}

#[test]
fn forward_moves_two_units_towards_the_opponent() {
    let mut players = Players::new();
    players.player1.tick(&holding(vec![Key::F]));
    assert_eq!((players.player1.x, players.player1.y), (12, 32));
    players.player2.tick(&holding(vec![Key::J]));
    assert_eq!((players.player2.x, players.player2.y), (116, 32));
}

#[test]
fn left_and_right_map_to_y_per_facing() {
    let mut players = Players::new();
    players.player1.tick(&holding(vec![Key::R]));
    assert_eq!(players.player1.y, 31);
    players.player1.tick(&holding(vec![Key::C]));
    assert_eq!(players.player1.y, 32);
    players.player2.tick(&holding(vec![Key::M]));
    assert_eq!(players.player2.y, 33);
}

#[test]
fn opposite_keys_cancel_and_other_keys_are_ignored() {
    let mut players = Players::new();
    players.player1.tick(&holding(vec![Key::F, Key::D, Key::J, Key::Z]));
    assert_eq!((players.player1.x, players.player1.y), (10, 32));
}

#[test]
fn front_limit_stops_forward_motion() {
    let mut p = Players::new().player1;
    p.move_to(49, 10);
    p.tick(&holding(vec![Key::F]));
    assert_eq!(p.x, 49);
    p.tick(&holding(vec![Key::D]));
    assert_eq!(p.x, 47);
}

#[test]
fn moves_off_the_display_are_dropped_per_axis() {
    let mut p = Player::new(
        1,
        0,
        AbsoluteDirection::XPlus,
        Team::Mono,
        vec![Key::F],
        vec![Key::D],
        vec![Key::R],
        vec![Key::C],
        0,
    );
    p.move_by(-2, -1);
    assert_eq!((p.x, p.y), (1, 0));
    p.move_by(-1, 64);
    assert_eq!((p.x, p.y), (0, 64));
    p.move_by(129, 1);
    assert_eq!((p.x, p.y), (0, 64));
    p.move_by(128, -64);
    assert_eq!((p.x, p.y), (128, 0));
}

#[test]
fn y_facing_players_map_forward_to_y() {
    let mut p = Player::new(
        20,
        20,
        AbsoluteDirection::YPlus,
        Team::Mono,
        vec![Key::F],
        vec![Key::D],
        vec![Key::R],
        vec![Key::C],
        0,
    );
    p.move_relative(1, 0);
    assert_eq!((p.x, p.y), (20, 19));
    p.move_relative(0, 1);
    assert_eq!((p.x, p.y), (22, 19));
}

#[test]
fn bullets_travel_one_unit_per_tick() {
    let mut b = Bullet::new(10, 10, AbsoluteDirection::XPlus, Team::Mono);
    b.tick();
    assert_eq!((b.x, b.y), (11, 10));
    let mut c = Bullet::new(10, 10, AbsoluteDirection::YMinus, Team::Di);
    c.tick();
    assert_eq!((c.x, c.y), (10, 9));
    c.disable();
    assert!(!c.is_active());
}

#[test]
fn shapes_follow_position_and_direction() {
    let p = Players::new().player1;
    assert_eq!(
        p.draw(),
        DrawCommand::FilledRect { top_left: Position::new(7, 29), width: 7, height: 7 }
    );
    let b = Bullet::new(20, 30, AbsoluteDirection::XMinus, Team::Di);
    assert_eq!(
        b.draw(),
        DrawCommand::FilledTriangle {
            a: Position::new(18, 30),
            b: Position::new(22, 31),
            c: Position::new(22, 29),
        }
    );
}

#[test]
fn objects_dispatch_by_kind() {
    let player = ObjectEnum::Player(Players::new().player2);
    let mut bullet = ObjectEnum::Bullet(Bullet::new(118, 33, AbsoluteDirection::XPlus, Team::Mono));
    assert_eq!(player.get_team(), Team::Di);
    assert!(player.is_hittable());
    assert!(bullet.hits(&player));
    bullet.tick(&holding(vec![]));
    assert_eq!(bullet.get_hitbox_position(), Position::new(119, 33));
    assert!(!bullet.hits(&player));
}
