use vshooter::geometry::{AbsoluteDirection, Position, Team};
use vshooter::input::Level;
use vshooter::weapon::{shoot_interval, Gun, Laser, LaserState, EMIT_TICK_SIZE};

#[test]
fn cadence_shrinks_as_ticks_pass() {
    assert_eq!(shoot_interval(0), 10);
    assert_eq!(shoot_interval(1), 10);
    assert_eq!(shoot_interval(100), 6);
    assert_eq!(shoot_interval(1800), 1);
    assert_eq!(shoot_interval(2000), 0);
    assert_eq!(shoot_interval(u128::MAX), 0);
}

#[test]
fn gun_fires_then_counts_down() {
    let mut gun = Gun::new(Team::Mono, AbsoluteDirection::XPlus);
    let first = gun.tick(1, 10, 40).unwrap();
    assert_eq!((first.x, first.y, first.team), (10, 40, Team::Mono));
    assert_eq!(gun.countdown, 10);
    for _ in 0..10 {
        assert!(gun.tick(2, 10, 40).is_none());
    }
    assert!(gun.tick(2000, 12, 3).is_some());
    assert_eq!(gun.countdown, 0);
    assert!(gun.tick(2001, 12, 3).is_some());
}

#[test]
fn idle_laser_arms_only_on_zero_draw() {
    let mut laser = Laser::new(Team::Mono, AbsoluteDirection::XPlus);
    let target = Position::new(118, 20);
    assert!(laser.try_emit(5, target, Level::Low).is_none());
    assert_eq!(laser.state, LaserState::Idle);
    assert!(!laser.indicator());
    assert!(laser.try_emit(0, target, Level::Low).is_none());
    assert_eq!(laser.state, LaserState::Armed);
    assert!(laser.indicator());
}

#[test]
fn armed_laser_waits_for_button_then_fires_a_burst() {
    let mut laser = Laser::new(Team::Di, AbsoluteDirection::XMinus);
    laser.try_emit(0, Position::new(10, 5), Level::High);
    assert!(laser.try_emit(0, Position::new(10, 5), Level::High).is_none());
    assert!(laser.indicator());
    let first = laser.try_emit(0, Position::new(10, 7), Level::Low).unwrap();
    assert_eq!((first.x, first.y, first.team), (135, 7, Team::Di));
    assert_eq!(first.direction, AbsoluteDirection::XMinus);
    assert!(!laser.indicator());
    let mut emitted: u32 = 1;
    for y in 0..100 {
        match laser.try_emit(0, Position::new(10, y), Level::High) {
            Some(b) => {
                assert_eq!(b.y, y);
                emitted += 1;
            }
            None => break,
        }
        assert!(!laser.indicator());
    }
    assert_eq!(emitted, EMIT_TICK_SIZE);
    assert_eq!(laser.state, LaserState::Armed);
}

#[test]
fn team_mono_beam_starts_left_of_the_display() {
    let mut laser = Laser::new(Team::Mono, AbsoluteDirection::XPlus);
    laser.try_emit(0, Position::new(118, 50), Level::High);
    let b = laser.try_emit(9, Position::new(118, 50), Level::Low).unwrap();
    assert_eq!((b.x, b.y), (-7, 50));
    assert_eq!(laser.state, LaserState::Firing(EMIT_TICK_SIZE - 1));
}
