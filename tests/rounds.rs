use vshooter::actor::Bullet;
use vshooter::geometry::{AbsoluteDirection, Position, Team};
use vshooter::input::{ButtonLevels, Inputs, Key, Level};
use vshooter::render::{DrawCommand, Label, TextAlign};
use vshooter::round::{
    draw_random, take_hits, Phase, RandomDraws, Round, BULLET_DAMAGE, INITIAL_HITPOINT,
    RESULT_TICK_SIZE,
};

fn idle_inputs() -> Inputs {
    Inputs::new(Vec::new(), ButtonLevels::new(Level::High, Level::High))
}

fn quiet_draws() -> RandomDraws {
    RandomDraws { gun1_y: 60, gun2_y: 60, arm1: 1, arm2: 1 }
}

#[test]
fn new_round_starts_playing_at_full_health() {
    let round = Round::new();
    assert_eq!(round.phase(), Phase::Playing);
    assert_eq!(round.mono_hitpoint, 64);
    assert_eq!(round.di_hitpoint, 64);
    assert_eq!(round.winner, None);
    assert_eq!(round.indicators(), (false, false));
}

#[test]
fn damage_clamps_at_zero() {
    assert_eq!(take_hits(64, 1), 60);
    assert_eq!(take_hits(64, 16), 0);
    assert_eq!(take_hits(5, 2), 0);
    assert_eq!(take_hits(64, usize::MAX), 0);
    assert_eq!(take_hits(7, 0), 7);
}

#[test]
fn sixteen_hits_on_mono_make_di_the_winner() {
    let mut round = Round::new();
    for _ in 0..16 {
        round.apply_hits(1, 0);
        round.decide_winner();
    }
    assert_eq!(round.mono_hitpoint, 0);
    assert_eq!(round.di_hitpoint, INITIAL_HITPOINT);
    assert_eq!(round.winner, Some(Team::Di));
    round.count_down_exit();
    assert_eq!(round.phase(), Phase::ResultShown(RESULT_TICK_SIZE));
    assert_eq!(round.result_labels(), Some((Label::Lose, Label::Win)));
}

#[test]
fn fifteen_hits_leave_the_round_playing() {
    let mut round = Round::new();
    round.apply_hits(15, 0);
    round.decide_winner();
    assert_eq!(round.mono_hitpoint, 4);
    assert_eq!(round.winner, None);
}

#[test]
fn simultaneous_knockout_resets_both_teams() {
    let mut round = Round::new();
    round.apply_hits(15, 15);
    round.decide_winner();
    round.apply_hits(1, 1);
    assert_eq!((round.mono_hitpoint, round.di_hitpoint), (0, 0));
    round.decide_winner();
    assert_eq!(round.winner, None);
    assert_eq!(round.mono_hitpoint, BULLET_DAMAGE);
    assert_eq!(round.di_hitpoint, BULLET_DAMAGE);
    round.count_down_exit();
    assert_eq!(round.phase(), Phase::Playing);
}

#[test]
fn result_shows_for_exactly_the_countdown() {
    let mut round = Round::new();
    round.apply_hits(0, 16);
    round.step(&idle_inputs(), quiet_draws());
    assert_eq!(round.winner, Some(Team::Mono));
    assert_eq!(round.phase(), Phase::ResultShown(100));
    let (mono, di) = (round.mono_hitpoint, round.di_hitpoint);
    for _ in 0..99 {
        round.step(&idle_inputs(), quiet_draws());
        assert_ne!(round.phase(), Phase::Terminated);
        assert_eq!((round.mono_hitpoint, round.di_hitpoint), (mono, di));
    }
    assert_eq!(round.phase(), Phase::ResultShown(1));
    round.step(&idle_inputs(), quiet_draws());
    assert_eq!(round.phase(), Phase::Terminated);
    let tick = round.tick;
    round.step(&idle_inputs(), quiet_draws());
    assert_eq!(round.tick, tick);
    assert_eq!(round.phase(), Phase::Terminated);
}

#[test]
fn step_moves_players_and_fires_guns() {
    let mut round = Round::new();
    let inputs = Inputs::new(vec![Key::F, Key::K], ButtonLevels::new(Level::High, Level::High));
    round.step(&inputs, RandomDraws { gun1_y: 5, gun2_y: 50, arm1: 3, arm2: 3 });
    assert_eq!(round.tick, 1);
    assert_eq!(round.players.player1.get_position(), Position::new(12, 32));
    assert_eq!(round.players.player2.get_position(), Position::new(120, 32));
    assert_eq!(round.bullets_mono.len(), 1);
    assert_eq!((round.bullets_mono[0].x, round.bullets_mono[0].y), (12, 5));
    assert_eq!((round.bullets_di[0].x, round.bullets_di[0].y), (120, 50));
    assert_eq!(round.guns.gun1.countdown, 10);
    round.step(&idle_inputs(), quiet_draws());
    assert_eq!(round.bullets_mono[0].x, 13);
    assert_eq!(round.bullets_di[0].x, 119);
    assert_eq!(round.bullets_mono.len(), 1);
}

#[test]
fn bullet_reaching_a_player_costs_damage_once() {
    let mut round = Round::new();
    round.guns.gun1.countdown = 5;
    round.guns.gun2.countdown = 5;
    round.bullets_mono.push(Bullet::new(117, 32, AbsoluteDirection::XPlus, Team::Mono));
    round.step(&idle_inputs(), quiet_draws());
    assert_eq!(round.di_hitpoint, 60);
    assert_eq!(round.mono_hitpoint, 64);
    assert_eq!(round.bullets_mono.len(), 0);
    round.step(&idle_inputs(), quiet_draws());
    assert_eq!(round.di_hitpoint, 60);
}

#[test]
fn opposing_bullets_meeting_cost_no_damage() {
    let mut round = Round::new();
    round.guns.gun1.countdown = 5;
    round.guns.gun2.countdown = 5;
    round.bullets_mono.push(Bullet::new(60, 10, AbsoluteDirection::XPlus, Team::Mono));
    round.bullets_di.push(Bullet::new(62, 10, AbsoluteDirection::XMinus, Team::Di));
    round.step(&idle_inputs(), quiet_draws());
    assert_eq!(round.bullets_mono.len(), 0);
    assert_eq!(round.bullets_di.len(), 0);
    assert_eq!((round.mono_hitpoint, round.di_hitpoint), (64, 64));
}

#[test]
fn armed_laser_lights_and_fires_on_button() {
    let mut round = Round::new();
    round.step(&idle_inputs(), RandomDraws { gun1_y: 60, gun2_y: 60, arm1: 0, arm2: 1 });
    assert_eq!(round.indicators(), (true, false));
    let press = Inputs::new(Vec::new(), ButtonLevels::new(Level::Low, Level::High));
    round.step(&press, quiet_draws());
    assert_eq!(round.indicators(), (false, false));
    let beam = round.bullets_mono.last().unwrap();
    assert_eq!((beam.x, beam.y), (-7, 32));
}

#[test]
fn frame_lists_every_shape_and_the_result() {
    let mut round = Round::new();
    round.apply_hits(16, 1);
    round.decide_winner();
    round.count_down_exit();
    round.bullets_di.push(Bullet::new(50, 40, AbsoluteDirection::XMinus, Team::Di));
    let frame = round.frame();
    assert_eq!(frame.len(), 8);
    assert_eq!(frame[0], DrawCommand::Clear);
    assert_eq!(
        frame[3],
        DrawCommand::FilledTriangle {
            a: Position::new(48, 40),
            b: Position::new(52, 41),
            c: Position::new(52, 39),
        }
    );
    assert_eq!(
        frame[4],
        DrawCommand::Line { from: Position::new(0, 0), to: Position::new(0, 0) }
    );
    assert_eq!(
        frame[5],
        DrawCommand::Line { from: Position::new(68, 0), to: Position::new(128, 0) }
    );
    assert_eq!(
        frame[6],
        DrawCommand::Text { label: Label::Lose, anchor: Position::new(0, 0), align: TextAlign::Left }
    );
    assert_eq!(
        frame[7],
        DrawCommand::Text { label: Label::Win, anchor: Position::new(128, 0), align: TextAlign::Right }
    );
}

#[test]
fn random_draws_stay_in_range() {
    for _ in 0..2000 {
        let d = draw_random();
        assert!(0 <= d.gun1_y && d.gun1_y <= 64);
        assert!(0 <= d.gun2_y && d.gun2_y <= 64);
        assert!(d.arm1 < 280);
        assert!(d.arm2 < 280);
    }
}

#[test]
fn random_ticks_keep_the_round_consistent() {
    let mut round = Round::new();
    for _ in 0..500 {
        round.advance(&idle_inputs());
        assert!(round.mono_hitpoint <= 64);
        for b in round.bullets_mono.iter().chain(round.bullets_di.iter()) {
            assert!(b.active);
        }
    }
}
