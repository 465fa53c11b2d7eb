//! The round: one duel from the first tick to termination.
//!
//! Each tick the players move, live bullets travel, the guns fire on their
//! cadence, and, while no winner is declared, the lasers run and collisions
//! are resolved and damage applied. Spent bullets are then dropped, the
//! winner is decided, and once a winner is shown the exit countdown runs
//! down to termination.

use crate::actor::{Bullet, Player, Players, PLAYER_SIZE};
use crate::chance::random_below;
use crate::collision::{
    after_clash, after_player, clash, count_struck, hit_player, is_live, live_only, retain_live,
};
use crate::geometry::{on_display, Position, Team, DISPLAY_SIZE_X, DISPLAY_SIZE_Y};
use crate::input::{ButtonLevels, Inputs, Key, BUTTON_COUNT};
use crate::render::{DrawCommand, Label, TextAlign};
use crate::weapon::{Guns, Lasers, EMIT_PROBABILITY};
use vstd::prelude::*;

verus! {

/// Hit points each team starts a round with.
pub const INITIAL_HITPOINT: u8 = 64;

/// Hit points a team loses per bullet that strikes its player.
pub const BULLET_DAMAGE: u8 = 4;

/// Ticks the result stays on display before the round terminates.
pub const RESULT_TICK_SIZE: u32 = 100;

/// Hit points after `hits` strikes, never below zero.
pub open spec fn damaged(hp: u8, hits: nat) -> u8 {
    if hp as int - BULLET_DAMAGE * hits <= 0 {
        0
    } else {
        (hp as int - BULLET_DAMAGE * hits) as u8
    }
}

/// Hit points after `hits` strikes, never below zero.
pub fn take_hits(hp: u8, hits: usize) -> (r: u8)
    ensures
        r == damaged(hp, hits as nat),
{
    let needed = (hp as usize + 3) / 4;
    if hits >= needed {
        assert(hp as int - 4 * hits <= 0) by (nonlinear_arith)
            requires
                hits >= needed,
                needed == (hp as int + 3) / 4,
        {
        }
        0
    } else {
        assert(4 * hits < hp) by (nonlinear_arith)
            requires
                hits < needed,
                needed == (hp as int + 3) / 4,
        {
        }
        hp - (hits as u8) * BULLET_DAMAGE
    }
}

/// Winner and hit points after the winner check of a tick. Once either team
/// is out of hit points the team with strictly more wins; when both are
/// out together, both get `BULLET_DAMAGE` back and play goes on.
pub open spec fn decided(winner: Option<Team>, mono: u8, di: u8) -> (Option<Team>, u8, u8) {
    if winner.is_none() && (mono == 0 || di == 0) {
        if mono > di {
            (Some(Team::Mono), mono, di)
        } else if di > mono {
            (Some(Team::Di), mono, di)
        } else {
            (None, BULLET_DAMAGE, BULLET_DAMAGE)
        }
    } else {
        (winner, mono, di)
    }
}

/// Exit countdown after a tick: it starts at `RESULT_TICK_SIZE` on the tick
/// a winner is declared and then counts down by one per tick.
pub open spec fn counted_down(exit: Option<u32>, winner: Option<Team>) -> Option<u32> {
    match exit {
        Some(c) => Some((c - 1) as u32),
        None => if winner.is_some() {
            Some(RESULT_TICK_SIZE)
        } else {
            None
        },
    }
}

/// Bullets after a tick of travel; disabled ones stay where they are.
pub open spec fn advance_all(bs: Seq<Bullet>) -> Seq<Bullet> {
    bs.map_values(|b: Bullet| if b.active { b.advanced() } else { b })
}

/// Bullets with a new one, if any, appended.
pub open spec fn spawned(bs: Seq<Bullet>, shot: Option<Bullet>) -> Seq<Bullet> {
    match shot {
        Some(b) => bs.push(b),
        None => bs,
    }
}

/// The random values one tick consumes: the y each gun aims at and each
/// laser's arming draw.
#[derive(Clone, Copy, Debug, PartialEq, Eq, Structural)]
pub struct RandomDraws {
    pub gun1_y: i32,
    pub gun2_y: i32,
    pub arm1: u32,
    pub arm2: u32,
}

impl RandomDraws {
    /// Gun aims lie on the display's height, arming draws below
    /// `EMIT_PROBABILITY`.
    pub open spec fn valid(self) -> bool {
        &&& 0 <= self.gun1_y <= DISPLAY_SIZE_Y
        &&& 0 <= self.gun2_y <= DISPLAY_SIZE_Y
        &&& self.arm1 < EMIT_PROBABILITY
        &&& self.arm2 < EMIT_PROBABILITY
    }
}

/// Draws the random values of one tick.
pub fn draw_random() -> (r: RandomDraws)
    ensures
        r.valid(),
{
    let gun1_y = random_below(DISPLAY_SIZE_Y as u32 + 1) as i32;
    let gun2_y = random_below(DISPLAY_SIZE_Y as u32 + 1) as i32;
    let arm1 = random_below(EMIT_PROBABILITY);
    let arm2 = random_below(EMIT_PROBABILITY);
    RandomDraws { gun1_y, gun2_y, arm1, arm2 }
}

/// Where a round stands.
#[derive(Clone, Copy, Debug, PartialEq, Eq, Structural)]
pub enum Phase {
    /// No winner yet.
    Playing,
    /// A winner is shown; the round ends after this many more ticks.
    ResultShown(u32),
    /// The round is over.
    Terminated,
}

/// What a round holds, as plain values.
pub struct RoundModel {
    pub player1: Position,
    pub player2: Position,
    pub guns: Guns,
    pub lasers: Lasers,
    pub bullets_mono: Seq<Bullet>,
    pub bullets_di: Seq<Bullet>,
    pub mono_hitpoint: u8,
    pub di_hitpoint: u8,
    pub tick: u128,
    pub winner: Option<Team>,
    pub tick_for_exit: Option<u32>,
}

/// A round of the duel.
pub struct Round {
    pub players: Players,
    pub guns: Guns,
    pub lasers: Lasers,
    pub bullets_mono: Vec<Bullet>,
    pub bullets_di: Vec<Bullet>,
    pub mono_hitpoint: u8,
    pub di_hitpoint: u8,
    pub tick: u128,
    pub winner: Option<Team>,
    pub tick_for_exit: Option<u32>,
}

impl View for Round {
    type V = RoundModel;

    open spec fn view(&self) -> RoundModel {
        RoundModel {
            player1: self.players.player1.position_spec(),
            player2: self.players.player2.position_spec(),
            guns: self.guns,
            lasers: self.lasers,
            bullets_mono: self.bullets_mono@,
            bullets_di: self.bullets_di@,
            mono_hitpoint: self.mono_hitpoint,
            di_hitpoint: self.di_hitpoint,
            tick: self.tick,
            winner: self.winner,
            tick_for_exit: self.tick_for_exit,
        }
    }
}

/// Position of a player after a tick with the keys in `held` down.
pub open spec fn ticked_position(p: Player, held: Seq<Key>) -> Position {
    Position { x: p.ticked(held).0 as i32, y: p.ticked(held).1 as i32 }
}

impl Round {
    pub open spec fn phase_spec(self) -> Phase {
        match self.tick_for_exit {
            None => Phase::Playing,
            Some(c) => if c == 0 {
                Phase::Terminated
            } else {
                Phase::ResultShown(c)
            },
        }
    }

    /// The invariant of a round: players on the display with a valid fire
    /// button, only live bullets stored, well-formed lasers, and an exit
    /// countdown that runs exactly while a winner is declared.
    pub open spec fn wf(self) -> bool {
        &&& on_display(self.players.player1.x as int, self.players.player1.y as int)
        &&& on_display(self.players.player2.x as int, self.players.player2.y as int)
        &&& self.players.player1.shoot_button_idx < BUTTON_COUNT
        &&& self.players.player2.shoot_button_idx < BUTTON_COUNT
        &&& self.lasers.laser1.wf()
        &&& self.lasers.laser2.wf()
        &&& forall|k: int|
            0 <= k < self.bullets_mono@.len() ==> is_live(#[trigger] self.bullets_mono@[k])
        &&& forall|k: int| 0 <= k < self.bullets_di@.len() ==> is_live(#[trigger] self.bullets_di@[k])
        &&& self.winner.is_some() <==> self.tick_for_exit.is_some()
        &&& (self.tick_for_exit matches Some(c) ==> c <= RESULT_TICK_SIZE)
    }

    /// Whether the fire buttons of the two players read pressed.
    pub open spec fn pressed(self, levels: ButtonLevels) -> (bool, bool) {
        (
            levels.level_spec(self.players.player1.shoot_button_idx as int).is_pressed_spec(),
            levels.level_spec(self.players.player2.shoot_button_idx as int).is_pressed_spec(),
        )
    }

    /// Both teams' bullets after travel and this tick's shots, before
    /// collisions are resolved.
    pub open spec fn armed_bullets(
        self,
        held: Seq<Key>,
        levels: ButtonLevels,
        draws: RandomDraws,
    ) -> (Seq<Bullet>, Seq<Bullet>) {
        let p1 = ticked_position(self.players.player1, held);
        let p2 = ticked_position(self.players.player2, held);
        let (pressed1, pressed2) = self.pressed(levels);
        let mono0 = spawned(
            advance_all(self.bullets_mono@),
            self.guns.gun1.shot_spec(p1.x, draws.gun1_y),
        );
        let di0 = spawned(advance_all(self.bullets_di@), self.guns.gun2.shot_spec(p2.x, draws.gun2_y));
        if self.winner.is_none() {
            (
                spawned(mono0, self.lasers.laser1.shot_spec(p2, pressed1)),
                spawned(di0, self.lasers.laser2.shot_spec(p1, pressed2)),
            )
        } else {
            (mono0, di0)
        }
    }

    /// Strikes taken this tick by team Mono's and team Di's player; none
    /// once a winner is declared.
    pub open spec fn hits_taken(
        self,
        held: Seq<Key>,
        levels: ButtonLevels,
        draws: RandomDraws,
    ) -> (nat, nat) {
        let p1 = ticked_position(self.players.player1, held);
        let p2 = ticked_position(self.players.player2, held);
        let (mono1, di1) = self.armed_bullets(held, levels, draws);
        if self.winner.is_none() {
            (count_struck(p1, di1), count_struck(p2, mono1))
        } else {
            (0, 0)
        }
    }

    /// The round after one tick with the keys in `held` down, the fire
    /// buttons at `levels`, and the random values `draws`.
    pub open spec fn next(self, held: Seq<Key>, levels: ButtonLevels, draws: RandomDraws) -> RoundModel {
        if self.tick_for_exit == Some(0u32) {
            self@
        } else {
            let tick = (if self.tick < u128::MAX {
                self.tick + 1
            } else {
                self.tick as int
            }) as u128;
            let p1 = ticked_position(self.players.player1, held);
            let p2 = ticked_position(self.players.player2, held);
            let guns = Guns { gun1: self.guns.gun1.ticked(tick), gun2: self.guns.gun2.ticked(tick) };
            let (pressed1, pressed2) = self.pressed(levels);
            let playing = self.winner.is_none();
            let lasers = if playing {
                Lasers {
                    laser1: self.lasers.laser1.ticked(draws.arm1, pressed1),
                    laser2: self.lasers.laser2.ticked(draws.arm2, pressed2),
                }
            } else {
                self.lasers
            };
            let (mono1, di1) = self.armed_bullets(held, levels, draws);
            let (mono_hits, di_hits) = self.hits_taken(held, levels, draws);
            let (mono2, di2) = if playing {
                after_clash(after_player(p2, mono1), after_player(p1, di1))
            } else {
                (mono1, di1)
            };
            let (winner, mono_hp, di_hp) = decided(
                self.winner,
                damaged(self.mono_hitpoint, mono_hits),
                damaged(self.di_hitpoint, di_hits),
            );
            RoundModel {
                player1: p1,
                player2: p2,
                guns,
                lasers,
                bullets_mono: live_only(mono2),
                bullets_di: live_only(di2),
                mono_hitpoint: mono_hp,
                di_hitpoint: di_hp,
                tick,
                winner,
                tick_for_exit: counted_down(self.tick_for_exit, winner),
            }
        }
    }
}

/// Advances every active bullet by one tick of travel.
fn advance_bullets(bullets: &mut Vec<Bullet>)
    requires
        forall|k: int| 0 <= k < old(bullets)@.len() ==> is_live(#[trigger] old(bullets)@[k]),
    ensures
        final(bullets)@ == advance_all(old(bullets)@),
{
    let ghost before = bullets@;
    let mut i: usize = 0;
    while i < bullets.len()
        invariant
            i <= bullets.len() == before.len(),
            forall|k: int| 0 <= k < before.len() ==> is_live(#[trigger] before[k]),
            forall|k: int| 0 <= k < i ==> bullets@[k] == advance_all(before)[k],
            forall|k: int| i <= k < bullets.len() ==> bullets@[k] == before[k],
        decreases bullets.len() - i,
    {
        if bullets[i].active {
            assert(is_live(before[i as int]));
            bullets[i].tick();
        }
        i = i + 1;
    }
    assert(bullets@ =~= advance_all(before));
}

/// Appends the bullet fired this tick, if any.
fn push_shot(bullets: &mut Vec<Bullet>, shot: Option<Bullet>)
    ensures
        final(bullets)@ == spawned(old(bullets)@, shot),
{
    if let Some(b) = shot {
        bullets.push(b);
    }
}


impl Round {
    /// A fresh round: both players at their start, full hit points, guns
    /// ready, lasers idle, no bullets, no winner.
    pub fn new() -> (r: Round)
        ensures
            r.wf(),
            r.phase_spec() == Phase::Playing,
            r.bullets_mono@.len() == 0,
            r.bullets_di@.len() == 0,
            r.mono_hitpoint == INITIAL_HITPOINT,
            r.di_hitpoint == INITIAL_HITPOINT,
            r.tick == 0,
            r.winner.is_none(),
            r.guns == Guns::new_spec(),
            r.lasers == Lasers::new_spec(),
            r.players.player1.position_spec() == (Position { x: 10, y: 32 }),
            r.players.player2.position_spec() == (Position { x: 118, y: 32 }),
    {
        Round {
            players: Players::new(),
            guns: Guns::new(),
            lasers: Lasers::new(),
            bullets_mono: Vec::new(),
            bullets_di: Vec::new(),
            mono_hitpoint: INITIAL_HITPOINT,
            di_hitpoint: INITIAL_HITPOINT,
            tick: 0,
            winner: None,
            tick_for_exit: None,
        }
    }
}


impl Round {
    /// Where the round stands: playing until a winner is declared, then
    /// showing the result for `RESULT_TICK_SIZE` ticks, then terminated.
    pub fn phase(&self) -> (r: Phase)
        ensures
            r == self.phase_spec(),
    {
        match self.tick_for_exit {
            None => Phase::Playing,
            Some(c) => if c == 0 {
                Phase::Terminated
            } else {
                Phase::ResultShown(c)
            },
        }
    }

    pub fn is_terminated(&self) -> (r: bool)
        ensures
            r == (self.phase_spec() == Phase::Terminated),
    {
        self.tick_for_exit == Some(0u32)
    }

    /// Takes `mono_hits` strikes on team Mono and `di_hits` on team Di off
    /// their hit points, never below zero.
    pub fn apply_hits(&mut self, mono_hits: usize, di_hits: usize)
        ensures
            *final(self) == (Round {
                mono_hitpoint: damaged(old(self).mono_hitpoint, mono_hits as nat),
                di_hitpoint: damaged(old(self).di_hitpoint, di_hits as nat),
                ..*old(self)
            }),
    {
        self.mono_hitpoint = take_hits(self.mono_hitpoint, mono_hits);
        self.di_hitpoint = take_hits(self.di_hitpoint, di_hits);
    }

    /// The winner check: with no winner yet and a team out of hit points,
    /// the team with strictly more hit points wins; a tie at zero gives both
    /// teams `BULLET_DAMAGE` hit points and play goes on.
    pub fn decide_winner(&mut self)
        ensures
            ({
                let (w, m, d) = decided(old(self).winner, old(self).mono_hitpoint, old(self).di_hitpoint);
                *final(self) == (Round { winner: w, mono_hitpoint: m, di_hitpoint: d, ..*old(self) })
            }),
    {
        if self.winner.is_none() && (self.mono_hitpoint == 0 || self.di_hitpoint == 0) {
            if self.mono_hitpoint > self.di_hitpoint {
                self.winner = Some(Team::Mono);
            } else if self.di_hitpoint > self.mono_hitpoint {
                self.winner = Some(Team::Di);
            } else {
                self.mono_hitpoint = BULLET_DAMAGE;
                self.di_hitpoint = BULLET_DAMAGE;
            }
        }
    }

    /// The exit countdown: started at `RESULT_TICK_SIZE` once a winner is
    /// declared, then counted down by one per call.
    pub fn count_down_exit(&mut self)
        requires
            old(self).tick_for_exit != Some(0u32),
        ensures
            *final(self) == (Round {
                tick_for_exit: counted_down(old(self).tick_for_exit, old(self).winner),
                ..*old(self)
            }),
    {
        match self.tick_for_exit {
            Some(c) => {
                self.tick_for_exit = Some(c - 1);
            },
            None => {
                if self.winner.is_some() {
                    self.tick_for_exit = Some(RESULT_TICK_SIZE);
                }
            },
        }
    }

    /// One tick of the round with the given inputs and random values. A
    /// terminated round stays as it is.
    #[verifier::rlimit(60)]
    pub fn step(&mut self, inputs: &Inputs, draws: RandomDraws)
        requires
            old(self).wf(),
        ensures
            final(self).wf(),
            final(self)@ == old(self).next(inputs.keycodes@, inputs.button_levels, draws),
            final(self).players.player1.same_setup(old(self).players.player1),
            final(self).players.player2.same_setup(old(self).players.player2),
    {
        if self.is_terminated() {
            return;
        }
        if self.tick < u128::MAX {
            self.tick = self.tick + 1;
        }
        proof {
            crate::actor::lemma_tick_stays_on_display(self.players.player1, inputs.keycodes@);
            crate::actor::lemma_tick_stays_on_display(self.players.player2, inputs.keycodes@);
        }
        self.players.player1.tick(inputs);
        self.players.player2.tick(inputs);
        advance_bullets(&mut self.bullets_mono);
        advance_bullets(&mut self.bullets_di);
        let p1 = self.players.player1.get_position();
        let p2 = self.players.player2.get_position();

        let shot1 = self.guns.gun1.tick(self.tick, p1.x, draws.gun1_y);
        push_shot(&mut self.bullets_mono, shot1);
        let shot2 = self.guns.gun2.tick(self.tick, p2.x, draws.gun2_y);
        push_shot(&mut self.bullets_di, shot2);

        if self.winner.is_none() {
            let level1 = inputs.button_levels.level(self.players.player1.shoot_button_idx);
            let level2 = inputs.button_levels.level(self.players.player2.shoot_button_idx);
            let beam1 = self.lasers.laser1.try_emit(draws.arm1, p2, level1);
            push_shot(&mut self.bullets_mono, beam1);
            let beam2 = self.lasers.laser2.try_emit(draws.arm2, p1, level2);
            push_shot(&mut self.bullets_di, beam2);

            let mono_hits = hit_player(p1, &mut self.bullets_di);
            let di_hits = hit_player(p2, &mut self.bullets_mono);
            clash(&mut self.bullets_mono, &mut self.bullets_di);
            self.apply_hits(mono_hits, di_hits);
        }
        retain_live(&mut self.bullets_mono);
        retain_live(&mut self.bullets_di);
        self.decide_winner();
        self.count_down_exit();
    }
}


/// The command that draws a player.
pub open spec fn player_command(p: Player) -> DrawCommand {
    DrawCommand::FilledRect {
        top_left: Position { x: (p.x - 3) as i32, y: (p.y - 3) as i32 },
        width: PLAYER_SIZE,
        height: PLAYER_SIZE,
    }
}

/// The command that draws a bullet.
pub open spec fn bullet_command(b: Bullet) -> DrawCommand {
    DrawCommand::FilledTriangle { a: b.outline().0, b: b.outline().1, c: b.outline().2 }
}

/// The commands that draw a sequence of bullets, in order.
pub open spec fn bullet_commands(bs: Seq<Bullet>) -> Seq<DrawCommand> {
    bs.map_values(|b: Bullet| bullet_command(b))
}

/// The labels over team Mono's and team Di's side for a winner.
pub open spec fn labels_for(winner: Team) -> (Label, Label) {
    match winner {
        Team::Mono => (Label::Win, Label::Lose),
        Team::Di => (Label::Lose, Label::Win),
    }
}

impl Round {
    /// The random values of a tick are drawn, then the tick is played.
    pub fn advance(&mut self, inputs: &Inputs)
        requires
            old(self).wf(),
        ensures
            final(self).wf(),
            exists|d: RandomDraws|
                d.valid() && final(self)@ == old(self).next(inputs.keycodes@, inputs.button_levels, d),
            final(self).players.player1.same_setup(old(self).players.player1),
            final(self).players.player2.same_setup(old(self).players.player2),
    {
        let draws = draw_random();
        self.step(inputs, draws);
    }

    /// The indicator outputs of team Mono's and team Di's laser: each lit
    /// while its laser is armed, and both dark once the round is over.
    pub fn indicators(&self) -> (r: (bool, bool))
        ensures
            r == (if self.phase_spec() == Phase::Terminated {
                (false, false)
            } else {
                (self.lasers.laser1.indicator_spec(), self.lasers.laser2.indicator_spec())
            }),
    {
        if self.is_terminated() {
            (false, false)
        } else {
            (self.lasers.laser1.indicator(), self.lasers.laser2.indicator())
        }
    }

    /// The result labels over team Mono's and team Di's side, once a winner
    /// is declared.
    pub fn result_labels(&self) -> (r: Option<(Label, Label)>)
        ensures
            r == (match self.winner {
                Some(w) => Some(labels_for(w)),
                None => None,
            }),
    {
        match self.winner {
            Some(Team::Mono) => Some((Label::Win, Label::Lose)),
            Some(Team::Di) => Some((Label::Lose, Label::Win)),
            None => None,
        }
    }

    /// The commands that draw the current state: clear, both players, every
    /// bullet, both hit point bars along the top edge (team Mono's growing
    /// from the left, team Di's from the right), and the result labels once
    /// a winner is declared.
    pub open spec fn frame_spec(self) -> Seq<DrawCommand> {
        let bars = seq![
            DrawCommand::Line {
                from: Position { x: 0, y: 0 },
                to: Position { x: self.mono_hitpoint as i32, y: 0 },
            },
            DrawCommand::Line {
                from: Position { x: (DISPLAY_SIZE_X - self.di_hitpoint) as i32, y: 0 },
                to: Position { x: DISPLAY_SIZE_X, y: 0 },
            },
        ];
        let labels = match self.winner {
            Some(w) => seq![
                DrawCommand::Text {
                    label: labels_for(w).0,
                    anchor: Position { x: 0, y: 0 },
                    align: TextAlign::Left,
                },
                DrawCommand::Text {
                    label: labels_for(w).1,
                    anchor: Position { x: DISPLAY_SIZE_X, y: 0 },
                    align: TextAlign::Right,
                },
            ],
            None => Seq::empty(),
        };
        seq![
            DrawCommand::Clear,
            player_command(self.players.player1),
            player_command(self.players.player2),
        ] + bullet_commands(self.bullets_mono@) + bullet_commands(self.bullets_di@) + bars + labels
    }

    pub fn frame(&self) -> (r: Vec<DrawCommand>)
        requires
            self.wf(),
        ensures
            r@ == self.frame_spec(),
    {
        let mut out: Vec<DrawCommand> = Vec::new();
        out.push(DrawCommand::Clear);
        out.push(self.players.player1.draw());
        out.push(self.players.player2.draw());
        draw_bullets(&self.bullets_mono, &mut out);
        draw_bullets(&self.bullets_di, &mut out);
        out.push(
            DrawCommand::Line {
                from: Position::new(0, 0),
                to: Position::new(self.mono_hitpoint as i32, 0),
            },
        );
        out.push(
            DrawCommand::Line {
                from: Position::new(DISPLAY_SIZE_X - self.di_hitpoint as i32, 0),
                to: Position::new(DISPLAY_SIZE_X, 0),
            },
        );
        if let Some((mono_label, di_label)) = self.result_labels() {
            out.push(
                DrawCommand::Text {
                    label: mono_label,
                    anchor: Position::new(0, 0),
                    align: TextAlign::Left,
                },
            );
            out.push(
                DrawCommand::Text {
                    label: di_label,
                    anchor: Position::new(DISPLAY_SIZE_X, 0),
                    align: TextAlign::Right,
                },
            );
        }
        proof {
            assert(out@ =~= self.frame_spec());
        }
        out
    }
}

/// Appends the commands that draw live bullets.
fn draw_bullets(bullets: &Vec<Bullet>, out: &mut Vec<DrawCommand>)
    requires
        forall|k: int| 0 <= k < bullets@.len() ==> is_live(#[trigger] bullets@[k]),
    ensures
        final(out)@ == old(out)@ + bullet_commands(bullets@),
{
    let ghost start = out@;
    let mut i: usize = 0;
    while i < bullets.len()
        invariant
            i <= bullets.len(),
            forall|k: int| 0 <= k < bullets@.len() ==> is_live(#[trigger] bullets@[k]),
            out@ == start + bullet_commands(bullets@.take(i as int)),
        decreases bullets.len() - i,
    {
        assert(is_live(bullets@[i as int]));
        let c = bullets[i].draw();
        out.push(c);
        assert(bullets@.take(i + 1) =~= bullets@.take(i as int).push(bullets@[i as int]));
        assert(out@ =~= start + bullet_commands(bullets@.take(i + 1)));
        i = i + 1;
    }
    assert(bullets@.take(i as int) =~= bullets@);
}


/// Hit points never rise while the round is played, but for the tie rule:
/// on the one tick that drives both teams to zero together, both get
/// `BULLET_DAMAGE` back and no winner is declared. Once a winner is
/// declared, hit points no longer change.
pub proof fn lemma_hitpoints_never_rise(
    r: Round,
    held: Seq<Key>,
    levels: ButtonLevels,
    draws: RandomDraws,
)
    requires
        r.wf(),
    ensures
        ({
            let n = r.next(held, levels, draws);
            let (mono_hits, di_hits) = r.hits_taken(held, levels, draws);
            &&& r.phase_spec() == Phase::Playing ==> (n.mono_hitpoint <= r.mono_hitpoint
                && n.di_hitpoint <= r.di_hitpoint) || (damaged(r.mono_hitpoint, mono_hits) == 0
                && damaged(r.di_hitpoint, di_hits) == 0 && n.mono_hitpoint == BULLET_DAMAGE
                && n.di_hitpoint == BULLET_DAMAGE && n.winner.is_none())
            &&& r.phase_spec() != Phase::Playing ==> n.mono_hitpoint == r.mono_hitpoint
                && n.di_hitpoint == r.di_hitpoint
        }),
{
}

/// A declared winner is never replaced, and from then on each tick counts
/// the exit countdown down by one until the round is terminated; a
/// terminated round no longer changes.
pub proof fn lemma_result_runs_down(
    r: Round,
    held: Seq<Key>,
    levels: ButtonLevels,
    draws: RandomDraws,
)
    requires
        r.wf(),
    ensures
        ({
            let n = r.next(held, levels, draws);
            &&& r.winner.is_some() ==> n.winner == r.winner
            &&& r.phase_spec() matches Phase::ResultShown(c) ==> n.tick_for_exit == Some(
                (c - 1) as u32,
            )
            &&& r.phase_spec() == Phase::Terminated ==> n == r@
            &&& r.winner.is_none() && n.winner.is_some() ==> n.tick_for_exit == Some(
                RESULT_TICK_SIZE,
            )
        }),
{
}


/// Every bullet stored after a tick is live, hence active: a bullet that a
/// collision disables is dropped by the end of the same tick, together with
/// any that left the tracked region.
pub proof fn lemma_spent_bullets_dropped(
    r: Round,
    held: Seq<Key>,
    levels: ButtonLevels,
    draws: RandomDraws,
)
    requires
        r.wf(),
    ensures
        ({
            let n = r.next(held, levels, draws);
            &&& forall|k: int| 0 <= k < n.bullets_mono.len() ==> is_live(#[trigger] n.bullets_mono[k])
            &&& forall|k: int| 0 <= k < n.bullets_di.len() ==> is_live(#[trigger] n.bullets_di[k])
        }),
{
}

} // verus!
