//! Weapons: the gun, which fires on a cadence that speeds up as the round
//! goes on, and the laser, which arms by chance and fires a burst on the
//! press of its team's button.

use crate::actor::Bullet;
use crate::geometry::{AbsoluteDirection, Position, Team, DISPLAY_SIZE_X, DISPLAY_SIZE_Y};
use crate::input::Level;
use vstd::prelude::*;

verus! {

/// Numerator of the gun cadence.
pub const SHOOT_INTERVAL: u128 = 1000;

/// Added to half the elapsed ticks to form the divisor of the gun cadence.
pub const CADENCE_BASE: u128 = 100;

/// Ticks a laser keeps firing once triggered; one bullet per tick.
pub const EMIT_TICK_SIZE: u32 = 20;

/// A laser arms on a draw of 0 out of this many.
pub const EMIT_PROBABILITY: u32 = 280;

/// How far beyond the display edge behind the firer a laser bullet appears.
pub const LASER_SPAWN_DISTANCE: i32 = 7;

/// Ticks until the next gun shot, reset after a shot at elapsed tick `tick`.
pub open spec fn shoot_interval_spec(tick: u128) -> int {
    SHOOT_INTERVAL as int / (tick as int / 2 + CADENCE_BASE as int)
}

/// The gun cadence: `SHOOT_INTERVAL / (tick / 2 + CADENCE_BASE)`. The divisor
/// is at least `CADENCE_BASE`, so the interval is at most 10 and shrinks as
/// the round goes on.
pub fn shoot_interval(tick: u128) -> (r: u8)
    ensures
        r == shoot_interval_spec(tick),
        r <= SHOOT_INTERVAL / CADENCE_BASE,
{
    let divisor = tick / 2 + CADENCE_BASE;
    let r = SHOOT_INTERVAL / divisor;
    assert(r <= 10) by (nonlinear_arith)
        requires
            divisor >= 100,
            r == 1000int / divisor as int,
    {
    }
    r as u8
}

/// A gun: fires one bullet whenever its countdown has run out.
#[derive(Clone, Copy, Debug, PartialEq, Eq, Structural)]
pub struct Gun {
    pub team: Team,
    pub direction: AbsoluteDirection,
    pub countdown: u8,
}

impl Gun {
    /// A gun ready to fire on its first tick.
    pub fn new(team: Team, direction: AbsoluteDirection) -> (r: Gun)
        ensures
            r == (Gun { team, direction, countdown: 0 }),
    {
        Gun { team, direction, countdown: 0 }
    }

    /// A bullet of the gun's team at `(x, y)`, heading the gun's way.
    pub fn shoot(&self, x: i32, y: i32) -> (r: Bullet)
        ensures
            r == (Bullet { x, y, direction: self.direction, team: self.team, active: true }),
    {
        Bullet::new(x, y, self.direction, self.team)
    }

    /// The gun after a tick at elapsed tick `tick`.
    pub open spec fn ticked(self, tick: u128) -> Gun {
        if self.countdown == 0 {
            Gun { countdown: shoot_interval_spec(tick) as u8, ..self }
        } else {
            Gun { countdown: (self.countdown - 1) as u8, ..self }
        }
    }

    /// The bullet fired in a tick with the countdown where it is, aimed at
    /// `(x, y)`.
    pub open spec fn shot_spec(self, x: i32, y: i32) -> Option<Bullet> {
        if self.countdown == 0 {
            Some(Bullet { x, y, direction: self.direction, team: self.team, active: true })
        } else {
            None
        }
    }

    /// One tick: with the countdown at zero, fires at `(x, y)` and restarts
    /// the countdown from the cadence of `tick`; otherwise counts down.
    pub fn tick(&mut self, tick: u128, x: i32, y: i32) -> (r: Option<Bullet>)
        ensures
            *final(self) == old(self).ticked(tick),
            r == old(self).shot_spec(x, y),
    {
        if self.countdown == 0 {
            self.countdown = shoot_interval(tick);
            Some(self.shoot(x, y))
        } else {
            self.countdown = self.countdown - 1;
            None
        }
    }
}

/// The guns of both teams.
#[derive(Clone, Copy, Debug, PartialEq, Eq, Structural)]
pub struct Guns {
    pub gun1: Gun,
    pub gun2: Gun,
}

impl Guns {
    pub open spec fn new_spec() -> Guns {
        Guns {
            gun1: Gun { team: Team::Mono, direction: AbsoluteDirection::XPlus, countdown: 0 },
            gun2: Gun { team: Team::Di, direction: AbsoluteDirection::XMinus, countdown: 0 },
        }
    }

    /// Team Mono's gun firing towards x plus, team Di's towards x minus.
    pub fn new() -> (r: Guns)
        ensures
            r == Guns::new_spec(),
    {
        Guns {
            gun1: Gun::new(Team::Mono, AbsoluteDirection::XPlus),
            gun2: Gun::new(Team::Di, AbsoluteDirection::XMinus),
        }
    }
}

/// The state of a laser.
#[derive(Clone, Copy, Debug, PartialEq, Eq, Structural)]
pub enum LaserState {
    /// Not armed; arms on a lucky draw.
    Idle,
    /// Armed; fires when its team's button is pressed.
    Armed,
    /// Firing, with this many bullets left to emit.
    Firing(u32),
}

/// A laser: a state machine that arms by chance, waits for its team's
/// button, then emits one bullet per tick for `EMIT_TICK_SIZE` ticks.
#[derive(Clone, Copy, Debug, PartialEq, Eq, Structural)]
pub struct Laser {
    pub team: Team,
    pub direction: AbsoluteDirection,
    pub state: LaserState,
}

/// The state that follows a firing tick with `remaining` bullets left
/// before it.
pub open spec fn after_emission(remaining: int) -> LaserState {
    if remaining <= 1 {
        LaserState::Idle
    } else {
        LaserState::Firing((remaining - 1) as u32)
    }
}

/// The state after one tick, given the arming draw and whether the team's
/// button is pressed.
pub open spec fn next_state(state: LaserState, arm_draw: u32, pressed: bool) -> LaserState {
    match state {
        LaserState::Idle => if arm_draw == 0 {
            LaserState::Armed
        } else {
            LaserState::Idle
        },
        LaserState::Armed => if pressed {
            after_emission(EMIT_TICK_SIZE as int)
        } else {
            LaserState::Armed
        },
        LaserState::Firing(n) => after_emission(n as int),
    }
}

/// Whether a tick in `state` emits a bullet.
pub open spec fn emits(state: LaserState, pressed: bool) -> bool {
    match state {
        LaserState::Idle => false,
        LaserState::Armed => pressed,
        LaserState::Firing(_) => true,
    }
}

impl Laser {
    /// The remaining count of a firing laser is never zero and never above
    /// the burst length.
    pub open spec fn wf(self) -> bool {
        match self.state {
            LaserState::Firing(n) => 1 <= n <= EMIT_TICK_SIZE,
            _ => true,
        }
    }

    /// An idle laser.
    pub fn new(team: Team, direction: AbsoluteDirection) -> (r: Laser)
        ensures
            r == (Laser { team, direction, state: LaserState::Idle }),
            r.wf(),
    {
        Laser { team, direction, state: LaserState::Idle }
    }

    /// The laser's indicator is lit exactly while it is armed.
    pub open spec fn indicator_spec(self) -> bool {
        self.state == LaserState::Armed
    }

    pub fn indicator(&self) -> (r: bool)
        ensures
            r == self.indicator_spec(),
    {
        match self.state {
            LaserState::Armed => true,
            _ => false,
        }
    }

    /// Where a laser bullet appears: just beyond the display edge behind the
    /// firer, on the opponent's lateral coordinate.
    pub open spec fn spawn_point(self, target: Position) -> Position {
        match self.direction {
            AbsoluteDirection::XPlus => Position { x: -LASER_SPAWN_DISTANCE as i32, y: target.y },
            AbsoluteDirection::XMinus => Position {
                x: (DISPLAY_SIZE_X + LASER_SPAWN_DISTANCE) as i32,
                y: target.y,
            },
            AbsoluteDirection::YPlus => Position { x: target.x, y: -LASER_SPAWN_DISTANCE as i32 },
            AbsoluteDirection::YMinus => Position {
                x: target.x,
                y: (DISPLAY_SIZE_Y + LASER_SPAWN_DISTANCE) as i32,
            },
        }
    }

    /// The bullet a laser emits when its opponent stands at `target`.
    pub open spec fn beam(self, target: Position) -> Bullet {
        Bullet {
            x: self.spawn_point(target).x,
            y: self.spawn_point(target).y,
            direction: self.direction,
            team: self.team,
            active: true,
        }
    }

    /// The bullet emitted in a tick in the current state.
    pub open spec fn shot_spec(self, target: Position, pressed: bool) -> Option<Bullet> {
        if emits(self.state, pressed) {
            Some(self.beam(target))
        } else {
            None
        }
    }

    /// The laser after a tick in the current state.
    pub open spec fn ticked(self, arm_draw: u32, pressed: bool) -> Laser {
        Laser { state: next_state(self.state, arm_draw, pressed), ..self }
    }

    fn emit(&self, target: Position) -> (r: Bullet)
        ensures
            r == self.beam(target),
    {
        match self.direction {
            AbsoluteDirection::XPlus => Bullet::new(
                -LASER_SPAWN_DISTANCE,
                target.y,
                self.direction,
                self.team,
            ),
            AbsoluteDirection::XMinus => Bullet::new(
                DISPLAY_SIZE_X + LASER_SPAWN_DISTANCE,
                target.y,
                self.direction,
                self.team,
            ),
            AbsoluteDirection::YPlus => Bullet::new(
                target.x,
                -LASER_SPAWN_DISTANCE,
                self.direction,
                self.team,
            ),
            AbsoluteDirection::YMinus => Bullet::new(
                target.x,
                DISPLAY_SIZE_Y + LASER_SPAWN_DISTANCE,
                self.direction,
                self.team,
            ),
        }
    }

    /// One tick of the laser. Idle, it arms when `arm_draw` is 0. Armed, it
    /// starts firing when `level` reads pressed, emitting at once. Firing, it
    /// emits one bullet aimed at `target`, the opponent's current position,
    /// and goes back to idle after the last one.
    pub fn try_emit(&mut self, arm_draw: u32, target: Position, level: Level) -> (r: Option<
        Bullet,
    >)
        requires
            old(self).wf(),
        ensures
            final(self).wf(),
            *final(self) == old(self).ticked(arm_draw, level.is_pressed_spec()),
            r == old(self).shot_spec(target, level.is_pressed_spec()),
    {
        match self.state {
            LaserState::Idle => {
                if arm_draw == 0 {
                    self.state = LaserState::Armed;
                }
                None
            },
            LaserState::Armed => {
                if level.is_pressed() {
                    self.state = LaserState::Firing(EMIT_TICK_SIZE);
                    Some(self.fire(target))
                } else {
                    None
                }
            },
            LaserState::Firing(_) => Some(self.fire(target)),
        }
    }

    /// Emits one bullet of a firing laser and counts down the burst.
    fn fire(&mut self, target: Position) -> (r: Bullet)
        requires
            old(self).wf(),
            old(self).state is Firing,
        ensures
            final(self).wf(),
            final(self).team == old(self).team,
            final(self).direction == old(self).direction,
            final(self).state == after_emission(old(self).state->Firing_0 as int),
            r == old(self).beam(target),
    {
        let bullet = self.emit(target);
        if let LaserState::Firing(n) = self.state {
            if n <= 1 {
                self.state = LaserState::Idle;
            } else {
                self.state = LaserState::Firing(n - 1);
            }
        }
        bullet
    }
}

/// What a laser does in one tick: idle it never emits; firing it emits
/// exactly one bullet; armed it emits exactly when the button is pressed.
/// Its indicator is lit after the tick exactly when it is armed after it,
/// so it is lit for the whole armed stretch and at no other tick.
pub proof fn lemma_laser_tick(l: Laser, arm_draw: u32, pressed: bool)
    requires
        l.wf(),
    ensures
        l.state == LaserState::Idle ==> !emits(l.state, pressed),
        l.state is Firing ==> emits(l.state, pressed),
        l.state == LaserState::Armed ==> (emits(l.state, pressed) <==> pressed),
        ({
            let next = Laser { state: next_state(l.state, arm_draw, pressed), ..l };
            &&& next.wf()
            &&& next.indicator_spec() <==> next.state == LaserState::Armed
            &&& next.indicator_spec() ==> (l.state == LaserState::Armed || (l.state
                == LaserState::Idle && arm_draw == 0))
        }),
{
}

/// The lasers of both teams.
#[derive(Clone, Copy, Debug, PartialEq, Eq, Structural)]
pub struct Lasers {
    pub laser1: Laser,
    pub laser2: Laser,
}

impl Lasers {
    pub open spec fn new_spec() -> Lasers {
        Lasers {
            laser1: Laser {
                team: Team::Mono,
                direction: AbsoluteDirection::XPlus,
                state: LaserState::Idle,
            },
            laser2: Laser {
                team: Team::Di,
                direction: AbsoluteDirection::XMinus,
                state: LaserState::Idle,
            },
        }
    }

    /// Both lasers idle: team Mono's firing towards x plus, team Di's
    /// towards x minus.
    pub fn new() -> (r: Lasers)
        ensures
            r == Lasers::new_spec(),
    {
        Lasers {
            laser1: Laser::new(Team::Mono, AbsoluteDirection::XPlus),
            laser2: Laser::new(Team::Di, AbsoluteDirection::XMinus),
        }
    }
}


/// The state after a run of ticks, each given by its arming draw and
/// whether the team's button is pressed.
pub open spec fn run(state: LaserState, ticks: Seq<(u32, bool)>) -> LaserState
    decreases ticks.len(),
{
    if ticks.len() == 0 {
        state
    } else {
        next_state(run(state, ticks.drop_last()), ticks.last().0, ticks.last().1)
    }
}

proof fn lemma_burst_prefix(ticks: Seq<(u32, bool)>, k: int)
    requires
        ticks.len() >= EMIT_TICK_SIZE,
        ticks[0].1,
        1 <= k <= EMIT_TICK_SIZE,
    ensures
        run(LaserState::Armed, ticks.take(k)) == after_emission(EMIT_TICK_SIZE - k + 1),
    decreases k,
{
    assert(ticks.take(k).drop_last() =~= ticks.take(k - 1));
    if k == 1 {
        assert(ticks.take(0).len() == 0);
        assert(ticks.take(1).last() == ticks[0]);
    } else {
        lemma_burst_prefix(ticks, k - 1);
        assert(ticks.take(k).last() == ticks[k - 1]);
    }
}

/// Once an armed laser's button is pressed it emits on that tick and on
/// each of the following ticks, `EMIT_TICK_SIZE` bullets in all, whatever
/// the draws and the button do meanwhile; its indicator stays dark
/// throughout, and it is idle after the last bullet.
pub proof fn lemma_laser_burst(ticks: Seq<(u32, bool)>)
    requires
        ticks.len() >= EMIT_TICK_SIZE,
        ticks[0].1,
    ensures
        forall|k: int|
            0 <= k < EMIT_TICK_SIZE ==> emits(
                #[trigger] run(LaserState::Armed, ticks.take(k)),
                ticks[k].1,
            ),
        forall|k: int|
            1 <= k < EMIT_TICK_SIZE ==> #[trigger] run(LaserState::Armed, ticks.take(k))
                == LaserState::Firing((EMIT_TICK_SIZE - k) as u32),
        run(LaserState::Armed, ticks.take(EMIT_TICK_SIZE as int)) == LaserState::Idle,
{
    assert forall|k: int| 0 <= k < EMIT_TICK_SIZE implies emits(
        #[trigger] run(LaserState::Armed, ticks.take(k)),
        ticks[k].1,
    ) by {
        if k == 0 {
            assert(ticks.take(0).len() == 0);
        } else {
            lemma_burst_prefix(ticks, k);
        }
    }
    assert forall|k: int| 1 <= k < EMIT_TICK_SIZE implies #[trigger] run(
        LaserState::Armed,
        ticks.take(k),
    ) == LaserState::Firing((EMIT_TICK_SIZE - k) as u32) by {
        lemma_burst_prefix(ticks, k);
    }
    lemma_burst_prefix(ticks, EMIT_TICK_SIZE as int);
}

} // verus!
