//! The actors of a duel: players, which move within the display, and
//! bullets, which travel in a straight line until they hit something.

use crate::geometry::{
    is_hit, on_display, within_hit, AbsoluteDirection, Position, RelativeDirections, Team,
    DISPLAY_SIZE_X, DISPLAY_SIZE_Y,
};
use crate::input::{any_bound, any_key_bound, Inputs, Key, BUTTON_COUNT};
use crate::render::DrawCommand;
use vstd::prelude::*;

verus! {

/// Units a player moves per tick on each requested axis, before the forward
/// axis is doubled.
pub const PLAYER_SPEED: i32 = 1;

/// Units a bullet travels per tick.
pub const BULLET_SPEED: i32 = 1;

/// A player facing `XPlus` only moves forward while its x stays below this.
pub const PLUS_FRONT_LIMIT: i32 = 50;

/// A player facing `XMinus` only moves forward while its x stays above this.
pub const MINUS_FRONT_LIMIT: i32 = 78;

/// Side of the square drawn for a player.
pub const PLAYER_SIZE: u32 = 7;

/// Largest magnitude of a movement delta handled by `step_coord`.
const MAX_DELTA: i64 = 0x4_0000_0000;

/// Speed along one axis, from the two opposite requests on it.
pub open spec fn axis_speed(plus: bool, minus: bool) -> int {
    if plus && !minus {
        PLAYER_SPEED as int
    } else if !plus && minus {
        -PLAYER_SPEED
    } else {
        0
    }
}

/// A coordinate moved by `delta` when the result stays within `0..=max`,
/// and left where it is otherwise.
pub open spec fn step_coord_spec(pos: int, delta: int, max: int) -> int {
    if 0 <= pos + delta <= max {
        pos + delta
    } else {
        pos
    }
}

/// World deltas (before the forward axis is doubled) of a relative move by
/// `forward` and `left`, for an actor at `x` facing `direction`.
pub open spec fn relative_delta(
    direction: AbsoluteDirection,
    x: int,
    forward: int,
    left: int,
) -> (int, int) {
    match direction {
        AbsoluteDirection::XPlus => (
            if x + forward < PLUS_FRONT_LIMIT {
                forward
            } else {
                0
            },
            -left,
        ),
        AbsoluteDirection::XMinus => (
            if x - forward > MINUS_FRONT_LIMIT {
                -forward
            } else {
                0
            },
            left,
        ),
        AbsoluteDirection::YPlus => (left, -forward),
        AbsoluteDirection::YMinus => (-left, forward),
    }
}

fn step_coord(pos: i32, delta: i64, max: i32) -> (r: i32)
    requires
        0 <= max,
        -MAX_DELTA <= delta <= MAX_DELTA,
    ensures
        r == step_coord_spec(pos as int, delta as int, max as int),
{
    let moved = pos as i64 + delta;
    if 0 <= moved && moved <= max as i64 {
        moved as i32
    } else {
        pos
    }
}

fn axis_speed_of(plus: bool, minus: bool) -> (r: i32)
    ensures
        r == axis_speed(plus, minus),
{
    if plus && !minus {
        PLAYER_SPEED
    } else if !plus && minus {
        -PLAYER_SPEED
    } else {
        0
    }
}

/// A player: moves along its axes on key input, and is hit by the
/// opponent's bullets.
pub struct Player {
    pub x: i32,
    pub y: i32,
    pub direction: AbsoluteDirection,
    pub team: Team,
    pub forward_keys: Vec<Key>,
    pub backward_keys: Vec<Key>,
    pub left_keys: Vec<Key>,
    pub right_keys: Vec<Key>,
    pub shoot_button_idx: usize,
}

impl Player {
    /// Everything but the position is equal.
    pub open spec fn same_setup(self, other: Player) -> bool {
        &&& self.direction == other.direction
        &&& self.team == other.team
        &&& self.forward_keys@ == other.forward_keys@
        &&& self.backward_keys@ == other.backward_keys@
        &&& self.left_keys@ == other.left_keys@
        &&& self.right_keys@ == other.right_keys@
        &&& self.shoot_button_idx == other.shoot_button_idx
    }

    pub open spec fn position_spec(self) -> Position {
        Position { x: self.x, y: self.y }
    }

    /// Position after `move_by(dx, dy)`.
    pub open spec fn moved_by(self, dx: int, dy: int) -> (int, int) {
        (
            step_coord_spec(self.x as int, dx, DISPLAY_SIZE_X as int),
            step_coord_spec(self.y as int, dy, DISPLAY_SIZE_Y as int),
        )
    }

    /// Position after `move_relative(forward, left)`: the forward axis of
    /// the world delta is doubled.
    pub open spec fn moved_relative(self, forward: int, left: int) -> (int, int) {
        let d = relative_delta(self.direction, self.x as int, forward, left);
        self.moved_by(2 * d.0, d.1)
    }

    /// The relative directions requested by the keys in `held`.
    pub open spec fn requested(self, held: Seq<Key>) -> RelativeDirections {
        RelativeDirections {
            forward: any_bound(held, self.forward_keys@),
            backward: any_bound(held, self.backward_keys@),
            left: any_bound(held, self.left_keys@),
            right: any_bound(held, self.right_keys@),
        }
    }

    /// Position after a tick in which the keys in `held` are down.
    pub open spec fn ticked(self, held: Seq<Key>) -> (int, int) {
        let d = self.requested(held);
        self.moved_relative(axis_speed(d.forward, d.backward), axis_speed(d.left, d.right))
    }

    pub fn new(
        x: i32,
        y: i32,
        direction: AbsoluteDirection,
        team: Team,
        forward_keys: Vec<Key>,
        backward_keys: Vec<Key>,
        left_keys: Vec<Key>,
        right_keys: Vec<Key>,
        shoot_button_idx: usize,
    ) -> (r: Player)
        requires
            shoot_button_idx < BUTTON_COUNT,
        ensures
            r.x == x,
            r.y == y,
            r.direction == direction,
            r.team == team,
            r.forward_keys@ == forward_keys@,
            r.backward_keys@ == backward_keys@,
            r.left_keys@ == left_keys@,
            r.right_keys@ == right_keys@,
            r.shoot_button_idx == shoot_button_idx,
    {
        Player {
            x,
            y,
            direction,
            team,
            forward_keys,
            backward_keys,
            left_keys,
            right_keys,
            shoot_button_idx,
        }
    }

    /// Moves by the held keys: forward and backward (and left and right)
    /// cancel out, and a move that would leave the display is dropped per
    /// axis.
    pub fn tick(&mut self, inputs: &Inputs)
        ensures
            final(self).same_setup(*old(self)),
            (final(self).x as int, final(self).y as int) == old(self).ticked(inputs.keycodes@),
    {
        let mut directions = RelativeDirections::new();
        directions.forward = any_key_bound(&inputs.keycodes, &self.forward_keys);
        directions.backward = any_key_bound(&inputs.keycodes, &self.backward_keys);
        directions.left = any_key_bound(&inputs.keycodes, &self.left_keys);
        directions.right = any_key_bound(&inputs.keycodes, &self.right_keys);
        let forward = axis_speed_of(directions.forward, directions.backward);
        let left = axis_speed_of(directions.left, directions.right);
        self.move_relative(forward, left);
    }

    /// Moves `forward` along the facing direction (twice as far) and `left`
    /// across it; a player never crosses its front limit.
    pub fn move_relative(&mut self, forward: i32, left: i32)
        ensures
            final(self).same_setup(*old(self)),
            (final(self).x as int, final(self).y as int) == old(self).moved_relative(
                forward as int,
                left as int,
            ),
    {
        let f = forward as i64;
        let l = left as i64;
        let x = self.x as i64;
        let (dx, dy): (i64, i64) = match self.direction {
            AbsoluteDirection::XPlus => (
                if x + f < PLUS_FRONT_LIMIT as i64 {
                    f
                } else {
                    0
                },
                -l,
            ),
            AbsoluteDirection::XMinus => (
                if x - f > MINUS_FRONT_LIMIT as i64 {
                    -f
                } else {
                    0
                },
                l,
            ),
            AbsoluteDirection::YPlus => (l, -f),
            AbsoluteDirection::YMinus => (-l, f),
        };
        self.x = step_coord(self.x, dx * 2, DISPLAY_SIZE_X);
        self.y = step_coord(self.y, dy, DISPLAY_SIZE_Y);
    }

    /// Moves by `(dx, dy)`; each axis whose move would leave the display is
    /// left unchanged.
    pub fn move_by(&mut self, dx: i32, dy: i32)
        ensures
            final(self).same_setup(*old(self)),
            (final(self).x as int, final(self).y as int) == old(self).moved_by(
                dx as int,
                dy as int,
            ),
    {
        self.x = step_coord(self.x, dx as i64, DISPLAY_SIZE_X);
        self.y = step_coord(self.y, dy as i64, DISPLAY_SIZE_Y);
    }

    /// Places the player at `(x, y)`.
    pub fn move_to(&mut self, x: i32, y: i32)
        ensures
            final(self).same_setup(*old(self)),
            final(self).x == x,
            final(self).y == y,
    {
        self.x = x;
        self.y = y;
    }

    pub fn get_position(&self) -> (r: Position)
        ensures
            r == self.position_spec(),
    {
        Position::new(self.x, self.y)
    }

    pub fn get_hitbox_position(&self) -> (r: Position)
        ensures
            r == self.position_spec(),
    {
        Position::new(self.x, self.y)
    }

    pub open spec fn drawable(self) -> bool {
        self.x >= i32::MIN + 3 && self.y >= i32::MIN + 3
    }

    /// A filled square centred on the player.
    pub fn draw(&self) -> (r: DrawCommand)
        requires
            self.drawable(),
        ensures
            r == (DrawCommand::FilledRect {
                top_left: Position { x: (self.x - 3) as i32, y: (self.y - 3) as i32 },
                width: PLAYER_SIZE,
                height: PLAYER_SIZE,
            }),
    {
        DrawCommand::FilledRect {
            top_left: Position::new(self.x - 3, self.y - 3),
            width: PLAYER_SIZE,
            height: PLAYER_SIZE,
        }
    }
}

/// Movement keeps a player on the display: from any position on it, in any
/// direction and for any keys held, a tick ends on the display.
pub proof fn lemma_tick_stays_on_display(p: Player, held: Seq<Key>)
    requires
        on_display(p.x as int, p.y as int),
    ensures
        on_display(p.ticked(held).0, p.ticked(held).1),
{
}

/// The same holds of every relative and absolute move.
pub proof fn lemma_moves_stay_on_display(p: Player, forward: int, left: int, dx: int, dy: int)
    requires
        on_display(p.x as int, p.y as int),
    ensures
        on_display(p.moved_relative(forward, left).0, p.moved_relative(forward, left).1),
        on_display(p.moved_by(dx, dy).0, p.moved_by(dx, dy).1),
{
}

/// A bullet: travels one unit per tick in its direction until it is
/// disabled by a collision or leaves the tracked region.
#[derive(Clone, Copy, Debug, PartialEq, Eq, Structural)]
pub struct Bullet {
    pub x: i32,
    pub y: i32,
    pub direction: AbsoluteDirection,
    pub team: Team,
    pub active: bool,
}

impl Bullet {
    pub open spec fn position_spec(self) -> Position {
        Position { x: self.x, y: self.y }
    }

    /// Whether one tick of travel stays within `i32`.
    pub open spec fn can_advance(self) -> bool {
        i32::MIN < self.x < i32::MAX && i32::MIN < self.y < i32::MAX
    }

    /// The bullet after one tick of travel.
    pub open spec fn advanced(self) -> Bullet {
        Bullet {
            x: (self.x + self.direction.step_x() * BULLET_SPEED) as i32,
            y: (self.y + self.direction.step_y() * BULLET_SPEED) as i32,
            ..self
        }
    }

    /// The bullet taken out of play.
    pub open spec fn disabled(self) -> Bullet {
        Bullet { active: false, ..self }
    }

    /// A live bullet at `(x, y)`.
    pub fn new(x: i32, y: i32, direction: AbsoluteDirection, team: Team) -> (r: Bullet)
        ensures
            r == (Bullet { x, y, direction, team, active: true }),
    {
        Bullet { x, y, direction, team, active: true }
    }

    /// Travels one tick along its direction.
    pub fn tick(&mut self)
        requires
            old(self).can_advance(),
        ensures
            *final(self) == old(self).advanced(),
    {
        match self.direction {
            AbsoluteDirection::XPlus => self.transfer(BULLET_SPEED, 0),
            AbsoluteDirection::XMinus => self.transfer(-BULLET_SPEED, 0),
            AbsoluteDirection::YPlus => self.transfer(0, BULLET_SPEED),
            AbsoluteDirection::YMinus => self.transfer(0, -BULLET_SPEED),
        }
    }

    /// Shifts the bullet by `(x, y)`.
    pub fn transfer(&mut self, x: i32, y: i32)
        requires
            i32::MIN <= old(self).x + x <= i32::MAX,
            i32::MIN <= old(self).y + y <= i32::MAX,
        ensures
            *final(self) == (Bullet { x: (old(self).x + x) as i32, y: (old(self).y + y) as i32, ..*old(self) }),
    {
        self.x = self.x + x;
        self.y = self.y + y;
    }

    /// Shifts the bullet by `(dx, dy)`.
    pub fn move_by(&mut self, dx: i32, dy: i32)
        requires
            i32::MIN <= old(self).x + dx <= i32::MAX,
            i32::MIN <= old(self).y + dy <= i32::MAX,
        ensures
            *final(self) == (Bullet { x: (old(self).x + dx) as i32, y: (old(self).y + dy) as i32, ..*old(self) }),
    {
        self.transfer(dx, dy);
    }

    /// Places the bullet at `(x, y)`.
    pub fn move_to(&mut self, x: i32, y: i32)
        ensures
            *final(self) == (Bullet { x, y, ..*old(self) }),
    {
        self.x = x;
        self.y = y;
    }

    /// Takes the bullet out of play.
    pub fn disable(&mut self)
        ensures
            *final(self) == old(self).disabled(),
    {
        self.active = false;
    }

    pub fn is_active(&self) -> (r: bool)
        ensures
            r == self.active,
    {
        self.active
    }

    pub fn get_position(&self) -> (r: Position)
        ensures
            r == self.position_spec(),
    {
        Position::new(self.x, self.y)
    }

    pub fn get_hitbox_position(&self) -> (r: Position)
        ensures
            r == self.position_spec(),
    {
        Position::new(self.x, self.y)
    }

    pub open spec fn drawable(self) -> bool {
        i32::MIN + 2 <= self.x <= i32::MAX - 2 && i32::MIN + 2 <= self.y <= i32::MAX - 2
    }

    /// Corners of the arrowhead drawn for the bullet: the tip two units
    /// ahead, the base two units behind and one unit to each side.
    pub open spec fn outline(self) -> (Position, Position, Position) {
        let (x, y) = (self.x as int, self.y as int);
        let p = |a: int, b: int| Position { x: a as i32, y: b as i32 };
        match self.direction {
            AbsoluteDirection::XPlus => (p(x + 2, y), p(x - 2, y + 1), p(x - 2, y - 1)),
            AbsoluteDirection::XMinus => (p(x - 2, y), p(x + 2, y + 1), p(x + 2, y - 1)),
            AbsoluteDirection::YPlus => (p(x, y + 2), p(x + 1, y - 2), p(x - 1, y - 2)),
            AbsoluteDirection::YMinus => (p(x, y - 2), p(x + 1, y + 2), p(x - 1, y + 2)),
        }
    }

    /// A filled arrowhead pointing along the bullet's direction.
    pub fn draw(&self) -> (r: DrawCommand)
        requires
            self.drawable(),
        ensures
            r == (DrawCommand::FilledTriangle {
                a: self.outline().0,
                b: self.outline().1,
                c: self.outline().2,
            }),
    {
        let (x, y) = (self.x, self.y);
        let (a, b, c) = match self.direction {
            AbsoluteDirection::XPlus => (
                Position::new(x + 2, y),
                Position::new(x - 2, y + 1),
                Position::new(x - 2, y - 1),
            ),
            AbsoluteDirection::XMinus => (
                Position::new(x - 2, y),
                Position::new(x + 2, y + 1),
                Position::new(x + 2, y - 1),
            ),
            AbsoluteDirection::YPlus => (
                Position::new(x, y + 2),
                Position::new(x + 1, y - 2),
                Position::new(x - 1, y - 2),
            ),
            AbsoluteDirection::YMinus => (
                Position::new(x, y - 2),
                Position::new(x + 1, y + 2),
                Position::new(x - 1, y + 2),
            ),
        };
        DrawCommand::FilledTriangle { a, b, c }
    }
}

/// Any actor of a duel.
pub enum ObjectEnum {
    Player(Player),
    Bullet(Bullet),
}

impl ObjectEnum {
    pub open spec fn team_spec(self) -> Team {
        match self {
            ObjectEnum::Player(o) => o.team,
            ObjectEnum::Bullet(o) => o.team,
        }
    }

    pub open spec fn position_spec(self) -> Position {
        match self {
            ObjectEnum::Player(o) => o.position_spec(),
            ObjectEnum::Bullet(o) => o.position_spec(),
        }
    }

    pub open spec fn is_hittable_spec(self) -> bool {
        match self {
            ObjectEnum::Player(_) => true,
            ObjectEnum::Bullet(o) => o.active,
        }
    }

    /// Players are always hittable, bullets while active.
    pub fn is_hittable(&self) -> (r: bool)
        ensures
            r == self.is_hittable_spec(),
    {
        match self {
            ObjectEnum::Player(_) => true,
            ObjectEnum::Bullet(o) => o.active,
        }
    }

    pub fn get_team(&self) -> (r: Team)
        ensures
            r == self.team_spec(),
    {
        match self {
            ObjectEnum::Player(o) => o.team,
            ObjectEnum::Bullet(o) => o.team,
        }
    }

    pub fn get_hitbox_position(&self) -> (r: Position)
        ensures
            r == self.position_spec(),
    {
        match self {
            ObjectEnum::Player(o) => o.get_hitbox_position(),
            ObjectEnum::Bullet(o) => o.get_hitbox_position(),
        }
    }

    /// Whether two hittable actors of opposite teams are within the hit
    /// distance.
    pub fn hits(&self, other: &ObjectEnum) -> (r: bool)
        ensures
            r == (self.is_hittable_spec() && other.is_hittable_spec() && self.team_spec()
                != other.team_spec() && within_hit(self.position_spec(), other.position_spec())),
    {
        self.is_hittable() && other.is_hittable() && self.get_team() != other.get_team() && is_hit(
            self.get_hitbox_position(),
            other.get_hitbox_position(),
        )
    }

    pub open spec fn can_tick(self) -> bool {
        match self {
            ObjectEnum::Player(_) => true,
            ObjectEnum::Bullet(o) => o.can_advance(),
        }
    }

    /// Advances the actor by one tick: a player moves by the held keys, a
    /// bullet travels.
    pub fn tick(&mut self, inputs: &Inputs)
        requires
            old(self).can_tick(),
        ensures
            match (*old(self), *final(self)) {
                (ObjectEnum::Player(p), ObjectEnum::Player(q)) => q.same_setup(p) && (
                q.x as int,
                q.y as int,
                ) == p.ticked(inputs.keycodes@),
                (ObjectEnum::Bullet(b), ObjectEnum::Bullet(c)) => c == b.advanced(),
                _ => false,
            },
    {
        match self {
            ObjectEnum::Player(o) => o.tick(inputs),
            ObjectEnum::Bullet(o) => o.tick(),
        }
    }

    pub open spec fn drawable(self) -> bool {
        match self {
            ObjectEnum::Player(o) => o.drawable(),
            ObjectEnum::Bullet(o) => o.drawable(),
        }
    }

    pub fn draw(&self) -> (r: DrawCommand)
        requires
            self.drawable(),
        ensures
            match *self {
                ObjectEnum::Player(o) => r == (DrawCommand::FilledRect {
                    top_left: Position { x: (o.x - 3) as i32, y: (o.y - 3) as i32 },
                    width: PLAYER_SIZE,
                    height: PLAYER_SIZE,
                }),
                ObjectEnum::Bullet(o) => r == (DrawCommand::FilledTriangle {
                    a: o.outline().0,
                    b: o.outline().1,
                    c: o.outline().2,
                }),
            },
    {
        match self {
            ObjectEnum::Player(o) => o.draw(),
            ObjectEnum::Bullet(o) => o.draw(),
        }
    }
}

/// The two players of a duel.
pub struct Players {
    pub player1: Player,
    pub player2: Player,
}

/// Start x of the player facing `XPlus`; the other starts mirrored.
pub const PLAYER_START_X: i32 = 10;

/// Start y of both players.
pub const PLAYER_START_Y: i32 = 32;

impl Players {
    /// Team Mono's player on the left facing right, bound to F, D, R, C and
    /// button 0; team Di's player mirrored on the right, bound to J, K, M, I
    /// and button 1.
    pub fn new() -> (r: Players)
        ensures
            r.player1.x == PLAYER_START_X,
            r.player1.y == PLAYER_START_Y,
            r.player1.direction == AbsoluteDirection::XPlus,
            r.player1.team == Team::Mono,
            r.player1.forward_keys@ == seq![Key::F],
            r.player1.backward_keys@ == seq![Key::D],
            r.player1.left_keys@ == seq![Key::R],
            r.player1.right_keys@ == seq![Key::C],
            r.player1.shoot_button_idx == 0,
            r.player2.x == DISPLAY_SIZE_X - PLAYER_START_X,
            r.player2.y == PLAYER_START_Y,
            r.player2.direction == AbsoluteDirection::XMinus,
            r.player2.team == Team::Di,
            r.player2.forward_keys@ == seq![Key::J],
            r.player2.backward_keys@ == seq![Key::K],
            r.player2.left_keys@ == seq![Key::M],
            r.player2.right_keys@ == seq![Key::I],
            r.player2.shoot_button_idx == 1,
    {
        let player1 = Player::new(
            PLAYER_START_X,
            PLAYER_START_Y,
            AbsoluteDirection::XPlus,
            Team::Mono,
            vec![Key::F],
            vec![Key::D],
            vec![Key::R],
            vec![Key::C],
            0,
        );
        let player2 = Player::new(
            DISPLAY_SIZE_X - PLAYER_START_X,
            PLAYER_START_Y,
            AbsoluteDirection::XMinus,
            Team::Di,
            vec![Key::J],
            vec![Key::K],
            vec![Key::M],
            vec![Key::I],
            1,
        );
        Players { player1, player2 }
    }
}

} // verus!
