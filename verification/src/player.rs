//! The player: movement integration, aiming and shooting, clamped health,
//! and the stat deltas of the upgrade pickups.

use vstd::prelude::*;

verus! {

use crate::bullet::{Bullet, BulletKind};
use crate::collect::CollectibeKind;
use crate::config::{
    BULLET_DAMAGE, BULLET_SPEED_CAP, COOLDOWN_CAP, HEAL_FROM_MATCH, MAX_FRAME_MS,
    MAX_HEALTH_CAP, PLAYER_ATTACK_SPEED, PLAYER_BULLET_SIZE_CAP, PLAYER_BULLET_SIZE_START,
    PLAYER_BULLET_SPEED_START, PLAYER_DAMAGE_CAP, PLAYER_DAMAGE_MIN, PLAYER_DAMAGE_START,
    PLAYER_HEALTH_START, PLAYER_MELEE_RANGE, PLAYER_MOVE_SPEED_CAP, PLAYER_MOVE_SPEED_START,
    PLAYER_PROJECTILES_CAP, PLAYER_PROJECTILES_START, PLAYER_SIZE, PLAYER_SPREAD_CAP,
    PLAYER_SPREAD_START, PLAYER_START_X, PLAYER_START_Y, POS_LIMIT, UPG_BULLET_SIZE_DELTA,
    UPG_BULLET_SPEED_DELTA, UPG_DAMAGE_DELTA, UPG_MAXHP_DELTA, UPG_MOVE_SPEED_DELTA,
    UPG_SPREAD_DELTA, BULLET_SPAWN_OFFSET, FAN_STEP, TIMER_FLOOR, VEL_DECAY_DEN,
    VEL_DECAY_NUM,
};
use crate::geom::{
    clamp_i64, clamp_spec, lemma_tdiv_bound, norm_x, norm_y, normalize_or_zero, rotate_vec,
    rotate_x, rotate_y, tdiv, tdiv_spec, wrap_angle, wrap_angle_spec, Rect, VEC_SCALE,
};
use crate::input::InputFrame;
use crate::rng::gen_range_i64;

#[derive(Clone, Copy, PartialEq, Eq, Structural, Debug)]
pub struct Player {
    /// Health ceiling, in whole points.
    pub max_health: i64,
    /// Current health, always within `[0, max_health]`.
    pub health: i64,
    /// Side of the player square, milli-pixels.
    pub size: i64,
    /// Corner position, milli-pixels.
    pub x: i64,
    /// Corner position, milli-pixels.
    pub y: i64,
    /// Velocity, milli-pixels per second.
    pub dx: i64,
    /// Velocity, milli-pixels per second.
    pub dy: i64,
    /// Random shot jitter half-range, milli-degrees.
    pub spread: i64,
    /// Bullets per shot.
    pub projectiles: i64,
    /// Delay between shots, milliseconds.
    pub attack_speed: i64,
    /// Movement speed, pixels per second.
    pub move_speed: i64,
    /// Bullet radius, milli-pixels.
    pub bullet_size: i64,
    /// Bullet speed, pixels per second.
    pub bullet_speed: i64,
    /// Damage per bullet against enemy health, milli-points.
    pub damage: i64,
    /// Aim direction, a unit vector at scale `VEC_SCALE`.
    pub shoot_dx: i64,
    /// Aim direction, a unit vector at scale `VEC_SCALE`.
    pub shoot_dy: i64,
    /// Shot cooldown timer, milliseconds.
    pub shoot_t: i64,
    /// Melee timer, milliseconds; the melee attack itself is inert.
    pub melee_t: i64,
    /// Melee radius, milli-pixels.
    pub melee_range: i64,
    /// Health restored by a matching-colour hit, whole points.
    pub heal_from_b: i64,
}

impl Player {
    /// Bounds every frame preserves; `0 <= health <= max_health` is the
    /// health invariant of the whole game.
    pub open spec fn wf(self) -> bool {
        &&& 1 <= self.max_health <= MAX_HEALTH_CAP
        &&& 0 <= self.health <= self.max_health
        &&& 0 <= self.size <= 200_000
        &&& -POS_LIMIT <= self.x <= POS_LIMIT
        &&& -POS_LIMIT <= self.y <= POS_LIMIT
        &&& -2_000_000 <= self.dx <= 2_000_000
        &&& -2_000_000 <= self.dy <= 2_000_000
        &&& 1 <= self.spread <= PLAYER_SPREAD_CAP
        &&& 1 <= self.projectiles <= PLAYER_PROJECTILES_CAP
        &&& 0 <= self.attack_speed <= COOLDOWN_CAP
        &&& 0 <= self.move_speed <= PLAYER_MOVE_SPEED_CAP
        &&& 0 <= self.bullet_size <= PLAYER_BULLET_SIZE_CAP
        &&& 0 <= self.bullet_speed <= BULLET_SPEED_CAP
        &&& PLAYER_DAMAGE_MIN <= self.damage <= PLAYER_DAMAGE_CAP
        &&& -VEC_SCALE <= self.shoot_dx <= VEC_SCALE
        &&& -VEC_SCALE <= self.shoot_dy <= VEC_SCALE
        &&& TIMER_FLOOR <= self.shoot_t <= 2 * COOLDOWN_CAP
        &&& TIMER_FLOOR <= self.melee_t <= 10_000
        &&& 0 <= self.melee_range <= 200_000
        &&& 0 <= self.heal_from_b <= 100
    }

    /// The stats a fresh run starts with.
    pub open spec fn start_spec() -> Player {
        Player {
            max_health: PLAYER_HEALTH_START,
            health: PLAYER_HEALTH_START,
            size: PLAYER_SIZE,
            damage: PLAYER_DAMAGE_START,
            spread: PLAYER_SPREAD_START,
            move_speed: PLAYER_MOVE_SPEED_START,
            projectiles: PLAYER_PROJECTILES_START,
            bullet_size: PLAYER_BULLET_SIZE_START,
            bullet_speed: PLAYER_BULLET_SPEED_START,
            x: PLAYER_START_X,
            y: PLAYER_START_Y,
            dx: 0,
            dy: 0,
            shoot_dx: VEC_SCALE,
            shoot_dy: 0,
            attack_speed: PLAYER_ATTACK_SPEED,
            shoot_t: 0,
            melee_t: 0,
            melee_range: PLAYER_MELEE_RANGE,
            heal_from_b: HEAL_FROM_MATCH,
        }
    }

    /// The square hit box of the player.
    pub open spec fn rect_spec(self) -> Rect {
        Rect { x: self.x, y: self.y, w: self.size, h: self.size }
    }

    /// The square hit box of the player.
    pub fn get_rect(&self) -> (r: Rect)
        ensures
            r == self.rect_spec(),
    {
        Rect { x: self.x, y: self.y, w: self.size, h: self.size }
    }

    /// Restores health, never past the ceiling.
    pub fn heal(&mut self, amount: i64)
        requires
            old(self).wf(),
            0 <= amount <= 1000,
        ensures
            final(self).health == (if old(self).health + amount > old(self).max_health {
                old(self).max_health
            } else {
                (old(self).health + amount) as i64
            }),
            *final(self) == (Player { health: final(self).health, ..*old(self) }),
            final(self).wf(),
    {
        if self.health + amount > self.max_health {
            self.health = self.max_health;
        } else {
            self.health = self.health + amount;
        }
    }

    /// Removes health, never below zero.
    pub fn hurt(&mut self, amount: i64)
        requires
            old(self).wf(),
            0 <= amount <= 1000,
        ensures
            final(self).health == (if old(self).health - amount < 0 {
                0int
            } else {
                old(self).health - amount
            }),
            *final(self) == (Player { health: final(self).health, ..*old(self) }),
            final(self).wf(),
    {
        if self.health - amount < 0 {
            self.health = 0;
        } else {
            self.health = self.health - amount;
        }
    }

    /// The player after one upgrade pickup: each kind shifts its stats by
    /// a fixed amount, saturating at the documented caps and floors.
    pub open spec fn upgraded(self, kind: CollectibeKind) -> Player {
        match kind {
            CollectibeKind::Maxhp => Player {
                max_health: clamp_spec(self.max_health + UPG_MAXHP_DELTA, 1,
                    MAX_HEALTH_CAP as int) as i64,
                ..self
            },
            CollectibeKind::Projectile => Player {
                projectiles: clamp_spec(self.projectiles + 1, 1,
                    PLAYER_PROJECTILES_CAP as int) as i64,
                damage: (if self.damage - UPG_DAMAGE_DELTA <= PLAYER_DAMAGE_MIN {
                    PLAYER_DAMAGE_MIN
                } else {
                    (self.damage - UPG_DAMAGE_DELTA) as i64
                }),
                spread: clamp_spec(self.spread + UPG_SPREAD_DELTA, 1,
                    PLAYER_SPREAD_CAP as int) as i64,
                ..self
            },
            CollectibeKind::Size => Player {
                bullet_size: clamp_spec(self.bullet_size + UPG_BULLET_SIZE_DELTA, 0,
                    PLAYER_BULLET_SIZE_CAP as int) as i64,
                ..self
            },
            CollectibeKind::Speed => Player {
                move_speed: clamp_spec(self.move_speed + UPG_MOVE_SPEED_DELTA, 0,
                    PLAYER_MOVE_SPEED_CAP as int) as i64,
                ..self
            },
            CollectibeKind::Slowdmg => Player {
                damage: clamp_spec(self.damage + UPG_DAMAGE_DELTA, PLAYER_DAMAGE_MIN as int,
                    PLAYER_DAMAGE_CAP as int) as i64,
                bullet_speed: clamp_spec(self.bullet_speed - UPG_BULLET_SPEED_DELTA, 0,
                    BULLET_SPEED_CAP as int) as i64,
                ..self
            },
            _ => self,
        }
    }

    /// Applies one upgrade pickup to the stats.
    pub fn apply_upgrade(&mut self, kind: CollectibeKind)
        requires
            old(self).wf(),
        ensures
            *final(self) == old(self).upgraded(kind),
            final(self).wf(),
            final(self).health == old(self).health,
    {
        match kind {
            CollectibeKind::Maxhp => {
                self.max_health = clamp_i64(self.max_health + UPG_MAXHP_DELTA, 1,
                    MAX_HEALTH_CAP);
            },
            CollectibeKind::Projectile => {
                let new_dmg = self.damage - UPG_DAMAGE_DELTA;
                self.projectiles = clamp_i64(self.projectiles + 1, 1, PLAYER_PROJECTILES_CAP);
                self.damage = if new_dmg <= PLAYER_DAMAGE_MIN { PLAYER_DAMAGE_MIN } else {
                    new_dmg
                };
                self.spread = clamp_i64(self.spread + UPG_SPREAD_DELTA, 1, PLAYER_SPREAD_CAP);
            },
            CollectibeKind::Size => {
                self.bullet_size = clamp_i64(self.bullet_size + UPG_BULLET_SIZE_DELTA, 0,
                    PLAYER_BULLET_SIZE_CAP);
            },
            CollectibeKind::Speed => {
                self.move_speed = clamp_i64(self.move_speed + UPG_MOVE_SPEED_DELTA, 0,
                    PLAYER_MOVE_SPEED_CAP);
            },
            CollectibeKind::Slowdmg => {
                self.damage = clamp_i64(self.damage + UPG_DAMAGE_DELTA, PLAYER_DAMAGE_MIN,
                    PLAYER_DAMAGE_CAP);
                self.bullet_speed = clamp_i64(self.bullet_speed - UPG_BULLET_SPEED_DELTA, 0,
                    BULLET_SPEED_CAP);
            },
            _ => {},
        }
    }
}

impl Default for Player {
    /// The stats a fresh run starts with.
    fn default() -> (p: Player)
        ensures
            p == Player::start_spec(),
            p.wf(),
    {
        Player {
            max_health: PLAYER_HEALTH_START,
            health: PLAYER_HEALTH_START,
            size: PLAYER_SIZE,
            damage: PLAYER_DAMAGE_START,
            spread: PLAYER_SPREAD_START,
            move_speed: PLAYER_MOVE_SPEED_START,
            projectiles: PLAYER_PROJECTILES_START,
            bullet_size: PLAYER_BULLET_SIZE_START,
            bullet_speed: PLAYER_BULLET_SPEED_START,
            x: PLAYER_START_X,
            y: PLAYER_START_Y,
            dx: 0,
            dy: 0,
            shoot_dx: VEC_SCALE,
            shoot_dy: 0,
            attack_speed: PLAYER_ATTACK_SPEED,
            shoot_t: 0,
            melee_t: 0,
            melee_range: PLAYER_MELEE_RANGE,
            heal_from_b: HEAL_FROM_MATCH,
        }
    }
}

/// A bullet as the player fires it: spawned just inside the player
/// square, carrying the player's bullet stats, not yet consumed, and
/// flying along the aim `(aimx, aimy)` turned by some angle within the
/// jitter-plus-fan span and normalised.
pub open spec fn is_player_shot(b: Bullet, p: Player, aimx: int, aimy: int) -> bool {
    &&& b.kind == BulletKind::PlayerBullet
    &&& b.damage == BULLET_DAMAGE
    &&& b.size == p.bullet_size
    &&& b.speed == p.bullet_speed
    &&& b.x == clamp_spec(p.x + BULLET_SPAWN_OFFSET, -POS_LIMIT as int, POS_LIMIT as int)
    &&& b.y == clamp_spec(p.y + BULLET_SPAWN_OFFSET, -POS_LIMIT as int, POS_LIMIT as int)
    &&& !b.hit
    &&& b.wf()
    &&& exists|ang: int| {
        &&& -(p.spread + (p.projectiles - 1) * (FAN_STEP / 2)) <= ang
            <= p.spread + (p.projectiles - 1) * (FAN_STEP / 2)
        &&& b.dx == norm_x(rotate_x(aimx, aimy, #[trigger] wrap_angle_spec(ang)),
            rotate_y(aimx, aimy, wrap_angle_spec(ang)))
        &&& b.dy == norm_y(rotate_x(aimx, aimy, wrap_angle_spec(ang)),
            rotate_y(aimx, aimy, wrap_angle_spec(ang)))
    }
}

/// The raw movement axis from the held keys, scaled to `VEC_SCALE`.
pub open spec fn move_axis_x(input: InputFrame) -> int {
    (if input.move_right { VEC_SCALE as int } else { 0 })
        - (if input.move_left { VEC_SCALE as int } else { 0 })
}

/// The raw movement axis from the held keys, scaled to `VEC_SCALE`.
pub open spec fn move_axis_y(input: InputFrame) -> int {
    (if input.move_down { VEC_SCALE as int } else { 0 })
        - (if input.move_up { VEC_SCALE as int } else { 0 })
}

/// The raw aim axis from the held directional fire keys.
pub open spec fn fire_axis_x(input: InputFrame) -> int {
    (if input.fire_right { VEC_SCALE as int } else { 0 })
        - (if input.fire_left { VEC_SCALE as int } else { 0 })
}

/// The raw aim axis from the held directional fire keys.
pub open spec fn fire_axis_y(input: InputFrame) -> int {
    (if input.fire_down { VEC_SCALE as int } else { 0 })
        - (if input.fire_up { VEC_SCALE as int } else { 0 })
}

/// The aim after one frame: the directional fire keys override it; a
/// nonzero movement direction replaces it; otherwise it persists.
pub open spec fn aim_x_spec(p: Player, input: InputFrame) -> int {
    if input.aiming() {
        norm_x(fire_axis_x(input), fire_axis_y(input))
    } else if move_axis_x(input) != 0 || move_axis_y(input) != 0 {
        norm_x(move_axis_x(input), move_axis_y(input))
    } else {
        p.shoot_dx as int
    }
}

/// The aim after one frame, vertical coordinate.
pub open spec fn aim_y_spec(p: Player, input: InputFrame) -> int {
    if input.aiming() {
        norm_y(fire_axis_x(input), fire_axis_y(input))
    } else if move_axis_x(input) != 0 || move_axis_y(input) != 0 {
        norm_y(move_axis_x(input), move_axis_y(input))
    } else {
        p.shoot_dy as int
    }
}

/// One coordinate after integrating a velocity over the frame, kept
/// inside the position box.
pub open spec fn integrated(pos: int, vel: int, dt: int) -> int {
    clamp_spec(pos + tdiv_spec(vel * dt, VEC_SCALE as int), -POS_LIMIT as int,
        POS_LIMIT as int)
}

/// A velocity after the per-frame exponential decay.
pub open spec fn damped(vel: int) -> int {
    tdiv_spec(vel * VEL_DECAY_NUM, VEL_DECAY_DEN as int)
}

/// The unit direction from a point toward the player, at scale
/// `VEC_SCALE`; zero if the point sits exactly on the player corner.
pub fn dir_to_player(x: i64, y: i64, p: &Player) -> (r: (i64, i64))
    requires
        -POS_LIMIT <= x <= POS_LIMIT,
        -POS_LIMIT <= y <= POS_LIMIT,
        p.wf(),
    ensures
        r.0 == norm_x(p.x - x, p.y - y),
        r.1 == norm_y(p.x - x, p.y - y),
        -VEC_SCALE <= r.0 <= VEC_SCALE,
        -VEC_SCALE <= r.1 <= VEC_SCALE,
{
    normalize_or_zero(p.x - x, p.y - y)
}

/// The distance from a point to the player corner, in whole
/// milli-pixels, rounded down.
pub fn distance_to_player(x: i64, y: i64, p: &Player) -> (r: i64)
    requires
        -POS_LIMIT <= x <= POS_LIMIT,
        -POS_LIMIT <= y <= POS_LIMIT,
        p.wf(),
    ensures
        r == crate::geom::dist_spec(x as int, y as int, p.x as int, p.y as int),
        0 <= r,
{
    crate::geom::dist(x, y, p.x, p.y)
}

/// Emits one fan of bullets from the player: `projectiles` shots, each
/// along the aim turned by a random jitter plus its fan slot, then
/// normalised.
fn fire_fan(p: &Player, bullets: &mut Vec<Bullet>)
    requires
        p.wf(),
    ensures
        final(bullets)@.len() == old(bullets)@.len() + p.projectiles,
        forall|i: int| 0 <= i < old(bullets)@.len()
            ==> final(bullets)@[i] == old(bullets)@[i],
        forall|i: int| old(bullets)@.len() <= i < final(bullets)@.len()
            ==> is_player_shot(#[trigger] final(bullets)@[i], *p, p.shoot_dx as int,
                p.shoot_dy as int),
{
    let ghost len0 = bullets@.len();
    let count = p.projectiles;
    let mut j: i64 = 0;
    while j < count
        invariant
            0 <= j <= count,
            p.wf(),
            count == p.projectiles,
            len0 == old(bullets)@.len(),
            bullets@.len() == len0 + j,
            forall|i: int| 0 <= i < len0 ==> bullets@[i] == old(bullets)@[i],
            forall|i: int| len0 <= i < bullets@.len()
                ==> is_player_shot(#[trigger] bullets@[i], *p, p.shoot_dx as int,
                    p.shoot_dy as int),
        decreases count - j,
    {
        let jitter = gen_range_i64(-p.spread, p.spread);
        let fan = (2 * j - (count - 1)) * (FAN_STEP / 2);
        let angle = wrap_angle(jitter + fan);
        let (rx, ry) = rotate_vec(p.shoot_dx, p.shoot_dy, angle);
        let (bdx, bdy) = normalize_or_zero(rx, ry);
        let bx = clamp_i64(p.x + BULLET_SPAWN_OFFSET, -POS_LIMIT, POS_LIMIT);
        let by = clamp_i64(p.y + BULLET_SPAWN_OFFSET, -POS_LIMIT, POS_LIMIT);
        let b = Bullet::new(BULLET_DAMAGE, bx, by, bdx, bdy, p.bullet_size,
            p.bullet_speed, BulletKind::PlayerBullet);
        proof {
            let ang = jitter + fan;
            assert(-((count - 1) * (FAN_STEP / 2)) <= fan <= (count - 1) * (FAN_STEP / 2))
                by (nonlinear_arith)
                requires
                    0 <= j < count,
                    fan == (2 * j - (count - 1)) * (FAN_STEP / 2),
                    FAN_STEP == 2000;
            assert(-(p.spread + (p.projectiles - 1) * (FAN_STEP / 2)) <= ang
                <= p.spread + (p.projectiles - 1) * (FAN_STEP / 2));
            assert(b.dx == norm_x(rotate_x(p.shoot_dx as int, p.shoot_dy as int,
                wrap_angle_spec(ang)), rotate_y(p.shoot_dx as int, p.shoot_dy as int,
                wrap_angle_spec(ang))));
            assert(is_player_shot(b, *p, p.shoot_dx as int, p.shoot_dy as int));
        }
        bullets.push(b);
        j = j + 1;
    }
}

/// One frame of the player controller: reads the held keys into a
/// velocity, keeps the aim on the last nonzero movement direction unless
/// a directional fire key overrides it, fires a fan of bullets when the
/// cooldown allows, integrates the position and decays the velocity.
/// Returns whether a shot was fired this frame.
#[verifier::rlimit(100)]
pub fn player_update(p: &mut Player, input: &InputFrame, bullets: &mut Vec<Bullet>,
    dt: i64) -> (fired: bool)
    requires
        old(p).wf(),
        0 <= dt <= MAX_FRAME_MS,
    ensures
        final(p).wf(),
        final(p).health == old(p).health,
        final(p).max_health == old(p).max_health,
        final(p).damage == old(p).damage,
        final(p).bullet_size == old(p).bullet_size,
        final(p).bullet_speed == old(p).bullet_speed,
        final(p).projectiles == old(p).projectiles,
        final(p).move_speed == old(p).move_speed,
        final(p).spread == old(p).spread,
        final(p).attack_speed == old(p).attack_speed,
        final(p).size == old(p).size,
        // velocity follows the held keys, position integrates it
        final(p).dx == damped(norm_x(move_axis_x(*input), move_axis_y(*input))
            * old(p).move_speed),
        final(p).dy == damped(norm_y(move_axis_x(*input), move_axis_y(*input))
            * old(p).move_speed),
        final(p).x == integrated(old(p).x as int,
            norm_x(move_axis_x(*input), move_axis_y(*input)) * old(p).move_speed, dt as int),
        final(p).y == integrated(old(p).y as int,
            norm_y(move_axis_x(*input), move_axis_y(*input)) * old(p).move_speed, dt as int),
        // the aim: directional fire overrides, a nonzero movement
        // direction replaces, and otherwise the old aim persists
        final(p).shoot_dx == aim_x_spec(*old(p), *input),
        final(p).shoot_dy == aim_y_spec(*old(p), *input),
        // a shot happens exactly when fire is wanted and the cooldown has run out
        fired == (input.firing() && (if old(p).shoot_t > 0 { old(p).shoot_t - dt } else {
            old(p).shoot_t as int
        }) <= 0),
        // the fired fan: one bullet per projectile, all carrying the stats
        final(bullets)@.len() == old(bullets)@.len() + (if fired {
            old(p).projectiles as int
        } else {
            0int
        }),
        forall|i: int| 0 <= i < old(bullets)@.len()
            ==> final(bullets)@[i] == old(bullets)@[i],
        forall|i: int| old(bullets)@.len() <= i < final(bullets)@.len()
            ==> is_player_shot(#[trigger] final(bullets)@[i], *old(p),
                final(p).shoot_dx as int, final(p).shoot_dy as int),
        fired ==> final(p).shoot_t == (if old(p).shoot_t > 0 { old(p).shoot_t - dt } else {
            old(p).shoot_t as int
        }) + old(p).attack_speed,
{
    let ghost p0 = *p;
    let mut ax: i64 = 0;
    let mut ay: i64 = 0;
    if input.move_left {
        ax = ax - VEC_SCALE;
    }
    if input.move_right {
        ax = ax + VEC_SCALE;
    }
    if input.move_up {
        ay = ay - VEC_SCALE;
    }
    if input.move_down {
        ay = ay + VEC_SCALE;
    }
    assert(ax == move_axis_x(*input) && ay == move_axis_y(*input));
    let (mx, my) = normalize_or_zero(ax, ay);

    proof {
        let nx = norm_x(ax as int, ay as int);
        let ny = norm_y(ax as int, ay as int);
        let spd = old(p).move_speed as int;
        assert(-2_000_000 <= nx * spd <= 2_000_000
            && -2_000_000 <= ny * spd <= 2_000_000) by (nonlinear_arith)
            requires
                -VEC_SCALE <= nx <= VEC_SCALE,
                -VEC_SCALE <= ny <= VEC_SCALE,
                0 <= spd <= PLAYER_MOVE_SPEED_CAP,
                VEC_SCALE == 1000,
                PLAYER_MOVE_SPEED_CAP == 2000;
    }
    p.dx = mx * p.move_speed;
    p.dy = my * p.move_speed;

    if p.shoot_t > 0 {
        p.shoot_t = p.shoot_t - dt;
    }

    // aim: directional fire keys override; otherwise the last nonzero
    // movement direction is kept
    let aiming = input.fire_up || input.fire_down || input.fire_left || input.fire_right;
    if aiming {
        let mut fx: i64 = 0;
        let mut fy: i64 = 0;
        if input.fire_left {
            fx = fx - VEC_SCALE;
        }
        if input.fire_right {
            fx = fx + VEC_SCALE;
        }
        if input.fire_up {
            fy = fy - VEC_SCALE;
        }
        if input.fire_down {
            fy = fy + VEC_SCALE;
        }
        let (sx, sy) = normalize_or_zero(fx, fy);
        p.shoot_dx = sx;
        p.shoot_dy = sy;
    } else if mx != 0 || my != 0 {
        p.shoot_dx = mx;
        p.shoot_dy = my;
    }

    let want_fire = input.fire || aiming;
    let mut fired = false;
    if want_fire && p.shoot_t <= 0 {
        fired = true;
        let ghost pf = *p;
        fire_fan(p, bullets);
        proof {
            // the fan was fired with today's stats and aim, which are
            // those of the frame's start and end respectively
            assert forall|i: int| old(bullets)@.len() <= i < bullets@.len() implies
                is_player_shot(#[trigger] bullets@[i], p0, pf.shoot_dx as int,
                    pf.shoot_dy as int) by {
                assert(is_player_shot(bullets@[i], pf, pf.shoot_dx as int,
                    pf.shoot_dy as int));
            }
        }
        p.shoot_t = p.shoot_t + p.attack_speed;
    }

    // the melee swing is inert; only its timer runs down
    if p.melee_t >= 0 {
        p.melee_t = p.melee_t - dt;
    }

    proof {
        let vx = p.dx as int;
        let vy = p.dy as int;
        let delta = dt as int;
        assert(-(200_000 * VEC_SCALE) <= vx * delta <= 200_000 * VEC_SCALE
            && -(200_000 * VEC_SCALE) <= vy * delta <= 200_000 * VEC_SCALE)
            by (nonlinear_arith)
            requires
                -2_000_000 <= vx <= 2_000_000,
                -2_000_000 <= vy <= 2_000_000,
                0 <= delta <= MAX_FRAME_MS,
                VEC_SCALE == 1000,
                MAX_FRAME_MS == 100;
        lemma_tdiv_bound(vx * delta, VEC_SCALE as int, 200_000);
        lemma_tdiv_bound(vy * delta, VEC_SCALE as int, 200_000);
        assert(-(1_700_000 * VEL_DECAY_DEN) <= vx * VEL_DECAY_NUM <= 1_700_000 * VEL_DECAY_DEN
            && -(1_700_000 * VEL_DECAY_DEN) <= vy * VEL_DECAY_NUM <= 1_700_000 * VEL_DECAY_DEN)
            by (nonlinear_arith)
            requires
                -2_000_000 <= vx <= 2_000_000,
                -2_000_000 <= vy <= 2_000_000,
                VEL_DECAY_NUM == 85,
                VEL_DECAY_DEN == 100;
        lemma_tdiv_bound(vx * VEL_DECAY_NUM, VEL_DECAY_DEN as int, 1_700_000);
        lemma_tdiv_bound(vy * VEL_DECAY_NUM, VEL_DECAY_DEN as int, 1_700_000);
    }
    let step_x = tdiv(p.dx * dt, VEC_SCALE);
    let step_y = tdiv(p.dy * dt, VEC_SCALE);
    p.x = clamp_i64(p.x + step_x, -POS_LIMIT, POS_LIMIT);
    p.y = clamp_i64(p.y + step_y, -POS_LIMIT, POS_LIMIT);

    p.dx = tdiv(p.dx * VEL_DECAY_NUM, VEL_DECAY_DEN);
    p.dy = tdiv(p.dy * VEL_DECAY_NUM, VEL_DECAY_DEN);

    fired
}

} // verus!
