//! Enemies and pending spawns.  An enemy is one of three kinds: a chaser,
//! a chaser that stops to shoot while the colour state is against it, and
//! a stationary tower that emits hazard rings.  A pending spawn counts
//! down on the floor before turning into a live enemy.

use vstd::prelude::*;

verus! {

use crate::bullet::{Bullet, BulletKind};
use crate::color::ColorState;
use crate::config::{
    BULLET_DAMAGE, CONTACT_DAMAGE_CAP, COOLDOWN_CAP, ENEMY_BULLET_SIZE, ENEMY_BULLET_SPEED,
    ENEMY_HEALTH_CAP, ENEMY_HEALTH_FLOOR, ENEMY_SCORE_CAP, ENEMY_SIZE_CAP, FOLLOW_SHOOT_SPEED,
    FOLLOW_SPEED, HAZARD_RADIUS_START, MAX_FRAME_MS, POS_LIMIT, SPAWN_COUNTDOWN, TIMER_FLOOR,
};
use crate::geom::{
    clamp_i64, clamp_spec, lemma_tdiv_bound, norm_x, norm_y, normalize_or_zero, rect_collide,
    rects_overlap, tdiv, tdiv_spec, Rect, VEC_SCALE,
};
use crate::hazard::CircleAttack;
use crate::player::Player;

#[derive(Clone, Copy, PartialEq, Eq, Structural, Debug)]
pub enum EnemyType {
    /// Chases the player; its touch heals or hurts by colour affinity.
    FollowEnemy,
    /// Chases while the state is `Primary`, stands and shoots otherwise.
    FollowShootEnemy,
    /// Stands still and emits hazard rings on a timer.
    StaticCircleAttack,
}

#[derive(Clone, Copy, PartialEq, Eq, Structural, Debug)]
pub struct Enemy {
    /// Health in milli-points; at or below zero the enemy is dead.
    pub health: i64,
    /// Corner position, milli-pixels.
    pub x: i64,
    /// Corner position, milli-pixels.
    pub y: i64,
    /// Side of the square, milli-pixels.
    pub size: i64,
    /// Score granted on death.
    pub score: i64,
    /// Colour affinity of a chaser's touch.
    pub state: ColorState,
    pub kind: EnemyType,
    /// Cooldown length between attacks, milliseconds.
    pub attack_speed: i64,
    /// Whether touching the player has any effect.
    pub can_collide: bool,
    /// Damage of a touch, whole points, for non-chaser kinds.
    pub contact_damage: i64,
    /// Time until the next attack, milliseconds.
    pub attack_t: i64,
}

impl Enemy {
    /// Bounds every frame preserves.
    pub open spec fn wf(self) -> bool {
        &&& ENEMY_HEALTH_FLOOR <= self.health <= ENEMY_HEALTH_CAP
        &&& -POS_LIMIT <= self.x <= POS_LIMIT
        &&& -POS_LIMIT <= self.y <= POS_LIMIT
        &&& 0 <= self.size <= ENEMY_SIZE_CAP
        &&& 0 <= self.score <= ENEMY_SCORE_CAP
        &&& 0 <= self.attack_speed <= COOLDOWN_CAP
        &&& 0 <= self.contact_damage <= CONTACT_DAMAGE_CAP
        &&& TIMER_FLOOR <= self.attack_t <= COOLDOWN_CAP
    }

    /// The stats an unspecified enemy defaults to.
    pub open spec fn default_spec() -> Enemy {
        Enemy {
            health: 10_000,
            x: 50_000,
            y: 50_000,
            size: 40_000,
            score: 10,
            can_collide: false,
            state: ColorState::Primary,
            kind: EnemyType::FollowEnemy,
            attack_speed: 0,
            attack_t: 0,
            contact_damage: 2,
        }
    }

    /// The square hit box.
    pub open spec fn rect_spec(self) -> Rect {
        Rect { x: self.x, y: self.y, w: self.size, h: self.size }
    }

    /// The square hit box.
    pub fn get_rect(&self) -> (r: Rect)
        ensures
            r == self.rect_spec(),
    {
        Rect { x: self.x, y: self.y, w: self.size, h: self.size }
    }

    /// Removes health, saturating at the floor so that the arithmetic
    /// stays in range however many bullets land in one frame.
    pub fn take_damage(&mut self, dmg: i64)
        requires
            old(self).wf(),
            0 <= dmg <= 1_000_000,
        ensures
            final(self).health == (if old(self).health - dmg < ENEMY_HEALTH_FLOOR {
                ENEMY_HEALTH_FLOOR as int
            } else {
                old(self).health - dmg
            }),
            *final(self) == (Enemy { health: final(self).health, ..*old(self) }),
            final(self).wf(),
    {
        if self.health - dmg < ENEMY_HEALTH_FLOOR {
            self.health = ENEMY_HEALTH_FLOOR;
        } else {
            self.health = self.health - dmg;
        }
    }
}

impl Default for Enemy {
    /// The stats an unspecified enemy defaults to.
    fn default() -> (e: Enemy)
        ensures
            e == Enemy::default_spec(),
            e.wf(),
    {
        Enemy {
            health: 10_000,
            x: 50_000,
            y: 50_000,
            size: 40_000,
            score: 10,
            can_collide: false,
            state: ColorState::Primary,
            kind: EnemyType::FollowEnemy,
            attack_speed: 0,
            attack_t: 0,
            contact_damage: 2,
        }
    }
}

/// How many enemy templates the spawner draws from.
pub const ENEMY_TEMPLATE_COUNT: i64 = 4;

/// The template table: a shooter, a ring tower, and one chaser of each
/// colour affinity.
pub open spec fn template_spec(i: int) -> Enemy {
    if i == 0 {
        Enemy {
            health: 5000,
            size: 40_000,
            score: 15,
            kind: EnemyType::FollowShootEnemy,
            attack_speed: 1000,
            can_collide: true,
            ..Enemy::default_spec()
        }
    } else if i == 1 {
        Enemy {
            health: 10_000,
            size: 40_000,
            score: 30,
            kind: EnemyType::StaticCircleAttack,
            can_collide: true,
            contact_damage: 3,
            attack_t: 5000,
            attack_speed: 5000,
            ..Enemy::default_spec()
        }
    } else if i == 2 {
        Enemy {
            state: ColorState::Primary,
            health: 2000,
            size: 20_000,
            score: 5,
            kind: EnemyType::FollowEnemy,
            can_collide: true,
            ..Enemy::default_spec()
        }
    } else {
        Enemy {
            state: ColorState::Secondary,
            health: 2000,
            size: 20_000,
            score: 5,
            kind: EnemyType::FollowEnemy,
            can_collide: true,
            ..Enemy::default_spec()
        }
    }
}

/// Picks an enemy template by index.
pub fn template(i: i64) -> (e: Enemy)
    requires
        0 <= i < ENEMY_TEMPLATE_COUNT,
    ensures
        e == template_spec(i as int),
        e.wf(),
{
    if i == 0 {
        Enemy {
            health: 5000,
            size: 40_000,
            score: 15,
            kind: EnemyType::FollowShootEnemy,
            attack_speed: 1000,
            can_collide: true,
            ..Enemy::default()
        }
    } else if i == 1 {
        Enemy {
            health: 10_000,
            size: 40_000,
            score: 30,
            kind: EnemyType::StaticCircleAttack,
            can_collide: true,
            contact_damage: 3,
            attack_t: 5000,
            attack_speed: 5000,
            ..Enemy::default()
        }
    } else if i == 2 {
        Enemy {
            state: ColorState::Primary,
            health: 2000,
            size: 20_000,
            score: 5,
            kind: EnemyType::FollowEnemy,
            can_collide: true,
            ..Enemy::default()
        }
    } else {
        Enemy {
            state: ColorState::Secondary,
            health: 2000,
            size: 20_000,
            score: 5,
            kind: EnemyType::FollowEnemy,
            can_collide: true,
            ..Enemy::default()
        }
    }
}

/// A placed-but-not-yet-active enemy, counting down on the floor.
#[derive(Clone, Copy, PartialEq, Eq, Structural, Debug)]
pub struct SpawnEnemy {
    /// Where the enemy will appear, milli-pixels.
    pub x: i64,
    /// Where the enemy will appear, milli-pixels.
    pub y: i64,
    /// Time left until it materialises, milliseconds.
    pub spawn_t: i64,
    /// The enemy it turns into.
    pub to_spawn: Enemy,
}

impl SpawnEnemy {
    /// Bounds every frame preserves.
    pub open spec fn wf(self) -> bool {
        &&& -POS_LIMIT <= self.x <= POS_LIMIT
        &&& -POS_LIMIT <= self.y <= POS_LIMIT
        &&& TIMER_FLOOR <= self.spawn_t <= SPAWN_COUNTDOWN
        &&& self.to_spawn.wf()
    }
}

/// A pending spawn after one frame's countdown.
pub open spec fn ticked_spawn(s: SpawnEnemy, dt: int) -> SpawnEnemy {
    SpawnEnemy { spawn_t: (s.spawn_t - dt) as i64, ..s }
}

/// One frame of the pending pool, as a function on a single entry.
pub open spec fn spawn_ticker(dt: int) -> spec_fn(SpawnEnemy) -> SpawnEnemy {
    (|s: SpawnEnemy| ticked_spawn(s, dt))
}

/// Entries still counting stay in the pool.
pub open spec fn still_pending() -> spec_fn(SpawnEnemy) -> bool {
    (|s: SpawnEnemy| s.spawn_t > 0)
}

/// Entries whose countdown has elapsed leave the pool as live enemies.
pub open spec fn spawn_elapsed() -> spec_fn(SpawnEnemy) -> bool {
    (|s: SpawnEnemy| s.spawn_t <= 0)
}

/// The enemy a telegraph places: its template, at the telegraphed spot.
pub open spec fn spawn_payload() -> spec_fn(SpawnEnemy) -> Enemy {
    (|s: SpawnEnemy| Enemy { x: s.x, y: s.y, ..s.to_spawn })
}

/// One frame of a pending spawn: its countdown runs; when it elapses the
/// template enemy joins the live pool at the telegraphed position.  The
/// caller drops the entry once `spawn_t` is no longer positive.
pub fn update_spawning(s: &mut SpawnEnemy, enemies: &mut Vec<Enemy>, dt: i64)
    requires
        old(s).wf(),
        0 <= old(s).spawn_t,
        0 <= dt <= MAX_FRAME_MS,
    ensures
        final(s).wf(),
        final(s).spawn_t == old(s).spawn_t - dt,
        *final(s) == (SpawnEnemy { spawn_t: final(s).spawn_t, ..*old(s) }),
        final(s).spawn_t <= 0 ==> final(enemies)@ == old(enemies)@.push(
            Enemy { x: old(s).x, y: old(s).y, ..old(s).to_spawn }),
        final(s).spawn_t > 0 ==> final(enemies)@ == old(enemies)@,
{
    s.spawn_t = s.spawn_t - dt;
    if s.spawn_t <= 0 {
        let mut enemy = s.to_spawn;
        enemy.x = s.x;
        enemy.y = s.y;
        enemies.push(enemy);
    }
}

/// One coordinate of a chase step: move toward the target at the given
/// speed along the normalised direction.
pub open spec fn chase_x(ex: int, ey: int, px: int, py: int, speed: int, dt: int) -> int {
    clamp_spec(ex + tdiv_spec(norm_x(px - ex, py - ey) * speed * dt, VEC_SCALE as int),
        -POS_LIMIT as int, POS_LIMIT as int)
}

/// One coordinate of a chase step: move toward the target at the given
/// speed along the normalised direction.
pub open spec fn chase_y(ex: int, ey: int, px: int, py: int, speed: int, dt: int) -> int {
    clamp_spec(ey + tdiv_spec(norm_y(px - ex, py - ey) * speed * dt, VEC_SCALE as int),
        -POS_LIMIT as int, POS_LIMIT as int)
}

/// Moves a point toward a target at the given speed over one frame.
fn chase_step(x: &mut i64, y: &mut i64, px: i64, py: i64, speed: i64, dt: i64)
    requires
        -POS_LIMIT <= *old(x) <= POS_LIMIT,
        -POS_LIMIT <= *old(y) <= POS_LIMIT,
        -POS_LIMIT <= px <= POS_LIMIT,
        -POS_LIMIT <= py <= POS_LIMIT,
        0 <= speed <= 2000,
        0 <= dt <= MAX_FRAME_MS,
    ensures
        *final(x) == chase_x(*old(x) as int, *old(y) as int, px as int, py as int,
            speed as int, dt as int),
        *final(y) == chase_y(*old(x) as int, *old(y) as int, px as int, py as int,
            speed as int, dt as int),
        -POS_LIMIT <= *final(x) <= POS_LIMIT,
        -POS_LIMIT <= *final(y) <= POS_LIMIT,
{
    let (dirx, diry) = normalize_or_zero(px - *x, py - *y);
    proof {
        let nx = dirx as int;
        let ny = diry as int;
        let spd = speed as int;
        let delta = dt as int;
        assert(-(200_000 * VEC_SCALE) <= nx * spd * delta <= 200_000 * VEC_SCALE
            && -(200_000 * VEC_SCALE) <= ny * spd * delta <= 200_000 * VEC_SCALE
            && -2_000_000 <= nx * spd <= 2_000_000
            && -2_000_000 <= ny * spd <= 2_000_000) by (nonlinear_arith)
            requires
                -VEC_SCALE <= nx <= VEC_SCALE,
                -VEC_SCALE <= ny <= VEC_SCALE,
                0 <= spd <= 2000,
                0 <= delta <= MAX_FRAME_MS,
                VEC_SCALE == 1000,
                MAX_FRAME_MS == 100;
        lemma_tdiv_bound(nx * spd * delta, VEC_SCALE as int, 200_000);
        lemma_tdiv_bound(ny * spd * delta, VEC_SCALE as int, 200_000);
    }
    let sx = tdiv(dirx * speed * dt, VEC_SCALE);
    let sy = tdiv(diry * speed * dt, VEC_SCALE);
    *x = clamp_i64(*x + sx, -POS_LIMIT, POS_LIMIT);
    *y = clamp_i64(*y + sy, -POS_LIMIT, POS_LIMIT);
}

/// One frame of a chaser: it walks toward the player.
pub fn update_follow_enemy(e: &mut Enemy, px: i64, py: i64, dt: i64)
    requires
        old(e).wf(),
        -POS_LIMIT <= px <= POS_LIMIT,
        -POS_LIMIT <= py <= POS_LIMIT,
        0 <= dt <= MAX_FRAME_MS,
    ensures
        final(e).wf(),
        final(e).x == chase_x(old(e).x as int, old(e).y as int, px as int, py as int,
            FOLLOW_SPEED as int, dt as int),
        final(e).y == chase_y(old(e).x as int, old(e).y as int, px as int, py as int,
            FOLLOW_SPEED as int, dt as int),
        *final(e) == (Enemy { x: final(e).x, y: final(e).y, ..*old(e) }),
{
    let mut x = e.x;
    let mut y = e.y;
    chase_step(&mut x, &mut y, px, py, FOLLOW_SPEED, dt);
    e.x = x;
    e.y = y;
}

/// The bullet a shooter enemy emits: from the enemy centre toward the
/// player, at the fixed enemy bullet stats, tagged `Primary`.
pub open spec fn enemy_shot(e: Enemy, px: int, py: int) -> Bullet {
    let cx = clamp_spec(e.x + e.size / 2, -POS_LIMIT as int, POS_LIMIT as int);
    let cy = clamp_spec(e.y + e.size / 2, -POS_LIMIT as int, POS_LIMIT as int);
    Bullet {
        damage: BULLET_DAMAGE,
        x: cx as i64,
        y: cy as i64,
        last_x: cx as i64,
        last_y: cy as i64,
        dx: norm_x(px - e.x, py - e.y) as i64,
        dy: norm_y(px - e.x, py - e.y) as i64,
        size: ENEMY_BULLET_SIZE,
        speed: ENEMY_BULLET_SPEED,
        state: ColorState::Primary,
        kind: BulletKind::EnemyBullet,
        hit: false,
    }
}

/// One frame of a shooter: while the global state is `Primary` it chases
/// like a plain follower; otherwise it stands and, whenever its cooldown
/// has run out, fires one bullet at the player and rewinds the cooldown.
pub fn update_follow_shoot_enemy(e: &mut Enemy, px: i64, py: i64, color: ColorState,
    bullets: &mut Vec<Bullet>, dt: i64)
    requires
        old(e).wf(),
        -POS_LIMIT <= px <= POS_LIMIT,
        -POS_LIMIT <= py <= POS_LIMIT,
        0 <= dt <= MAX_FRAME_MS,
    ensures
        final(e).wf(),
        color == ColorState::Primary ==> {
            &&& final(bullets)@ == old(bullets)@
            &&& final(e).x == chase_x(old(e).x as int, old(e).y as int, px as int, py as int,
                FOLLOW_SHOOT_SPEED as int, dt as int)
            &&& final(e).y == chase_y(old(e).x as int, old(e).y as int, px as int, py as int,
                FOLLOW_SHOOT_SPEED as int, dt as int)
            &&& *final(e) == (Enemy { x: final(e).x, y: final(e).y, ..*old(e) })
        },
        color == ColorState::Secondary && old(e).attack_t <= 0 ==> {
            &&& final(bullets)@ == old(bullets)@.push(enemy_shot(*old(e), px as int, py as int))
            &&& enemy_shot(*old(e), px as int, py as int).wf()
            &&& *final(e) == (Enemy { attack_t: old(e).attack_speed, ..*old(e) })
        },
        color == ColorState::Secondary && old(e).attack_t > 0 ==> {
            &&& final(bullets)@ == old(bullets)@
            &&& *final(e) == *old(e)
        },
{
    match color {
        ColorState::Primary => {
            let mut x = e.x;
            let mut y = e.y;
            chase_step(&mut x, &mut y, px, py, FOLLOW_SHOOT_SPEED, dt);
            e.x = x;
            e.y = y;
        },
        ColorState::Secondary => {
            if e.attack_t <= 0 {
                let (dirx, diry) = normalize_or_zero(px - e.x, py - e.y);
                let cx = clamp_i64(e.x + e.size / 2, -POS_LIMIT, POS_LIMIT);
                let cy = clamp_i64(e.y + e.size / 2, -POS_LIMIT, POS_LIMIT);
                let b = Bullet::new(BULLET_DAMAGE, cx, cy, dirx, diry, ENEMY_BULLET_SIZE,
                    ENEMY_BULLET_SPEED, BulletKind::EnemyBullet);
                bullets.push(b);
                e.attack_t = e.attack_speed;
            }
        },
    }
}

/// The ring a tower emits: centred on the tower, tagged with the colour
/// opposite to the global state at the moment of emission.
pub open spec fn emitted_ring(e: Enemy, color: ColorState) -> CircleAttack {
    CircleAttack {
        x: (e.x + e.size / 2) as i64,
        y: (e.y + e.size / 2) as i64,
        radius: HAZARD_RADIUS_START,
        color: color.flip(),
        hit: false,
    }
}

/// One frame of a ring tower: its cooldown runs down; when it elapses the
/// tower emits exactly one hazard ring centred on itself, tagged with the
/// opposite of the current global colour state, and the cooldown rewinds
/// to its configured length.
pub fn update_static_circle_enemy(e: &mut Enemy, color: ColorState,
    circles: &mut Vec<CircleAttack>, dt: i64)
    requires
        old(e).wf(),
        0 <= dt <= MAX_FRAME_MS,
    ensures
        final(e).wf(),
        old(e).attack_t - dt <= 0 ==> {
            &&& final(circles)@ == old(circles)@.push(emitted_ring(*old(e), color))
            &&& emitted_ring(*old(e), color).wf()
            &&& emitted_ring(*old(e), color).radius == HAZARD_RADIUS_START
            &&& *final(e) == (Enemy { attack_t: old(e).attack_speed, ..*old(e) })
        },
        old(e).attack_t - dt > 0 ==> {
            &&& final(circles)@ == old(circles)@
            &&& *final(e) == (Enemy { attack_t: (old(e).attack_t - dt) as i64, ..*old(e) })
        },
{
    e.attack_t = e.attack_t - dt;
    if e.attack_t <= 0 {
        let ring = CircleAttack {
            x: e.x + e.size / 2,
            y: e.y + e.size / 2,
            radius: HAZARD_RADIUS_START,
            color: color.next(),
            hit: false,
        };
        circles.push(ring);
        e.attack_t = e.attack_speed;
    }
}

/// A cooldown after the shared per-frame tick: it only runs down while
/// it has not yet elapsed.
pub open spec fn cooled(t: int, dt: int) -> int {
    if t >= 0 {
        t - dt
    } else {
        t
    }
}

/// An enemy after its timer tick and its kind's action, before contact
/// with the player is resolved.
pub open spec fn acted_enemy(e: Enemy, px: int, py: int, color: ColorState,
    dt: int) -> Enemy {
    let t = cooled(e.attack_t as int, dt);
    let e1 = Enemy { attack_t: t as i64, ..e };
    match e.kind {
        EnemyType::FollowEnemy => Enemy {
            x: chase_x(e.x as int, e.y as int, px, py, FOLLOW_SPEED as int, dt) as i64,
            y: chase_y(e.x as int, e.y as int, px, py, FOLLOW_SPEED as int, dt) as i64,
            ..e1
        },
        EnemyType::FollowShootEnemy => {
            if color == ColorState::Primary {
                Enemy {
                    x: chase_x(e.x as int, e.y as int, px, py, FOLLOW_SHOOT_SPEED as int,
                        dt) as i64,
                    y: chase_y(e.x as int, e.y as int, px, py, FOLLOW_SHOOT_SPEED as int,
                        dt) as i64,
                    ..e1
                }
            } else if t <= 0 {
                Enemy { attack_t: e.attack_speed, ..e1 }
            } else {
                e1
            }
        },
        EnemyType::StaticCircleAttack => {
            // a tower's timer runs twice per frame: the shared tick
            // above plus this kind's own, so towers cool at double rate
            if t - dt <= 0 {
                Enemy { attack_t: e.attack_speed, ..e1 }
            } else {
                Enemy { attack_t: (t - dt) as i64, ..e1 }
            }
        },
    }
}

/// An enemy after contact with the player is resolved: a touch kills it.
pub open spec fn contact_resolved(e: Enemy, p: Player) -> Enemy {
    if rects_overlap(e.rect_spec(), p.rect_spec()) && e.can_collide {
        Enemy { health: 0, ..e }
    } else {
        e
    }
}

/// One frame of the live pool, as a function on a single enemy.
pub open spec fn enemy_stepper(p: Player, color: ColorState,
    dt: int) -> spec_fn(Enemy) -> Enemy {
    (|e: Enemy| contact_resolved(acted_enemy(e, p.x as int, p.y as int, color, dt), p))
}

/// Enemies with health left survive the frame's cull.
pub open spec fn enemy_alive() -> spec_fn(Enemy) -> bool {
    (|e: Enemy| e.health > 0)
}

/// The score a frame pays out: the summed scores of the enemies whose
/// stepped state is dead.
pub open spec fn payout(s: Seq<Enemy>, step: spec_fn(Enemy) -> Enemy) -> int
    decreases s.len(),
{
    if s.len() == 0 {
        0
    } else {
        payout(s.drop_last(), step) + (if step(s.last()).health <= 0 {
            step(s.last()).score as int
        } else {
            0int
        })
    }
}

/// Contact between an enemy and the player.  A chaser's touch heals by
/// the fixed amount when its affinity matches the global state and costs
/// one point otherwise; any other enemy deals its contact damage.  Either
/// way the enemy dies on contact.  Returns whether the player was hurt
/// (the touch neither healed nor missed).
pub fn enemy_collision(e: &mut Enemy, p: &mut Player, color: ColorState) -> (hurt_player: bool)
    requires
        old(e).wf(),
        old(p).wf(),
    ensures
        final(e).wf(),
        final(p).wf(),
        final(p).max_health == old(p).max_health,
        ({
            let touched = rects_overlap(old(e).rect_spec(), old(p).rect_spec())
                && old(e).can_collide;
            &&& touched ==> *final(e) == (Enemy { health: 0, ..*old(e) })
            &&& !touched ==> *final(e) == *old(e) && *final(p) == *old(p) && !hurt_player
            &&& (touched && old(e).kind == EnemyType::FollowEnemy && old(e).state == color)
                ==> *final(p) == (Player {
                    health: (if old(p).health + old(p).heal_from_b > old(p).max_health {
                        old(p).max_health
                    } else {
                        (old(p).health + old(p).heal_from_b) as i64
                    }),
                    ..*old(p)
                }) && !hurt_player
            &&& (touched && old(e).kind == EnemyType::FollowEnemy && old(e).state != color)
                ==> *final(p) == (Player {
                    health: (if old(p).health - 1 < 0 { 0 } else { (old(p).health - 1) as i64 }),
                    ..*old(p)
                }) && hurt_player
            &&& (touched && old(e).kind != EnemyType::FollowEnemy)
                ==> *final(p) == (Player {
                    health: (if old(p).health - old(e).contact_damage < 0 {
                        0
                    } else {
                        (old(p).health - old(e).contact_damage) as i64
                    }),
                    ..*old(p)
                }) && hurt_player
        }),
{
    let e_rect = e.get_rect();
    let p_rect = p.get_rect();
    let touched = rect_collide(&e_rect, &p_rect);
    let mut hurt_player = false;
    if touched && e.can_collide {
        if e.kind == EnemyType::FollowEnemy {
            if e.state == color {
                p.heal(p.heal_from_b);
            } else {
                p.hurt(1);
                hurt_player = true;
            }
        } else {
            p.hurt(e.contact_damage);
            hurt_player = true;
        }
        e.health = 0;
    }
    hurt_player
}

} // verus!
