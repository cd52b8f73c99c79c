//! Bullets: fired by the player at enemies and by shooter enemies at the
//! player.  A bullet flies along a fixed direction, is consumed on its
//! first hit, and is culled as soon as it leaves the arena.

use vstd::prelude::*;

verus! {

use crate::color::ColorState;
use crate::config::{
    ARENA_H, ARENA_W, BULLET_DAMAGE_CAP, BULLET_SPEED_CAP, MAX_FRAME_MS,
    PLAYER_BULLET_SIZE_CAP, POS_LIMIT,
};
use crate::geom::{clamp_i64, clamp_spec, tdiv, tdiv_spec, lemma_tdiv_bound, Rect, VEC_SCALE};

/// Who fired the bullet; decides which side it can hurt.
#[derive(Clone, Copy, PartialEq, Eq, Structural, Debug)]
pub enum BulletKind {
    PlayerBullet,
    EnemyBullet,
}

#[derive(Clone, Copy, PartialEq, Eq, Structural, Debug)]
pub struct Bullet {
    /// Damage against player health, in whole points.
    pub damage: i64,
    /// Position in milli-pixels.
    pub x: i64,
    /// Position in milli-pixels.
    pub y: i64,
    /// Position at the start of the previous flight step.
    pub last_x: i64,
    /// Position at the start of the previous flight step.
    pub last_y: i64,
    /// Flight direction, a unit vector at scale `VEC_SCALE`.
    pub dx: i64,
    /// Flight direction, a unit vector at scale `VEC_SCALE`.
    pub dy: i64,
    /// Radius in milli-pixels.
    pub size: i64,
    /// Flight speed in pixels per second.
    pub speed: i64,
    /// Colour affinity; decides heal against harm on the player.
    pub state: ColorState,
    /// Which side fired it.
    pub kind: BulletKind,
    /// Set once the bullet has hit something or left the arena.
    pub hit: bool,
}

impl Bullet {
    /// Bounds under which every bullet computation stays in range.
    pub open spec fn wf(self) -> bool {
        &&& -POS_LIMIT <= self.x <= POS_LIMIT
        &&& -POS_LIMIT <= self.y <= POS_LIMIT
        &&& -POS_LIMIT <= self.last_x <= POS_LIMIT
        &&& -POS_LIMIT <= self.last_y <= POS_LIMIT
        &&& -VEC_SCALE <= self.dx <= VEC_SCALE
        &&& -VEC_SCALE <= self.dy <= VEC_SCALE
        &&& 0 <= self.size <= PLAYER_BULLET_SIZE_CAP
        &&& 0 <= self.speed <= BULLET_SPEED_CAP
        &&& 0 <= self.damage <= BULLET_DAMAGE_CAP
    }

    /// Whether the bullet is still inside the arena; one outside it is
    /// culled the same frame.
    pub open spec fn in_arena(self) -> bool {
        0 <= self.x <= ARENA_W && 0 <= self.y <= ARENA_H
    }

    pub fn new(damage: i64, x: i64, y: i64, dx: i64, dy: i64, size: i64, speed: i64,
        kind: BulletKind) -> (b: Bullet)
        requires
            -POS_LIMIT <= x <= POS_LIMIT,
            -POS_LIMIT <= y <= POS_LIMIT,
            -VEC_SCALE <= dx <= VEC_SCALE,
            -VEC_SCALE <= dy <= VEC_SCALE,
            0 <= size <= PLAYER_BULLET_SIZE_CAP,
            0 <= speed <= BULLET_SPEED_CAP,
            0 <= damage <= BULLET_DAMAGE_CAP,
        ensures
            b == (Bullet {
                damage, x, y, dx, dy, size, speed, kind,
                last_x: x,
                last_y: y,
                hit: false,
                state: ColorState::Primary,
            }),
            b.wf(),
    {
        Bullet {
            damage, x, y, dx, dy, kind, size, speed,
            last_x: x,
            last_y: y,
            hit: false,
            state: ColorState::Primary,
        }
    }

    /// One coordinate after a flight step: the travelled distance is
    /// direction times speed times the frame delta, rescaled from the
    /// direction's fixed-point unit, and the result is kept inside the
    /// position box.
    pub open spec fn stepped(pos: int, dir: int, speed: int, dt: int) -> int {
        clamp_spec(pos + tdiv_spec(dir * speed * dt, VEC_SCALE as int),
            -POS_LIMIT as int, POS_LIMIT as int)
    }

    /// One flight step: remembers the previous position and advances
    /// along the direction vector.
    pub fn update(&mut self, dt: i64)
        requires
            old(self).wf(),
            0 <= dt <= MAX_FRAME_MS,
        ensures
            final(self).wf(),
            final(self).last_x == old(self).x,
            final(self).last_y == old(self).y,
            final(self).x == Self::stepped(old(self).x as int, old(self).dx as int,
                old(self).speed as int, dt as int),
            final(self).y == Self::stepped(old(self).y as int, old(self).dy as int,
                old(self).speed as int, dt as int),
            *final(self) == (Bullet {
                x: final(self).x,
                y: final(self).y,
                last_x: final(self).last_x,
                last_y: final(self).last_y,
                ..*old(self)
            }),
    {
        self.last_x = self.x;
        self.last_y = self.y;
        proof {
            let bdx = old(self).dx as int;
            let bdy = old(self).dy as int;
            let spd = old(self).speed as int;
            let delta = dt as int;
            assert(-(200_000 * VEC_SCALE) <= bdx * spd * delta <= 200_000 * VEC_SCALE
                && -(200_000 * VEC_SCALE) <= bdy * spd * delta <= 200_000 * VEC_SCALE
                && -2_000_000 <= bdx * spd <= 2_000_000
                && -2_000_000 <= bdy * spd <= 2_000_000)
                by (nonlinear_arith)
                requires
                    -VEC_SCALE <= bdx <= VEC_SCALE,
                    -VEC_SCALE <= bdy <= VEC_SCALE,
                    0 <= spd <= BULLET_SPEED_CAP,
                    0 <= delta <= MAX_FRAME_MS,
                    VEC_SCALE == 1000,
                    BULLET_SPEED_CAP == 2000,
                    MAX_FRAME_MS == 100;
            lemma_tdiv_bound(bdx * spd * delta, VEC_SCALE as int, 200_000);
            lemma_tdiv_bound(bdy * spd * delta, VEC_SCALE as int, 200_000);
        }
        let sx = tdiv(self.dx * self.speed * dt, VEC_SCALE);
        let sy = tdiv(self.dy * self.speed * dt, VEC_SCALE);
        self.x = clamp_i64(self.x + sx, -POS_LIMIT, POS_LIMIT);
        self.y = clamp_i64(self.y + sy, -POS_LIMIT, POS_LIMIT);
    }

    /// The square hit box around the bullet centre.
    pub open spec fn rect_spec(self) -> Rect {
        Rect {
            x: (self.x - self.size) as i64,
            y: (self.y - self.size) as i64,
            w: (2 * self.size) as i64,
            h: (2 * self.size) as i64,
        }
    }

    /// The square hit box around the bullet centre.
    pub fn get_rect(&self) -> (r: Rect)
        requires
            self.wf(),
        ensures
            r == self.rect_spec(),
    {
        Rect {
            x: self.x - self.size,
            y: self.y - self.size,
            w: 2 * self.size,
            h: 2 * self.size,
        }
    }
}

} // verus!
