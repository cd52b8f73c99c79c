//! Bullet collision resolution: player bullets against the enemy pool,
//! enemy bullets against the player.

use vstd::prelude::*;

verus! {

use crate::bullet::{Bullet, BulletKind};
use crate::color::ColorState;
use crate::config::{ENEMY_HEALTH_FLOOR, PLAYER_DAMAGE_CAP, PLAYER_DAMAGE_MIN};
use crate::enemy::Enemy;
use crate::geom::{rect_collide, rects_overlap};
use crate::player::Player;

/// Whether a bullet's hit box touches an enemy's square.
pub open spec fn bullet_hits_enemy(b: Bullet, e: Enemy) -> bool {
    rects_overlap(b.rect_spec(), e.rect_spec())
}

/// An enemy after soaking a bullet of the given damage.
pub open spec fn damaged(e: Enemy, dmg: int) -> Enemy {
    Enemy {
        health: (if e.health - dmg < ENEMY_HEALTH_FLOOR { ENEMY_HEALTH_FLOOR } else {
            (e.health - dmg) as i64
        }),
        ..e
    }
}

/// One frame of flight, as a function on a single bullet.
pub open spec fn bullet_flight(dt: int) -> spec_fn(Bullet) -> Bullet {
    (|b: Bullet| Bullet {
        x: Bullet::stepped(b.x as int, b.dx as int, b.speed as int, dt) as i64,
        y: Bullet::stepped(b.y as int, b.dy as int, b.speed as int, dt) as i64,
        last_x: b.x,
        last_y: b.y,
        ..b
    })
}

/// Whether a flown bullet survives its frame: it was not yet consumed,
/// it is still inside the arena, and it touches nothing it can hurt or
/// heal.  Only rectangles matter here, and no rectangle moves during a
/// bullet pass.
pub open spec fn bullet_survives(enemies: Seq<Enemy>, p: Player) -> spec_fn(Bullet) -> bool {
    (|b: Bullet| {
        &&& !b.hit
        &&& b.in_arena()
        &&& match b.kind {
            BulletKind::PlayerBullet => forall|j: int| 0 <= j < enemies.len()
                ==> !bullet_hits_enemy(b, #[trigger] enemies[j]),
            BulletKind::EnemyBullet => !rects_overlap(p.rect_spec(), b.rect_spec()),
        }
    })
}

/// How many of the pool's flown bullets strike this enemy: player
/// bullets still inside the arena whose hit box touches the enemy's
/// square.
pub open spec fn enemy_hit_count(bs: Seq<Bullet>, e: Enemy, dt: int) -> int
    decreases bs.len(),
{
    if bs.len() == 0 {
        0
    } else {
        enemy_hit_count(bs.drop_last(), e, dt) + ({
            let b = bullet_flight(dt)(bs.last());
            if b.in_arena() && b.kind == BulletKind::PlayerBullet
                && bullet_hits_enemy(b, e) {
                1int
            } else {
                0int
            }
        })
    }
}

/// The player after one flown bullet: an enemy bullet inside the arena
/// that touches the square heals on a matching tag and hurts otherwise;
/// anything else leaves the player alone.
pub open spec fn bullet_applied(b: Bullet, p: Player, color: ColorState) -> Player {
    if b.in_arena() && b.kind == BulletKind::EnemyBullet
        && rects_overlap(p.rect_spec(), b.rect_spec()) {
        if b.state == color {
            Player {
                health: (if p.health + p.heal_from_b > p.max_health { p.max_health } else {
                    (p.health + p.heal_from_b) as i64
                }),
                ..p
            }
        } else {
            Player {
                health: (if p.health - b.damage < 0 { 0 } else { (p.health - b.damage) as i64 }),
                ..p
            }
        }
    } else {
        p
    }
}

/// The player after every flown bullet of the pool, applied in order.
pub open spec fn player_after_bullets(bs: Seq<Bullet>, p: Player, color: ColorState,
    dt: int) -> Player
    decreases bs.len(),
{
    if bs.len() == 0 {
        p
    } else {
        bullet_applied(bullet_flight(dt)(bs.last()), player_after_bullets(bs.drop_last(),
            p, color, dt), color)
    }
}

/// A player bullet against the enemy pool: every enemy the hit box
/// touches soaks the player's damage stat, and the bullet is consumed if
/// it touched anything.
pub fn bullet_enemy_coll(b: &mut Bullet, enemies: &mut Vec<Enemy>, damage: i64)
    requires
        old(b).wf(),
        PLAYER_DAMAGE_MIN <= damage <= PLAYER_DAMAGE_CAP,
        forall|j: int| 0 <= j < old(enemies)@.len()
            ==> (#[trigger] old(enemies)@[j]).wf(),
    ensures
        final(enemies)@.len() == old(enemies)@.len(),
        forall|j: int| 0 <= j < old(enemies)@.len()
            ==> final(enemies)@[j] == (if bullet_hits_enemy(*old(b), old(enemies)@[j]) {
                damaged(#[trigger] old(enemies)@[j], damage as int)
            } else {
                old(enemies)@[j]
            }),
        forall|j: int| 0 <= j < final(enemies)@.len()
            ==> (#[trigger] final(enemies)@[j]).wf(),
        *final(b) == (Bullet {
            hit: old(b).hit || exists|j: int| 0 <= j < old(enemies)@.len()
                && bullet_hits_enemy(*old(b), #[trigger] old(enemies)@[j]),
            ..*old(b)
        }),
{
    let b_rect = b.get_rect();
    let n = enemies.len();
    let mut j: usize = 0;
    while j < n
        invariant
            0 <= j <= n,
            n == old(enemies)@.len(),
            enemies@.len() == n,
            b_rect == old(b).rect_spec(),
            old(b).wf(),
            PLAYER_DAMAGE_MIN <= damage <= PLAYER_DAMAGE_CAP,
            forall|k: int| 0 <= k < n ==> (#[trigger] old(enemies)@[k]).wf(),
            forall|k: int| j <= k < n ==> enemies@[k] == old(enemies)@[k],
            forall|k: int| 0 <= k < j
                ==> enemies@[k] == (if bullet_hits_enemy(*old(b), old(enemies)@[k]) {
                    damaged(#[trigger] old(enemies)@[k], damage as int)
                } else {
                    old(enemies)@[k]
                }),
            *b == (Bullet {
                hit: old(b).hit || exists|k: int| 0 <= k < j
                    && bullet_hits_enemy(*old(b), #[trigger] old(enemies)@[k]),
                ..*old(b)
            }),
        decreases n - j,
    {
        let e_rect = enemies[j].get_rect();
        if rect_collide(&b_rect, &e_rect) {
            b.hit = true;
            let mut e = enemies[j];
            e.take_damage(damage);
            enemies.set(j, e);
        }
        j = j + 1;
    }
    proof {
        assert forall|k: int| 0 <= k < enemies@.len() implies
            (#[trigger] enemies@[k]).wf() by {
            assert(old(enemies)@[k].wf());
            assert(enemies@[k] == (if bullet_hits_enemy(*old(b), old(enemies)@[k]) {
                damaged(old(enemies)@[k], damage as int)
            } else {
                old(enemies)@[k]
            }));
        }
    }
}

/// An enemy bullet against the player: on touch the bullet is consumed;
/// a matching colour tag heals the player by the fixed amount, a
/// mismatched one costs the bullet's damage.  Returns whether the player
/// was hurt.
pub fn bullet_player_coll(b: &mut Bullet, p: &mut Player, color: ColorState)
    -> (hurt_player: bool)
    requires
        old(b).wf(),
        old(p).wf(),
    ensures
        final(p).wf(),
        final(p).max_health == old(p).max_health,
        ({
            let touched = rects_overlap(old(p).rect_spec(), old(b).rect_spec());
            &&& *final(b) == (Bullet { hit: old(b).hit || touched, ..*old(b) })
            &&& !touched ==> *final(p) == *old(p) && !hurt_player
            &&& (touched && old(b).state == color) ==> *final(p) == (Player {
                health: (if old(p).health + old(p).heal_from_b > old(p).max_health {
                    old(p).max_health
                } else {
                    (old(p).health + old(p).heal_from_b) as i64
                }),
                ..*old(p)
            }) && !hurt_player
            &&& (touched && old(b).state != color) ==> *final(p) == (Player {
                health: (if old(p).health - old(b).damage < 0 { 0 } else {
                    (old(p).health - old(b).damage) as i64
                }),
                ..*old(p)
            }) && hurt_player
        }),
{
    let b_rect = b.get_rect();
    let p_rect = p.get_rect();
    let mut hurt_player = false;
    if rect_collide(&p_rect, &b_rect) {
        b.hit = true;
        if b.state == color {
            p.heal(p.heal_from_b);
        } else {
            p.hurt(b.damage);
            hurt_player = true;
        }
    }
    hurt_player
}

} // verus!
