//! Hazard rings: expanding circles left by stationary enemies.  A ring
//! damages the player at most once, only while the global colour state
//! differs from its tag, and is culled once its radius passes the
//! ceiling.

use vstd::prelude::*;

verus! {

use crate::color::ColorState;
use crate::config::{
    HAZARD_DAMAGE, HAZARD_GROWTH_DIV, HAZARD_RADIUS_MAX, HAZARD_THICKNESS, MAX_FRAME_MS,
};
use crate::geom::{dist_spec, dist, div_pos, lemma_tdiv_bound, tdiv_spec};
use crate::player::Player;

/// A ring centre may sit half an enemy square outside the position box.
pub const RING_POS_LIMIT: i64 = 4_200_000;

/// Rings grow a little past the cull ceiling within their last frame.
pub const RING_RADIUS_LIMIT: i64 = 3_000_000;

#[derive(Clone, Copy, PartialEq, Eq, Structural, Debug)]
pub struct CircleAttack {
    /// Centre, milli-pixels.
    pub x: i64,
    /// Centre, milli-pixels.
    pub y: i64,
    /// Set once the ring has hurt the player; it never hits twice.
    pub hit: bool,
    /// Current radius, milli-pixels.
    pub radius: i64,
    /// Colour affinity: the ring hurts only while the global state differs.
    pub color: ColorState,
}

impl CircleAttack {
    /// Bounds every frame preserves.
    pub open spec fn wf(self) -> bool {
        &&& -RING_POS_LIMIT <= self.x <= RING_POS_LIMIT
        &&& -RING_POS_LIMIT <= self.y <= RING_POS_LIMIT
        &&& 0 <= self.radius <= RING_RADIUS_LIMIT
    }

    /// The radius after one frame of growth: the growth rate is
    /// proportional to the current radius.
    pub open spec fn grown(radius: int, dt: int) -> int {
        radius + tdiv_spec(radius * dt, HAZARD_GROWTH_DIV as int)
    }
}

/// Whether the player square sits on the ring line: the distance from the
/// player centre to the ring centre is within a band around the radius,
/// the band being half the player size plus the ring line thickness.
pub open spec fn in_band(p: Player, cx: int, cy: int, radius: int) -> bool {
    let pcx = p.x + p.size / 2;
    let pcy = p.y + p.size / 2;
    let d = dist_spec(pcx, pcy, cx, cy);
    let pad = p.size / 2 + HAZARD_THICKNESS;
    -pad < d - radius < pad
}

/// Whether the ring lands its one hit this frame: it has not hit
/// before, its grown line touches the player, and the colours disagree.
pub open spec fn ring_hits(c: CircleAttack, p: Player, color: ColorState, dt: int) -> bool {
    &&& !c.hit
    &&& in_band(p, c.x as int, c.y as int, CircleAttack::grown(c.radius as int, dt))
    &&& color != c.color
}

/// A ring after one frame: grown, and marked once it has hit.
pub open spec fn stepped_ring(c: CircleAttack, p: Player, color: ColorState,
    dt: int) -> CircleAttack {
    CircleAttack {
        radius: CircleAttack::grown(c.radius as int, dt) as i64,
        hit: c.hit || ring_hits(c, p, color, dt),
        ..c
    }
}

/// One frame of the whole pool, as a function on a single ring.
pub open spec fn ring_stepper(p: Player, color: ColorState,
    dt: int) -> spec_fn(CircleAttack) -> CircleAttack {
    (|c: CircleAttack| stepped_ring(c, p, color, dt))
}

/// Rings below the radius ceiling survive the frame's cull.
pub open spec fn ring_survives() -> spec_fn(CircleAttack) -> bool {
    (|c: CircleAttack| c.radius < HAZARD_RADIUS_MAX)
}

/// How many rings of the pool land their hit this frame.
pub open spec fn ring_hit_count(s: Seq<CircleAttack>, p: Player, color: ColorState,
    dt: int) -> int
    decreases s.len(),
{
    if s.len() == 0 {
        0
    } else {
        ring_hit_count(s.drop_last(), p, color, dt) + (if ring_hits(s.last(), p, color,
            dt) {
            1int
        } else {
            0int
        })
    }
}

/// One frame of a hazard ring: the ring grows, and on its first qualifying
/// touch of a mismatched-colour player it deals its damage and remembers
/// the hit.  Returns whether the player was hurt this frame.
pub fn circle_step(c: &mut CircleAttack, p: &mut Player, color: ColorState, dt: i64)
    -> (hurt_player: bool)
    requires
        old(c).wf(),
        old(c).radius <= 2_400_000,
        old(p).wf(),
        0 <= dt <= MAX_FRAME_MS,
    ensures
        final(c).wf(),
        final(p).wf(),
        *final(c) == stepped_ring(*old(c), *old(p), color, dt as int),
        final(c).radius == CircleAttack::grown(old(c).radius as int, dt as int),
        final(c).x == old(c).x && final(c).y == old(c).y && final(c).color == old(c).color,
        hurt_player == ring_hits(*old(c), *old(p), color, dt as int),
        final(c).hit == (old(c).hit || hurt_player),
        hurt_player ==> final(p).health == (if old(p).health - HAZARD_DAMAGE < 0 { 0int }
            else { old(p).health - HAZARD_DAMAGE }),
        hurt_player ==> *final(p) == (Player { health: final(p).health, ..*old(p) }),
        !hurt_player ==> *final(p) == *old(p),
        final(p).max_health == old(p).max_health,
{
    proof {
        let r0 = old(c).radius as int;
        let delta = dt as int;
        assert(0 <= r0 * delta <= 600_000 * HAZARD_GROWTH_DIV) by (nonlinear_arith)
            requires
                0 <= r0 <= 2_400_000,
                0 <= delta <= MAX_FRAME_MS,
                MAX_FRAME_MS == 100,
                HAZARD_GROWTH_DIV == 400;
        lemma_tdiv_bound(r0 * delta, HAZARD_GROWTH_DIV as int, 600_000);
    }
    let growth = div_pos(c.radius * dt, HAZARD_GROWTH_DIV);
    proof {
        assert(tdiv_spec(old(c).radius * dt, HAZARD_GROWTH_DIV as int)
            == (old(c).radius * dt) / (HAZARD_GROWTH_DIV as int));
    }
    c.radius = c.radius + growth;

    let mut hurt_player = false;
    if !c.hit {
        let pcx = p.x + p.size / 2;
        let pcy = p.y + p.size / 2;
        let d = dist(pcx, pcy, c.x, c.y);
        let pad = p.size / 2 + HAZARD_THICKNESS;
        if -pad < d - c.radius && d - c.radius < pad {
            if color != c.color {
                c.hit = true;
                hurt_player = true;
                p.hurt(HAZARD_DAMAGE);
            }
        }
    }
    hurt_player
}

} // verus!
