//! The wave controller: a two-state machine.  In `Start` the arena offers
//! the start marker (wave zero) or a row of upgrades; in `Spawning` it
//! feeds bursts of pending spawns until the wave's budget and both enemy
//! pools are exhausted, then moves to the next wave.

use vstd::prelude::*;

verus! {

use crate::config::{
    BURST_MAX_X, BURST_MAX_Y, BURST_MIN_X, BURST_MIN_Y, BURST_SCATTER, BURST_SIZE,
    MAX_FRAME_MS, MOVE_ANIM_MS, POS_LIMIT, SPAWN_COUNTDOWN, SPAWN_DELAY_BASE,
    SPAWN_DELAY_DECREMENT, SPAWN_DELAY_FLOOR, TIMER_FLOOR, WAVE_BASE_ENEMIES, WAVE_CAP,
    WAVE_ENEMIES_PER_WAVE,
};
use crate::enemy::{template, template_spec, SpawnEnemy, ENEMY_TEMPLATE_COUNT};
use crate::geom::{clamp_i64, clamp_spec};
use crate::rng::gen_range_i64;

#[derive(Clone, Copy, PartialEq, Eq, Structural, Debug)]
pub enum WaveState {
    /// Offering the start marker or the upgrade row.
    Start,
    /// Feeding enemy bursts until the wave is exhausted.
    Spawning,
}

#[derive(Clone, Copy, PartialEq, Eq, Structural, Debug)]
pub struct Wave {
    /// Index of the current wave; only ever climbs.
    pub current: i64,
    pub state: WaveState,
    /// Enemies this wave has yet to emit as pending spawns.
    pub enemy_remaining: i64,
    /// One-shot: an upgrade has been taken this wave.
    pub upgrade_picked: bool,
    /// One-shot: the wave's budget and burst delay have been computed.
    pub enemies_set: bool,
    /// The between-waves recentering animation is running.
    pub move_player: bool,
    /// Time left of the recentering animation, milliseconds.
    pub move_player_t: i64,
    /// Full length of the recentering animation, milliseconds.
    pub move_player_tmax: i64,
    /// Player position when the recentering animation began.
    pub old_x: i64,
    /// Player position when the recentering animation began.
    pub old_y: i64,
    /// Time left until the next burst, milliseconds.
    pub spawn_delay_t: i64,
    /// Delay between bursts for this wave, milliseconds.
    pub spawn_delay_tmax: i64,
    /// One-shot: the start marker is on the floor.
    pub start_spawned: bool,
    /// One-shot: the upgrade row is on the floor.
    pub upgrades_spawned: bool,
}

impl Wave {
    /// Bounds every frame preserves.  While the machine is in `Spawning`
    /// neither offer is on the floor, which is what lets a wave
    /// transition reset every one-shot flag.
    pub open spec fn wf(self) -> bool {
        &&& 0 <= self.current <= WAVE_CAP
        &&& 0 <= self.enemy_remaining <= WAVE_BASE_ENEMIES + WAVE_CAP * WAVE_ENEMIES_PER_WAVE
        &&& TIMER_FLOOR <= self.move_player_t <= 10_000
        &&& 1 <= self.move_player_tmax <= 10_000
        &&& -POS_LIMIT <= self.old_x <= POS_LIMIT
        &&& -POS_LIMIT <= self.old_y <= POS_LIMIT
        &&& TIMER_FLOOR <= self.spawn_delay_t <= SPAWN_DELAY_BASE
        &&& 0 <= self.spawn_delay_tmax <= SPAWN_DELAY_BASE
        &&& (self.state == WaveState::Spawning ==> !self.start_spawned
            && !self.upgrades_spawned)
    }

    /// The wave controller before the first wave.
    pub open spec fn default_spec() -> Wave {
        Wave {
            current: 0,
            state: WaveState::Start,
            enemy_remaining: 0,
            enemies_set: false,
            start_spawned: false,
            spawn_delay_tmax: SPAWN_DELAY_BASE,
            spawn_delay_t: 0,
            upgrades_spawned: false,
            upgrade_picked: false,
            move_player: false,
            move_player_t: 0,
            move_player_tmax: MOVE_ANIM_MS,
            old_x: 0,
            old_y: 0,
        }
    }

    /// The wave controller before the first wave.
    pub fn default() -> (w: Wave)
        ensures
            w == Wave::default_spec(),
            w.wf(),
    {
        Wave {
            current: 0,
            state: WaveState::Start,
            enemy_remaining: 0,
            enemies_set: false,
            start_spawned: false,
            spawn_delay_tmax: SPAWN_DELAY_BASE,
            spawn_delay_t: 0,
            upgrades_spawned: false,
            upgrade_picked: false,
            move_player: false,
            move_player_t: 0,
            move_player_tmax: MOVE_ANIM_MS,
            old_x: 0,
            old_y: 0,
        }
    }
}

/// Whether this frame completes the wave: the budget is spent and both
/// the pending and the live pool are empty.
pub open spec fn wave_done(w: Wave, pending_empty: bool, live_empty: bool) -> bool {
    w.enemy_remaining == 0 && w.enemies_set && pending_empty && live_empty
}

/// The wave's enemy budget as of this frame: already fixed on a
/// previous frame, or computed now on first entry into `Spawning`.
pub open spec fn wave_budget(w: Wave) -> int {
    if w.enemies_set {
        w.enemy_remaining as int
    } else {
        WAVE_BASE_ENEMIES + w.current * WAVE_ENEMIES_PER_WAVE
    }
}

/// The burst timer after this frame's tick: it runs down with the
/// frame, and jumps straight to zero when nothing is alive or pending.
pub open spec fn delay_after_tick(w: Wave, pending_empty: bool, live_empty: bool,
    dt: int) -> int {
    let d = clamp_spec(w.spawn_delay_t - dt, TIMER_FLOOR as int, SPAWN_DELAY_BASE as int);
    if d > 0 && live_empty && pending_empty {
        0
    } else {
        d
    }
}

/// How many pending spawns this frame emits: a full burst, the rest of
/// the budget if that is smaller, and none while the timer still runs.
pub open spec fn burst_emitted(w: Wave, pending_empty: bool, live_empty: bool,
    dt: int) -> int {
    if delay_after_tick(w, pending_empty, live_empty, dt) <= 0 && wave_budget(w) > 0 {
        if wave_budget(w) < BURST_SIZE {
            wave_budget(w)
        } else {
            BURST_SIZE as int
        }
    } else {
        0
    }
}

/// All entries of `s` from index `from` on are the telegraphs of one
/// burst: each counts the full countdown, lies inside the scatter
/// square at the anchor `(ax, ay)`, and carries a template enemy.
pub open spec fn burst_cluster(s: Seq<SpawnEnemy>, from: int, ax: int, ay: int) -> bool {
    &&& BURST_MIN_X <= ax < BURST_MAX_X
    &&& BURST_MIN_Y <= ay < BURST_MAX_Y
    &&& forall|i: int| from <= i < s.len()
        ==> (#[trigger] s[i]).spawn_t == SPAWN_COUNTDOWN
            && ax <= s[i].x < ax + BURST_SCATTER
            && ay <= s[i].y < ay + BURST_SCATTER
            && exists|t: int| 0 <= t < ENEMY_TEMPLATE_COUNT
                && s[i].to_spawn == template_spec(t)
}

/// One frame of the `Spawning` state.  On first entry it fixes the
/// wave's enemy budget and burst delay.  When the burst timer elapses
/// and nothing is alive or pending, it emits a burst of up to
/// `BURST_SIZE` pending spawns scattered around one random anchor, each
/// built from a random template.  Once the budget is spent and both
/// pools are empty, the machine returns to `Start` on the next wave
/// index with every one-shot flag cleared.
pub fn wave_spawning_step(w: &mut Wave, enemy_spawn: &mut Vec<SpawnEnemy>,
    live_empty: bool, dt: i64)
    requires
        old(w).wf(),
        old(w).state == WaveState::Spawning,
        0 <= dt <= MAX_FRAME_MS,
        forall|i: int| 0 <= i < old(enemy_spawn)@.len()
            ==> (#[trigger] old(enemy_spawn)@[i]).wf() && old(enemy_spawn)@[i].spawn_t > 0,
    ensures
        final(w).wf(),
        // exactly one burst's worth of telegraphs appears when the
        // timer has elapsed, and the budget pays for each of them
        final(enemy_spawn)@.len() == old(enemy_spawn)@.len() + burst_emitted(*old(w),
            old(enemy_spawn)@.len() == 0, live_empty, dt as int),
        !wave_done(*old(w), old(enemy_spawn)@.len() == 0, live_empty)
            ==> final(w).enemy_remaining == wave_budget(*old(w)) - burst_emitted(*old(w),
                old(enemy_spawn)@.len() == 0, live_empty, dt as int),
        // first entry fixes the wave's budget flag and burst delay
        !wave_done(*old(w), old(enemy_spawn)@.len() == 0, live_empty)
            ==> final(w).enemies_set,
        final(w).spawn_delay_tmax == (if old(w).enemies_set {
            old(w).spawn_delay_tmax as int
        } else {
            clamp_spec(SPAWN_DELAY_BASE - old(w).current * SPAWN_DELAY_DECREMENT,
                SPAWN_DELAY_FLOOR as int, SPAWN_DELAY_BASE as int)
        }),
        // the burst timer: zeroed by the wave transition, rewound by a
        // burst, otherwise just ticked
        final(w).spawn_delay_t == (if wave_done(*old(w), old(enemy_spawn)@.len() == 0,
            live_empty) {
            0int
        } else if burst_emitted(*old(w), old(enemy_spawn)@.len() == 0, live_empty,
            dt as int) > 0 {
            final(w).spawn_delay_tmax as int
        } else {
            delay_after_tick(*old(w), old(enemy_spawn)@.len() == 0, live_empty, dt as int)
        }),
        // every fresh telegraph counts the full countdown, lies in one
        // scattered square around one anchor, and carries a template
        burst_emitted(*old(w), old(enemy_spawn)@.len() == 0, live_empty, dt as int) > 0
            ==> exists|ax: int, ay: int| #[trigger] burst_cluster(final(enemy_spawn)@,
                old(enemy_spawn)@.len() as int, ax, ay),
        // the pool only grows, and only with fresh telegraphs
        old(enemy_spawn)@.len() <= final(enemy_spawn)@.len(),
        forall|i: int| 0 <= i < old(enemy_spawn)@.len()
            ==> final(enemy_spawn)@[i] == old(enemy_spawn)@[i],
        forall|i: int| 0 <= i < final(enemy_spawn)@.len()
            ==> (#[trigger] final(enemy_spawn)@[i]).wf()
                && final(enemy_spawn)@[i].spawn_t > 0,
        // a finished wave advances the index by one and clears every
        // one-shot flag; nothing else leaves the `Spawning` state
        wave_done(*old(w), old(enemy_spawn)@.len() == 0, live_empty) ==> {
            &&& final(w).state == WaveState::Start
            &&& final(w).current == (if old(w).current < WAVE_CAP { old(w).current + 1 }
                else { WAVE_CAP as int })
            &&& !final(w).upgrade_picked
            &&& !final(w).enemies_set
            &&& !final(w).start_spawned
            &&& !final(w).upgrades_spawned
            &&& final(w).spawn_delay_t == 0
            &&& final(enemy_spawn)@ == old(enemy_spawn)@
        },
        !wave_done(*old(w), old(enemy_spawn)@.len() == 0, live_empty) ==> {
            &&& final(w).state == WaveState::Spawning
            &&& final(w).current == old(w).current
            &&& final(w).upgrade_picked == old(w).upgrade_picked
        },
        // the recentering animation is none of this function's business
        final(w).move_player == old(w).move_player,
        final(w).move_player_t == old(w).move_player_t,
        final(w).move_player_tmax == old(w).move_player_tmax,
        final(w).old_x == old(w).old_x,
        final(w).old_y == old(w).old_y,
{
    if !w.enemies_set {
        w.enemy_remaining = WAVE_BASE_ENEMIES + w.current * WAVE_ENEMIES_PER_WAVE;
        w.spawn_delay_tmax = clamp_i64(SPAWN_DELAY_BASE - w.current * SPAWN_DELAY_DECREMENT,
            SPAWN_DELAY_FLOOR, SPAWN_DELAY_BASE);
        w.enemies_set = true;
    }

    w.spawn_delay_t = clamp_i64(w.spawn_delay_t - dt, TIMER_FLOOR, SPAWN_DELAY_BASE);
    if w.spawn_delay_t > 0 && live_empty && enemy_spawn.len() == 0 {
        // nothing left to fight: bring the next burst forward
        w.spawn_delay_t = 0;
    }

    if w.spawn_delay_t <= 0 {
        if w.enemies_set && w.enemy_remaining > 0 {
            let burst = if w.enemy_remaining < BURST_SIZE { w.enemy_remaining } else {
                BURST_SIZE
            };
            let anchor_x = gen_range_i64(BURST_MIN_X, BURST_MAX_X);
            let anchor_y = gen_range_i64(BURST_MIN_Y, BURST_MAX_Y);
            let mut i: i64 = 0;
            let ghost spawn0 = enemy_spawn@;
            let ghost remaining0 = w.enemy_remaining;
            let ghost w0 = *w;
            while i < burst
                invariant
                    0 <= i <= burst,
                    1 <= burst <= BURST_SIZE,
                    burst <= remaining0,
                    w.enemy_remaining == remaining0 - i,
                    *w == (Wave { enemy_remaining: w.enemy_remaining, ..w0 }),
                    w.wf(),
                    BURST_MIN_X <= anchor_x < BURST_MAX_X,
                    BURST_MIN_Y <= anchor_y < BURST_MAX_Y,
                    enemy_spawn@.len() == spawn0.len() + i,
                    forall|k: int| 0 <= k < spawn0.len() ==> enemy_spawn@[k] == spawn0[k],
                    forall|k: int| spawn0.len() <= k < enemy_spawn@.len()
                        ==> (#[trigger] enemy_spawn@[k]).wf()
                            && enemy_spawn@[k].spawn_t == SPAWN_COUNTDOWN
                            && anchor_x <= enemy_spawn@[k].x < anchor_x + BURST_SCATTER
                            && anchor_y <= enemy_spawn@[k].y < anchor_y + BURST_SCATTER
                            && exists|t: int| 0 <= t < ENEMY_TEMPLATE_COUNT
                                && enemy_spawn@[k].to_spawn == template_spec(t),
                decreases burst - i,
            {
                let off_x = gen_range_i64(0, BURST_SCATTER);
                let off_y = gen_range_i64(0, BURST_SCATTER);
                let pick = gen_range_i64(0, ENEMY_TEMPLATE_COUNT);
                let entry = SpawnEnemy {
                    x: anchor_x + off_x,
                    y: anchor_y + off_y,
                    spawn_t: SPAWN_COUNTDOWN,
                    to_spawn: template(pick),
                };
                proof {
                    assert(entry.to_spawn == template_spec(pick as int));
                }
                enemy_spawn.push(entry);
                w.enemy_remaining = w.enemy_remaining - 1;
                i = i + 1;
            }
            w.spawn_delay_t = w.spawn_delay_tmax;
            proof {
                // the burst's anchor witnesses the scattered-square claim
                assert(burst_cluster(enemy_spawn@, spawn0.len() as int, anchor_x as int,
                    anchor_y as int));
            }
        }
    }

    if w.enemy_remaining == 0 && enemy_spawn.len() == 0 && live_empty {
        w.state = WaveState::Start;
        w.current = clamp_i64(w.current + 1, 0, WAVE_CAP);
        w.upgrade_picked = false;
        w.enemies_set = false;
        w.spawn_delay_t = 0;
    }
}

} // verus!
