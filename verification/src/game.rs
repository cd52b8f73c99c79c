//! The game object: top-level state machine (menu against play), the
//! entity pools, the per-frame update passes, and the small plain-data
//! records the outside collaborators read and write.

use vstd::prelude::*;

verus! {

use crate::bullet::{Bullet, BulletKind};
use crate::collect::{Collectibe, CollectibeKind};
use crate::color::ColorState;
use crate::combat::{
    bullet_applied, bullet_enemy_coll, bullet_flight, bullet_hits_enemy, bullet_player_coll,
    bullet_survives, damaged, enemy_hit_count, player_after_bullets,
};
use crate::config::{
    ARENA_H, ARENA_W, ENEMY_HEALTH_FLOOR, HAZARD_DAMAGE, HAZARD_RADIUS_MAX, MAX_FRAME_MS, MENU_ITEMS, PALETTE_COUNT,
    PLAYER_START_Y, POS_LIMIT, SCORE_CAP, START_CUBE_SIZE, SWITCH_EFFECT_MS, SWITCH_IDLE,
    SWITCH_TRIGGER_FLOOR, TIMER_FLOOR, UNLOCK_WAVE_ORANGE_GREEN, UNLOCK_WAVE_PURPLE_YELLOW,
    UPGRADE_COUNT, UPGRADE_PADDING, UPGRADE_SIZE, VOLUME_MAX, WAVE_CAP,
};
use crate::enemy::{
    acted_enemy, contact_resolved, cooled, enemy_alive, enemy_collision, enemy_stepper,
    payout, spawn_elapsed, spawn_payload, spawn_ticker, still_pending, update_follow_enemy,
    update_follow_shoot_enemy, update_spawning, update_static_circle_enemy, Enemy,
    EnemyType, SpawnEnemy,
};
use crate::geom::{clamp_i64, clamp_spec, rect_collide, rects_overlap, tdiv, tdiv_spec};
use crate::hazard::{
    circle_step, in_band, ring_hit_count, ring_hits, ring_stepper, ring_survives,
    CircleAttack,
};
use crate::input::InputFrame;
use crate::player::{player_update, Player};
use crate::rng::gen_range_i64;
use crate::wave::{wave_spawning_step, Wave, WaveState};

/// The top-level mode of the program.
#[derive(Clone, Copy, PartialEq, Eq, Structural, Debug)]
pub enum GameState {
    MainMenu,
    Playing,
    Paused,
    Score,
}

/// Palette unlocks earned by reaching deep waves.
#[derive(Clone, Copy, PartialEq, Eq, Structural, Debug)]
pub struct Unlocks {
    pub orangegreen: bool,
    pub purpleyellow: bool,
}

/// The discrete sounds a frame can ask the audio collaborator to play.
#[derive(Clone, Copy, PartialEq, Eq, Structural, Debug)]
pub enum AudioKind {
    ShotFired,
    EnemyKilled,
    PlayerHit,
    MenuChanged,
}

/// One sound request, carrying the volume level to play it at.
#[derive(Clone, Copy, PartialEq, Eq, Structural, Debug)]
pub struct AudioEvent {
    pub kind: AudioKind,
    /// Effect volume level, `0..=VOLUME_MAX`.
    pub volume: i64,
}

/// The plain record the storage collaborator persists between runs.
#[derive(Clone, Copy, PartialEq, Eq, Structural, Debug)]
pub struct GameRecord {
    pub high_score: i64,
    pub orange_green_unlocked: bool,
    pub purple_yellow_unlocked: bool,
    /// Music volume level, `0..=VOLUME_MAX`.
    pub music_level: i64,
    /// Effect volume level, `0..=VOLUME_MAX`.
    pub effect_level: i64,
}

/// Horizontal slot of the `k`-th offer in a row of `n`, centred on the
/// arena middle.
pub open spec fn upgrade_slot_x(n: int, k: int) -> int {
    ARENA_W / 2 - (UPGRADE_SIZE * n + UPGRADE_PADDING * (n - 1)) / 2
        + k * (UPGRADE_SIZE + UPGRADE_PADDING)
}

/// The upgrade kinds the between-waves offer draws from.
pub open spec fn upg_kind_spec(i: int) -> CollectibeKind {
    if i == 0 {
        CollectibeKind::Maxhp
    } else if i == 1 {
        CollectibeKind::Projectile
    } else if i == 2 {
        CollectibeKind::Size
    } else if i == 3 {
        CollectibeKind::Slowdmg
    } else {
        CollectibeKind::Speed
    }
}

/// How many upgrade kinds the offer draws from.
pub const UPG_KIND_COUNT: i64 = 5;

/// Picks an upgrade kind by index.
pub fn upg_kind(i: i64) -> (k: CollectibeKind)
    requires
        0 <= i < UPG_KIND_COUNT,
    ensures
        k == upg_kind_spec(i as int),
{
    if i == 0 {
        CollectibeKind::Maxhp
    } else if i == 1 {
        CollectibeKind::Projectile
    } else if i == 2 {
        CollectibeKind::Size
    } else if i == 3 {
        CollectibeKind::Slowdmg
    } else {
        CollectibeKind::Speed
    }
}

pub struct Game {
    pub game_state: GameState,
    pub color_state: ColorState,
    pub unlocks: Unlocks,
    pub high_score: i64,
    pub current_score: i64,
    /// Set whenever the persisted record changed; the storage
    /// collaborator saves and then calls `mark_saved`.
    pub should_save: bool,
    /// Palette the player chose in the menu, `0..PALETTE_COUNT`.
    pub curr_palette_idx: i64,
    pub enemy_spawn: Vec<SpawnEnemy>,
    pub enemies: Vec<Enemy>,
    pub bullets: Vec<Bullet>,
    pub collectibles: Vec<Collectibe>,
    pub circle_attacks: Vec<CircleAttack>,
    pub upgrades: Vec<Collectibe>,
    pub player: Player,
    pub wave: Wave,
    /// Upgrade options offered per wave.
    pub upgrade_count: i64,
    /// Selected menu entry, `0..MENU_ITEMS`.
    pub menu_selected: i64,
    pub music_level: i64,
    pub effect_level: i64,
    /// Time left of the colour-switch flash; at `SWITCH_IDLE` when resting.
    pub switch_effect_t: i64,
    /// Full length of the colour-switch flash.
    pub switch_effect_total: i64,
}

impl Game {
    /// The whole-game invariant: every pool element and every scalar is
    /// inside its documented range.  It holds after `Game::default` and
    /// after every frame.
    pub open spec fn wf(self) -> bool {
        &&& self.player.wf()
        &&& self.wave.wf()
        &&& 0 <= self.high_score <= SCORE_CAP
        &&& 0 <= self.current_score <= SCORE_CAP
        &&& 0 <= self.curr_palette_idx < PALETTE_COUNT
        &&& 0 <= self.menu_selected < MENU_ITEMS
        &&& 0 <= self.music_level <= VOLUME_MAX
        &&& 0 <= self.effect_level <= VOLUME_MAX
        &&& 1 <= self.upgrade_count <= 10
        &&& -3000 <= self.switch_effect_t <= 1000
        &&& 1 <= self.switch_effect_total <= 1000
        &&& forall|i: int| 0 <= i < self.enemy_spawn@.len()
            ==> (#[trigger] self.enemy_spawn@[i]).wf() && self.enemy_spawn@[i].spawn_t > 0
        &&& forall|i: int| 0 <= i < self.enemies@.len()
            ==> (#[trigger] self.enemies@[i]).wf()
        &&& forall|i: int| 0 <= i < self.bullets@.len()
            ==> (#[trigger] self.bullets@[i]).wf()
        &&& forall|i: int| 0 <= i < self.collectibles@.len()
            ==> (#[trigger] self.collectibles@[i]).wf()
                && self.collectibles@[i].should_exist
        &&& forall|i: int| 0 <= i < self.circle_attacks@.len()
            ==> (#[trigger] self.circle_attacks@[i]).wf()
                && self.circle_attacks@[i].radius < HAZARD_RADIUS_MAX
        &&& forall|i: int| 0 <= i < self.upgrades@.len()
            ==> (#[trigger] self.upgrades@[i]).wf()
    }

    /// A fresh game at the main menu.
    pub fn default() -> (g: Game)
        ensures
            g.wf(),
            g.game_state == GameState::MainMenu,
            g.color_state == ColorState::Primary,
            g.unlocks == (Unlocks { orangegreen: false, purpleyellow: false }),
            g.high_score == 0,
            g.current_score == 0,
            !g.should_save,
            g.curr_palette_idx == 0,
            g.enemy_spawn@ =~= Seq::<SpawnEnemy>::empty(),
            g.enemies@ =~= Seq::<Enemy>::empty(),
            g.bullets@ =~= Seq::<Bullet>::empty(),
            g.collectibles@ =~= Seq::<Collectibe>::empty(),
            g.circle_attacks@ =~= Seq::<CircleAttack>::empty(),
            g.upgrades@ =~= Seq::<Collectibe>::empty(),
            g.player == Player::start_spec(),
            g.wave == Wave::default_spec(),
            g.upgrade_count == UPGRADE_COUNT,
            g.menu_selected == 0,
            g.music_level == VOLUME_MAX,
            g.effect_level == VOLUME_MAX,
            g.switch_effect_t == SWITCH_IDLE,
            g.switch_effect_total == SWITCH_EFFECT_MS,
    {
        Game {
            game_state: GameState::MainMenu,
            color_state: ColorState::Primary,
            unlocks: Unlocks { orangegreen: false, purpleyellow: false },
            high_score: 0,
            current_score: 0,
            should_save: false,
            curr_palette_idx: 0,
            enemy_spawn: Vec::new(),
            enemies: Vec::new(),
            bullets: Vec::new(),
            collectibles: Vec::new(),
            circle_attacks: Vec::new(),
            upgrades: Vec::new(),
            player: Player::default(),
            wave: Wave::default(),
            upgrade_count: UPGRADE_COUNT,
            menu_selected: 0,
            music_level: VOLUME_MAX,
            effect_level: VOLUME_MAX,
            switch_effect_t: SWITCH_IDLE,
            switch_effect_total: SWITCH_EFFECT_MS,
        }
    }

    /// The palette actually shown: a chosen palette that is not yet
    /// unlocked falls back to the first one.
    pub open spec fn active_palette_spec(self) -> int {
        if self.curr_palette_idx == 1 && !self.unlocks.orangegreen {
            0
        } else if self.curr_palette_idx == 2 && !self.unlocks.purpleyellow {
            0
        } else {
            self.curr_palette_idx as int
        }
    }

    /// The palette actually shown.
    pub fn active_palette(&self) -> (r: i64)
        requires
            self.wf(),
        ensures
            r == self.active_palette_spec(),
            0 <= r < PALETTE_COUNT,
    {
        if self.curr_palette_idx == 1 && !self.unlocks.orangegreen {
            0
        } else if self.curr_palette_idx == 2 && !self.unlocks.purpleyellow {
            0
        } else {
            self.curr_palette_idx
        }
    }

    /// The record the storage collaborator persists.
    pub fn record(&self) -> (r: GameRecord)
        ensures
            r == (GameRecord {
                high_score: self.high_score,
                orange_green_unlocked: self.unlocks.orangegreen,
                purple_yellow_unlocked: self.unlocks.purpleyellow,
                music_level: self.music_level,
                effect_level: self.effect_level,
            }),
    {
        GameRecord {
            high_score: self.high_score,
            orange_green_unlocked: self.unlocks.orangegreen,
            purple_yellow_unlocked: self.unlocks.purpleyellow,
            music_level: self.music_level,
            effect_level: self.effect_level,
        }
    }

    /// Takes over a loaded record, clamping each value into its range.
    pub fn apply_record(&mut self, r: &GameRecord)
        requires
            old(self).wf(),
        ensures
            final(self).wf(),
            final(self).high_score == clamp_spec(r.high_score as int, 0, SCORE_CAP as int),
            final(self).unlocks == (Unlocks {
                orangegreen: r.orange_green_unlocked,
                purpleyellow: r.purple_yellow_unlocked,
            }),
            final(self).music_level == clamp_spec(r.music_level as int, 0, VOLUME_MAX as int),
            final(self).effect_level == clamp_spec(r.effect_level as int, 0,
                VOLUME_MAX as int),
            *final(self) == (Game {
                high_score: final(self).high_score,
                unlocks: final(self).unlocks,
                music_level: final(self).music_level,
                effect_level: final(self).effect_level,
                ..*old(self)
            }),
    {
        self.high_score = clamp_i64(r.high_score, 0, SCORE_CAP);
        self.unlocks = Unlocks {
            orangegreen: r.orange_green_unlocked,
            purpleyellow: r.purple_yellow_unlocked,
        };
        self.music_level = clamp_i64(r.music_level, 0, VOLUME_MAX);
        self.effect_level = clamp_i64(r.effect_level, 0, VOLUME_MAX);
    }

    /// The storage collaborator calls this once the record is written.
    pub fn mark_saved(&mut self)
        requires
            old(self).wf(),
        ensures
            final(self).wf(),
            !final(self).should_save,
            *final(self) == (Game { should_save: false, ..*old(self) }),
    {
        self.should_save = false;
    }

    /// A ten-character gauge for a volume level: `v` filled marks, then
    /// dots.
    pub fn level_bar(v: i64) -> (r: String)
        requires
            0 <= v <= VOLUME_MAX,
        ensures
            r@.len() == VOLUME_MAX,
            forall|i: int| 0 <= i < v ==> r@[i] == 'O',
            forall|i: int| v <= i < VOLUME_MAX ==> r@[i] == '.',
    {
        proof {
            reveal_strlit("O");
            reveal_strlit(".");
        }
        let mut r = String::new();
        let mut i: i64 = 0;
        while i < v
            invariant
                0 <= i <= v <= VOLUME_MAX,
                r@.len() == i,
                forall|k: int| 0 <= k < i ==> r@[k] == 'O',
            decreases v - i,
        {
            proof {
                reveal_strlit("O");
            }
            r.append("O");
            i = i + 1;
        }
        while i < VOLUME_MAX
            invariant
                0 <= v <= i <= VOLUME_MAX,
                r@.len() == i,
                forall|k: int| 0 <= k < v ==> r@[k] == 'O',
                forall|k: int| v <= k < i ==> r@[k] == '.',
            decreases VOLUME_MAX - i,
        {
            proof {
                reveal_strlit(".");
            }
            r.append(".");
            i = i + 1;
        }
        r
    }
}

/// A menu selection after the up and down keys are applied, clamped to
/// the menu's entries.
pub open spec fn nav_sel(sel: int, up: bool, down: bool) -> int {
    let s1 = if up { if sel - 1 < 0 { 0int } else { sel - 1 } } else { sel };
    if down { if s1 + 1 > MENU_ITEMS - 1 { MENU_ITEMS - 1 } else { s1 + 1 } } else { s1 }
}

/// A volume level after the left and right keys are applied, clamped to
/// the gauge.
pub open spec fn adj_level(v: int, left: bool, right: bool) -> int {
    let v1 = if left { if v - 1 < 0 { 0int } else { v - 1 } } else { v };
    if right { if v1 + 1 > VOLUME_MAX { VOLUME_MAX as int } else { v1 + 1 } } else { v1 }
}

/// A palette index after the left and right keys are applied, wrapping
/// at both ends.
pub open spec fn cycle_palette(idx: int, left: bool, right: bool) -> int {
    let i1 = if left { if idx - 1 < 0 { PALETTE_COUNT - 1 } else { idx - 1 } } else { idx };
    if right { if i1 + 1 > PALETTE_COUNT - 1 { 0int } else { i1 + 1 } } else { i1 }
}

/// What one menu frame guarantees, relating the state before to the
/// state after: confirm on the first entry starts a run, the selection
/// and the adjustable entries follow the keys, and nothing else moves.
pub open spec fn menu_frame(pre: Game, post: Game, input: InputFrame) -> bool {
    &&& post.game_state == (if input.confirm && pre.menu_selected == 0 {
        GameState::Playing
    } else {
        pre.game_state
    })
    &&& post.menu_selected == nav_sel(pre.menu_selected as int, input.menu_up,
        input.menu_down)
    &&& post.music_level == (if post.menu_selected == 1 {
        adj_level(pre.music_level as int, input.menu_left, input.menu_right)
    } else {
        pre.music_level as int
    })
    &&& post.effect_level == (if post.menu_selected == 2 {
        adj_level(pre.effect_level as int, input.menu_left, input.menu_right)
    } else {
        pre.effect_level as int
    })
    &&& post.curr_palette_idx == (if post.menu_selected == 3 {
        cycle_palette(pre.curr_palette_idx as int, input.menu_left, input.menu_right)
    } else {
        pre.curr_palette_idx as int
    })
    &&& post.should_save == (pre.should_save || (post.menu_selected == 1
        || post.menu_selected == 2) && (input.menu_left || input.menu_right))
    &&& post == (Game {
        game_state: post.game_state,
        menu_selected: post.menu_selected,
        music_level: post.music_level,
        effect_level: post.effect_level,
        curr_palette_idx: post.curr_palette_idx,
        should_save: post.should_save,
        ..pre
    })
}

/// The stat fields the upgrade pickups shift.
pub open spec fn same_stats(a: Player, b: Player) -> bool {
    &&& a.max_health == b.max_health
    &&& a.damage == b.damage
    &&& a.spread == b.spread
    &&& a.projectiles == b.projectiles
    &&& a.move_speed == b.move_speed
    &&& a.bullet_size == b.bullet_size
    &&& a.bullet_speed == b.bullet_speed
    &&& a.attack_speed == b.attack_speed
}

/// Equal stats stay equal under the same upgrade.
pub proof fn lemma_upgraded_same_stats(a: Player, b: Player, kind: CollectibeKind)
    requires
        same_stats(a, b),
    ensures
        same_stats(a.upgraded(kind), b.upgraded(kind)),
{
}

/// Whether this frame ends the run: the player is dead or gives up.
pub open spec fn run_ends(pre: Game, input: InputFrame) -> bool {
    pre.player.health == 0 || input.escape
}

/// What one frame of play guarantees, relating the state before to the
/// state after: deep waves latch their unlocks; a run that ends banks
/// the high score and resets to the menu with only the fresh start
/// marker on the floor; the recentering glide moves the player along
/// its line and suspends everything else; a finished wave advances the
/// index and clears its one-shot flags; and the frame an upgrade is
/// picked, exactly the first touched offer's stat deltas reach the
/// player and no offer is left.
pub open spec fn playing_frame(pre: Game, post: Game, input: InputFrame, dt: int) -> bool {
    &&& post.unlocks.orangegreen == (pre.unlocks.orangegreen
        || pre.wave.current >= UNLOCK_WAVE_ORANGE_GREEN)
    &&& post.unlocks.purpleyellow == (pre.unlocks.purpleyellow
        || pre.wave.current >= UNLOCK_WAVE_PURPLE_YELLOW)
    &&& post.high_score == (if run_ends(pre, input)
        && pre.current_score > pre.high_score {
        pre.current_score as int
    } else {
        pre.high_score as int
    })
    &&& post.should_save == (pre.should_save
        || pre.wave.current >= UNLOCK_WAVE_ORANGE_GREEN
        || (run_ends(pre, input) && pre.current_score > pre.high_score))
    &&& run_ends(pre, input) ==> {
        &&& post.game_state == GameState::MainMenu
        &&& post.current_score == 0
        &&& post.enemies@.len() == 0
        &&& post.enemy_spawn@.len() == 0
        &&& post.circle_attacks@.len() == 0
        &&& post.upgrades@.len() == 0
        &&& post.collectibles@.len() == 1
        &&& post.collectibles@[0] == start_cube_spec()
        &&& post.wave.current == 0
        &&& post.wave.state == WaveState::Start
    }
    &&& !run_ends(pre, input) ==> (post.wave.current == pre.wave.current
        || post.wave.current == pre.wave.current + 1)
    &&& (!pre.wave.upgrade_picked && post.wave.upgrade_picked) ==> {
        &&& post.upgrades@.len() == 0
        &&& exists|k: int| 0 <= k < pre.upgrades@.len() && same_stats(post.player,
            pre.player.upgraded((#[trigger] pre.upgrades@[k]).kind))
    }
    &&& (!run_ends(pre, input) && !pre.wave.move_player
        && pre.wave.state == WaveState::Spawning && pre.wave.enemies_set
        && pre.wave.enemy_remaining == 0 && post.enemy_spawn@.len() == 0
        && post.enemies@.len() == 0) ==> {
        &&& post.wave.state == WaveState::Start
        &&& post.wave.current == (if pre.wave.current < WAVE_CAP {
            pre.wave.current + 1
        } else {
            WAVE_CAP as int
        })
        &&& !post.wave.upgrade_picked
        &&& !post.wave.enemies_set
        &&& !post.wave.start_spawned
        &&& !post.wave.upgrades_spawned
        &&& post.wave.spawn_delay_t == 0
    }
    &&& (!run_ends(pre, input) && pre.wave.move_player) ==> ({
        let t_after = clamp_spec(pre.wave.move_player_t - dt, TIMER_FLOOR as int, 10_000);
        if t_after < 0 {
            post == (Game {
                wave: (Wave {
                    move_player: false,
                    move_player_t: t_after as i64,
                    ..pre.wave
                }),
                unlocks: post.unlocks,
                should_save: post.should_save,
                ..pre
            })
        } else {
            let dest_x = ARENA_W / 2 - pre.player.size / 2;
            let run_ms = pre.wave.move_player_tmax - t_after;
            let gx = clamp_spec(pre.wave.old_x + tdiv_spec((dest_x - pre.wave.old_x)
                * run_ms, pre.wave.move_player_tmax as int), -POS_LIMIT as int,
                POS_LIMIT as int);
            let gy = clamp_spec(pre.wave.old_y + tdiv_spec((PLAYER_START_Y
                - pre.wave.old_y) * run_ms, pre.wave.move_player_tmax as int),
                -POS_LIMIT as int, POS_LIMIT as int);
            post == (Game {
                player: (Player { x: gx as i64, y: gy as i64, ..pre.player }),
                wave: (Wave { move_player_t: t_after as i64, ..pre.wave }),
                unlocks: post.unlocks,
                should_save: post.should_save,
                ..pre
            })
        }
    })
}

impl Game {
    /// One frame of the main menu: confirm on the first entry starts a
    /// run; up and down move the selection; left and right adjust the
    /// entry under the cursor (music volume, effect volume, or palette).
    /// Volume changes mark the record dirty.  Every navigation step
    /// raises one `MenuChanged` sound.
    #[verifier::rlimit(100)]
    pub fn menu_update(&mut self, input: &InputFrame, events: &mut Vec<AudioEvent>)
        requires
            old(self).wf(),
        ensures
            final(self).wf(),
            menu_frame(*old(self), *final(self), *input),
            forall|i: int| 0 <= i < old(events)@.len()
                ==> final(events)@[i] == old(events)@[i],
            forall|i: int| old(events)@.len() <= i < final(events)@.len()
                ==> (#[trigger] final(events)@[i]).kind == AudioKind::MenuChanged,
            old(events)@.len() <= final(events)@.len(),
    {
        if input.confirm && self.menu_selected == 0 {
            self.game_state = GameState::Playing;
        }

        if input.menu_up {
            self.menu_selected = clamp_i64(self.menu_selected - 1, 0, MENU_ITEMS - 1);
            events.push(AudioEvent { kind: AudioKind::MenuChanged, volume: self.effect_level });
        }
        if input.menu_down {
            self.menu_selected = clamp_i64(self.menu_selected + 1, 0, MENU_ITEMS - 1);
            events.push(AudioEvent { kind: AudioKind::MenuChanged, volume: self.effect_level });
        }

        if self.menu_selected == 1 {
            if input.menu_left {
                self.music_level = clamp_i64(self.music_level - 1, 0, VOLUME_MAX);
                events.push(AudioEvent {
                    kind: AudioKind::MenuChanged,
                    volume: self.effect_level,
                });
                self.should_save = true;
            }
            if input.menu_right {
                self.music_level = clamp_i64(self.music_level + 1, 0, VOLUME_MAX);
                events.push(AudioEvent {
                    kind: AudioKind::MenuChanged,
                    volume: self.effect_level,
                });
                self.should_save = true;
            }
        }

        if self.menu_selected == 2 {
            if input.menu_left {
                self.effect_level = clamp_i64(self.effect_level - 1, 0, VOLUME_MAX);
                events.push(AudioEvent {
                    kind: AudioKind::MenuChanged,
                    volume: self.effect_level,
                });
                self.should_save = true;
            }
            if input.menu_right {
                self.effect_level = clamp_i64(self.effect_level + 1, 0, VOLUME_MAX);
                events.push(AudioEvent {
                    kind: AudioKind::MenuChanged,
                    volume: self.effect_level,
                });
                self.should_save = true;
            }
        }

        if self.menu_selected == 3 {
            if input.menu_left {
                if self.curr_palette_idx - 1 < 0 {
                    self.curr_palette_idx = PALETTE_COUNT - 1;
                } else {
                    self.curr_palette_idx = self.curr_palette_idx - 1;
                }
                events.push(AudioEvent {
                    kind: AudioKind::MenuChanged,
                    volume: self.effect_level,
                });
            }
            if input.menu_right {
                if self.curr_palette_idx + 1 > PALETTE_COUNT - 1 {
                    self.curr_palette_idx = 0;
                } else {
                    self.curr_palette_idx = self.curr_palette_idx + 1;
                }
                events.push(AudioEvent {
                    kind: AudioKind::MenuChanged,
                    volume: self.effect_level,
                });
            }
        }
    }
}

/// The start marker against the player: touching it sends the wave
/// machine into `Spawning`, clears both offer flags and removes the
/// marker.
pub fn update_start_cube(c: &mut Collectibe, p: &Player, w: &mut Wave)
    requires
        old(c).wf(),
        p.wf(),
        old(w).wf(),
    ensures
        final(c).wf(),
        final(w).wf(),
        ({
            let touched = rects_overlap(old(c).rect_spec(), p.rect_spec());
            &&& touched ==> *final(c) == (Collectibe { should_exist: false, ..*old(c) })
                && *final(w) == (Wave {
                    state: WaveState::Spawning,
                    start_spawned: false,
                    upgrades_spawned: false,
                    ..*old(w)
                })
            &&& !touched ==> *final(c) == *old(c) && *final(w) == *old(w)
        }),
        final(w).current == old(w).current,
{
    let c_rect = c.get_rect();
    let p_rect = p.get_rect();
    if rect_collide(&c_rect, &p_rect) {
        w.state = WaveState::Spawning;
        c.should_exist = false;
        w.start_spawned = false;
        w.upgrades_spawned = false;
    }
}

/// Whether the player's touch consumes this collectible this frame.
pub open spec fn marker_taken(c: Collectibe, p: Player) -> bool {
    c.kind == CollectibeKind::StartCube && rects_overlap(c.rect_spec(), p.rect_spec())
}

/// The collectibles that survive a frame against this player.
pub open spec fn untaken_by(p: Player) -> spec_fn(Collectibe) -> bool {
    (|c: Collectibe| !marker_taken(c, p))
}

/// The start marker, a square in the middle of the arena.
pub open spec fn start_cube_spec() -> Collectibe {
    Collectibe {
        x: (ARENA_W / 2 - START_CUBE_SIZE / 2) as i64,
        y: (ARENA_H / 2 - START_CUBE_SIZE / 2) as i64,
        size: START_CUBE_SIZE,
        kind: CollectibeKind::StartCube,
        should_exist: true,
    }
}

impl Game {
    /// Starts the between-waves recentering animation: the projectile
    /// and hazard pools are wiped and the player's position is recorded
    /// as the glide's starting point.
    pub fn move_player(&mut self)
        requires
            old(self).wf(),
        ensures
            final(self).wf(),
            final(self).bullets@ =~= Seq::<Bullet>::empty(),
            final(self).circle_attacks@ =~= Seq::<CircleAttack>::empty(),
            final(self).wave == (Wave {
                move_player: true,
                move_player_t: old(self).wave.move_player_tmax,
                old_x: old(self).player.x,
                old_y: old(self).player.y,
                ..old(self).wave
            }),
            *final(self) == (Game {
                bullets: final(self).bullets,
                circle_attacks: final(self).circle_attacks,
                wave: final(self).wave,
                ..*old(self)
            }),
    {
        self.bullets = Vec::new();
        self.circle_attacks = Vec::new();
        self.wave.move_player = true;
        self.wave.move_player_t = self.wave.move_player_tmax;
        self.wave.old_x = self.player.x;
        self.wave.old_y = self.player.y;
    }

    /// Puts the start marker in the middle of the arena, once per visit
    /// to the `Start` state of wave zero.
    pub fn spawn_start_cube(&mut self)
        requires
            old(self).wf(),
            old(self).wave.state == WaveState::Start,
        ensures
            final(self).wf(),
            final(self).collectibles@ == old(self).collectibles@.push(start_cube_spec()),
            final(self).wave == (Wave { start_spawned: true, ..old(self).wave }),
            *final(self) == (Game {
                collectibles: final(self).collectibles,
                wave: final(self).wave,
                ..*old(self)
            }),
    {
        let cube = Collectibe {
            x: ARENA_W / 2 - START_CUBE_SIZE / 2,
            y: ARENA_H / 2 - START_CUBE_SIZE / 2,
            size: START_CUBE_SIZE,
            kind: CollectibeKind::StartCube,
            should_exist: true,
        };
        self.collectibles.push(cube);
        self.wave.start_spawned = true;
    }

    /// Lays out the wave's upgrade offer: `upgrade_count` pickups of
    /// random kinds in a row around the arena centre, then starts the
    /// recentering animation.
    pub fn spawn_upgrades(&mut self)
        requires
            old(self).wf(),
            old(self).wave.state == WaveState::Start,
        ensures
            final(self).wf(),
            final(self).upgrades@.len() == old(self).upgrades@.len()
                + old(self).upgrade_count,
            forall|i: int| 0 <= i < old(self).upgrades@.len()
                ==> final(self).upgrades@[i] == old(self).upgrades@[i],
            // the offers stand in one evenly spaced row around the
            // arena centre, each of one of the five upgrade kinds
            forall|i: int| old(self).upgrades@.len() <= i < final(self).upgrades@.len()
                ==> (#[trigger] final(self).upgrades@[i]).wf()
                    && final(self).upgrades@[i].should_exist
                    && final(self).upgrades@[i].kind != CollectibeKind::StartCube
                    && final(self).upgrades@[i].x == upgrade_slot_x(
                        old(self).upgrade_count as int, i - old(self).upgrades@.len())
                    && final(self).upgrades@[i].y == ARENA_H / 2 - UPGRADE_SIZE / 2
                    && final(self).upgrades@[i].size == UPGRADE_SIZE
                    && exists|t: int| 0 <= t < UPG_KIND_COUNT
                        && final(self).upgrades@[i].kind == upg_kind_spec(t),
            final(self).bullets@ =~= Seq::<Bullet>::empty(),
            final(self).circle_attacks@ =~= Seq::<CircleAttack>::empty(),
            final(self).wave == (Wave {
                upgrades_spawned: true,
                move_player: true,
                move_player_t: old(self).wave.move_player_tmax,
                old_x: old(self).player.x,
                old_y: old(self).player.y,
                ..old(self).wave
            }),
            *final(self) == (Game {
                upgrades: final(self).upgrades,
                bullets: final(self).bullets,
                circle_attacks: final(self).circle_attacks,
                wave: final(self).wave,
                ..*old(self)
            }),
    {
        let n = self.upgrade_count;
        let total = UPGRADE_SIZE * n + UPGRADE_PADDING * (n - 1);
        let start = total / 2;
        let ghost upg0 = self.upgrades@;
        let mut i: i64 = 0;
        while i < n
            invariant
                0 <= i <= n,
                1 <= n <= 10,
                0 <= start <= 2_000_000,
                n == old(self).upgrade_count,
                upg0 == old(self).upgrades@,
                start == (UPGRADE_SIZE * n + UPGRADE_PADDING * (n - 1)) / 2,
                old(self).wf(),
                *self == (Game { upgrades: self.upgrades, ..*old(self) }),
                self.upgrades@.len() == upg0.len() + i,
                forall|k: int| 0 <= k < upg0.len() ==> self.upgrades@[k] == upg0[k],
                forall|k: int| upg0.len() <= k < self.upgrades@.len()
                    ==> (#[trigger] self.upgrades@[k]).wf()
                        && self.upgrades@[k].should_exist
                        && self.upgrades@[k].kind != CollectibeKind::StartCube
                        && self.upgrades@[k].x == upgrade_slot_x(n as int, k - upg0.len())
                        && self.upgrades@[k].y == ARENA_H / 2 - UPGRADE_SIZE / 2
                        && self.upgrades@[k].size == UPGRADE_SIZE
                        && exists|t: int| 0 <= t < UPG_KIND_COUNT
                            && self.upgrades@[k].kind == upg_kind_spec(t),
            decreases n - i,
        {
            let pick = gen_range_i64(0, UPG_KIND_COUNT);
            let kind = upg_kind(pick);
            proof {
                assert(upg_kind_spec(pick as int) != CollectibeKind::StartCube);
                assert(kind == upg_kind_spec(pick as int));
                assert(0 <= i * (UPGRADE_SIZE + UPGRADE_PADDING) <= 2_200_000)
                    by (nonlinear_arith)
                    requires
                        0 <= i <= 10,
                        UPGRADE_SIZE == 100_000,
                        UPGRADE_PADDING == 120_000;
            }
            let entry = Collectibe {
                x: ARENA_W / 2 - start + i * (UPGRADE_SIZE + UPGRADE_PADDING),
                y: ARENA_H / 2 - UPGRADE_SIZE / 2,
                size: UPGRADE_SIZE,
                kind,
                should_exist: true,
            };
            self.upgrades.push(entry);
            i = i + 1;
        }
        proof {
            assert forall|k: int| 0 <= k < self.upgrades@.len() implies
                (#[trigger] self.upgrades@[k]).wf() by {
                if k < upg0.len() {
                    assert(self.upgrades@[k] == upg0[k]);
                    assert(old(self).upgrades@[k].wf());
                }
            }
            assert(self.wf());
        }
        self.move_player();
        self.wave.upgrades_spawned = true;
    }

    /// One frame of the pending-spawn pool: every telegraph counts down;
    /// those that elapse place their enemy and leave the pool.
    pub fn spawners_pass(&mut self, dt: i64)
        requires
            old(self).wf(),
            0 <= dt <= MAX_FRAME_MS,
        ensures
            final(self).wf(),
            old(self).enemies@.len() <= final(self).enemies@.len(),
            forall|i: int| 0 <= i < old(self).enemies@.len()
                ==> final(self).enemies@[i] == old(self).enemies@[i],
            // every telegraph either survives or places exactly one enemy
            final(self).enemy_spawn@.len() + final(self).enemies@.len()
                == old(self).enemy_spawn@.len() + old(self).enemies@.len(),
            final(self).enemy_spawn@.len() <= old(self).enemy_spawn@.len(),
            // exactly the still-counting telegraphs survive, in order
            final(self).enemy_spawn@ == old(self).enemy_spawn@.map_values(
                spawn_ticker(dt as int)).filter(still_pending()),
            // exactly the elapsed telegraphs join the live pool, in order
            final(self).enemies@ == old(self).enemies@ + old(self).enemy_spawn@.map_values(
                spawn_ticker(dt as int)).filter(spawn_elapsed()).map_values(spawn_payload()),
            *final(self) == (Game {
                enemy_spawn: final(self).enemy_spawn,
                enemies: final(self).enemies,
                ..*old(self)
            }),
    {
        let n = self.enemy_spawn.len();
        let mut kept: Vec<SpawnEnemy> = Vec::new();
        let ghost enemies0 = self.enemies@;
        let ghost ticker = spawn_ticker(dt as int);
        let ghost pending = still_pending();
        let ghost elapsed = spawn_elapsed();
        let ghost payload = spawn_payload();
        let mut i: usize = 0;
        while i < n
            invariant
                0 <= i <= n,
                kept@.len() + self.enemies@.len() == i + enemies0.len(),
                n == old(self).enemy_spawn@.len(),
                self.enemy_spawn@ == old(self).enemy_spawn@,
                enemies0 == old(self).enemies@,
                ticker == spawn_ticker(dt as int),
                pending == still_pending(),
                elapsed == spawn_elapsed(),
                payload == spawn_payload(),
                forall|k: int| 0 <= k < n
                    ==> (#[trigger] self.enemy_spawn@[k]).wf()
                        && self.enemy_spawn@[k].spawn_t > 0,
                0 <= dt <= MAX_FRAME_MS,
                kept@ == old(self).enemy_spawn@.subrange(0, i as int).map_values(
                    ticker).filter(pending),
                self.enemies@ == enemies0 + old(self).enemy_spawn@.subrange(0,
                    i as int).map_values(ticker).filter(elapsed).map_values(payload),
                forall|k: int| 0 <= k < self.enemies@.len()
                    ==> (#[trigger] self.enemies@[k]).wf(),
                forall|k: int| 0 <= k < kept@.len()
                    ==> (#[trigger] kept@[k]).wf() && kept@[k].spawn_t > 0,
                *self == (Game {
                    enemies: self.enemies,
                    ..*old(self)
                }),
            decreases n - i,
        {
            let ghost kept_before = kept@;
            let ghost enemies_before = self.enemies@;
            let mut s = self.enemy_spawn[i];
            update_spawning(&mut s, &mut self.enemies, dt);
            if s.spawn_t > 0 {
                kept.push(s);
            }
            proof {
                reveal(Seq::filter);
                let all = old(self).enemy_spawn@;
                let t0 = all.subrange(0, i as int).map_values(ticker);
                let t1 = all.subrange(0, i + 1).map_values(ticker);
                assert(t1.drop_last() =~= t0);
                assert(t1.last() == ticker(all[i as int]));
                assert(s == ticker(all[i as int]));
                if s.spawn_t > 0 {
                    assert(kept@ =~= kept_before.push(s));
                    assert(self.enemies@ == enemies_before);
                    assert(t1.filter(elapsed) =~= t0.filter(elapsed));
                } else {
                    assert(t1.filter(elapsed) =~= t0.filter(elapsed).push(s));
                    assert(t1.filter(elapsed).map_values(payload)
                        =~= t0.filter(elapsed).map_values(payload).push(payload(s)));
                    assert(self.enemies@ =~= enemies_before.push(payload(s)));
                    assert(self.enemies@ =~= enemies0 + t1.filter(elapsed).map_values(
                        payload));
                }
                assert(kept@ =~= t1.filter(pending));
            }
            i = i + 1;
        }
        proof {
            assert(old(self).enemy_spawn@.subrange(0, n as int)
                =~= old(self).enemy_spawn@);
        }
        self.enemy_spawn = kept;
    }

    /// One frame of the hazard pool: every ring grows and may land its
    /// one hit; rings past the radius ceiling are culled.
    pub fn circles_pass(&mut self, dt: i64, events: &mut Vec<AudioEvent>)
        requires
            old(self).wf(),
            0 <= dt <= MAX_FRAME_MS,
        ensures
            final(self).wf(),
            final(self).player == (Player {
                health: final(self).player.health,
                ..old(self).player
            }),
            // each qualifying hit costs the fixed ring damage, floored at
            // zero health
            final(self).player.health == ({
                let hits = ring_hit_count(old(self).circle_attacks@, old(self).player,
                    old(self).color_state, dt as int);
                if old(self).player.health - HAZARD_DAMAGE * hits < 0 {
                    0int
                } else {
                    old(self).player.health - HAZARD_DAMAGE * hits
                }
            }),
            // exactly the grown rings below the ceiling survive, in order
            final(self).circle_attacks@ == old(self).circle_attacks@.map_values(
                ring_stepper(old(self).player, old(self).color_state, dt as int)).filter(
                ring_survives()),
            *final(self) == (Game {
                circle_attacks: final(self).circle_attacks,
                player: final(self).player,
                ..*old(self)
            }),
            forall|i: int| 0 <= i < old(events)@.len()
                ==> final(events)@[i] == old(events)@[i],
            forall|i: int| old(events)@.len() <= i < final(events)@.len()
                ==> (#[trigger] final(events)@[i]).kind == AudioKind::PlayerHit,
            old(events)@.len() <= final(events)@.len(),
    {
        let n = self.circle_attacks.len();
        let mut kept: Vec<CircleAttack> = Vec::new();
        let ghost stepper = ring_stepper(old(self).player, old(self).color_state, dt as int);
        let ghost survives = ring_survives();
        let mut i: usize = 0;
        while i < n
            invariant
                0 <= i <= n,
                n == old(self).circle_attacks@.len(),
                self.circle_attacks@ == old(self).circle_attacks@,
                forall|k: int| 0 <= k < n
                    ==> (#[trigger] self.circle_attacks@[k]).wf()
                        && self.circle_attacks@[k].radius < HAZARD_RADIUS_MAX,
                0 <= dt <= MAX_FRAME_MS,
                self.player.wf(),
                self.player == (Player {
                    health: self.player.health,
                    ..old(self).player
                }),
                self.color_state == old(self).color_state,
                stepper == ring_stepper(old(self).player, old(self).color_state, dt as int),
                survives == ring_survives(),
                kept@ == old(self).circle_attacks@.subrange(0, i as int).map_values(
                    stepper).filter(survives),
                0 <= ring_hit_count(old(self).circle_attacks@.subrange(0, i as int),
                    old(self).player, old(self).color_state, dt as int),
                self.player.health == ({
                    let hits = ring_hit_count(old(self).circle_attacks@.subrange(0,
                        i as int), old(self).player, old(self).color_state, dt as int);
                    if old(self).player.health - HAZARD_DAMAGE * hits < 0 {
                        0int
                    } else {
                        old(self).player.health - HAZARD_DAMAGE * hits
                    }
                }),
                forall|k: int| 0 <= k < kept@.len()
                    ==> (#[trigger] kept@[k]).wf() && kept@[k].radius < HAZARD_RADIUS_MAX,
                *self == (Game { player: self.player, ..*old(self) }),
                forall|k: int| 0 <= k < old(events)@.len()
                    ==> events@[k] == old(events)@[k],
                forall|k: int| old(events)@.len() <= k < events@.len()
                    ==> (#[trigger] events@[k]).kind == AudioKind::PlayerHit,
                old(events)@.len() <= events@.len(),
            decreases n - i,
        {
            let ghost kept_before = kept@;
            let ghost player_cur = self.player;
            let mut c = self.circle_attacks[i];
            let hurt = circle_step(&mut c, &mut self.player, self.color_state, dt);
            if hurt {
                events.push(AudioEvent {
                    kind: AudioKind::PlayerHit,
                    volume: self.effect_level,
                });
            }
            if c.radius < HAZARD_RADIUS_MAX {
                kept.push(c);
            }
            proof {
                reveal(Seq::filter);
                let all = old(self).circle_attacks@;
                // the step only reads the player's position and size,
                // which no ring changes
                assert(player_cur.x == old(self).player.x
                    && player_cur.y == old(self).player.y
                    && player_cur.size == old(self).player.size);
                assert(in_band(player_cur, all[i as int].x as int, all[i as int].y as int,
                    CircleAttack::grown(all[i as int].radius as int, dt as int))
                    == in_band(old(self).player, all[i as int].x as int,
                        all[i as int].y as int,
                        CircleAttack::grown(all[i as int].radius as int, dt as int)));
                assert(ring_hits(all[i as int], player_cur, old(self).color_state,
                    dt as int) == ring_hits(all[i as int], old(self).player,
                    old(self).color_state, dt as int));
                assert(c == stepper(all[i as int]));
                // the hit count grows by one exactly on a qualifying hit
                let sub0 = all.subrange(0, i as int);
                let sub1 = all.subrange(0, i + 1);
                assert(sub1.drop_last() =~= sub0);
                assert(sub1.last() == all[i as int]);
                assert(ring_hit_count(sub1, old(self).player, old(self).color_state,
                    dt as int) == ring_hit_count(sub0, old(self).player,
                    old(self).color_state, dt as int) + (if ring_hits(all[i as int],
                    old(self).player, old(self).color_state, dt as int) {
                    1int
                } else {
                    0int
                }));
                let m0 = all.subrange(0, i as int).map_values(stepper);
                let m1 = all.subrange(0, i + 1).map_values(stepper);
                assert(m1.drop_last() =~= m0);
                assert(m1.last() == stepper(all[i as int]));
                assert((c.radius < HAZARD_RADIUS_MAX) == survives(c));
                if c.radius < HAZARD_RADIUS_MAX {
                    assert(kept@ =~= kept_before.push(c));
                }
                assert(kept@ =~= m1.filter(survives));
            }
            i = i + 1;
        }
        proof {
            assert(old(self).circle_attacks@.subrange(0, n as int)
                =~= old(self).circle_attacks@);
        }
        self.circle_attacks = kept;
    }

    /// One frame of the collectible pool: the start marker reacts to the
    /// player's touch; picked-up collectibles leave the pool.
    pub fn collectibles_pass(&mut self)
        requires
            old(self).wf(),
        ensures
            final(self).wf(),
            final(self).wave.current == old(self).wave.current,
            final(self).wave.move_player == old(self).wave.move_player,
            final(self).wave.upgrade_picked == old(self).wave.upgrade_picked,
            final(self).wave == old(self).wave || final(self).wave == (Wave {
                state: WaveState::Spawning,
                start_spawned: false,
                upgrades_spawned: false,
                ..old(self).wave
            }),
            (forall|i: int| 0 <= i < old(self).collectibles@.len()
                ==> !marker_taken(#[trigger] old(self).collectibles@[i],
                    old(self).player)) ==> final(self).wave == old(self).wave,
            forall|i: int| 0 <= i < final(self).collectibles@.len()
                ==> (#[trigger] final(self).collectibles@[i]).should_exist,
            // exactly the untaken collectibles survive, in order
            final(self).collectibles@ == old(self).collectibles@.filter(
                untaken_by(old(self).player)),
            *final(self) == (Game {
                collectibles: final(self).collectibles,
                wave: final(self).wave,
                ..*old(self)
            }),
    {
        let n = self.collectibles.len();
        let mut kept: Vec<Collectibe> = Vec::new();
        let ghost wave0 = old(self).wave;
        let ghost keep_pred = untaken_by(old(self).player);
        let mut i: usize = 0;
        while i < n
            invariant
                0 <= i <= n,
                n == old(self).collectibles@.len(),
                self.collectibles@ == old(self).collectibles@,
                forall|k: int| 0 <= k < n
                    ==> (#[trigger] self.collectibles@[k]).wf()
                        && self.collectibles@[k].should_exist,
                self.player.wf(),
                self.player == old(self).player,
                self.wave.wf(),
                self.wave == wave0 || self.wave == (Wave {
                    state: WaveState::Spawning,
                    start_spawned: false,
                    upgrades_spawned: false,
                    ..wave0
                }),
                (forall|k: int| 0 <= k < n
                    ==> !marker_taken(#[trigger] old(self).collectibles@[k],
                        old(self).player)) ==> self.wave == wave0,
                keep_pred == untaken_by(old(self).player),
                kept@ == old(self).collectibles@.subrange(0, i as int).filter(keep_pred),
                forall|k: int| 0 <= k < kept@.len()
                    ==> (#[trigger] kept@[k]).wf() && kept@[k].should_exist,
                *self == (Game { wave: self.wave, ..*old(self) }),
            decreases n - i,
        {
            let ghost kept_before = kept@;
            let mut c = self.collectibles[i];
            if c.kind == CollectibeKind::StartCube {
                update_start_cube(&mut c, &self.player, &mut self.wave);
            }
            if c.should_exist {
                kept.push(c);
            }
            proof {
                reveal(Seq::filter);
                let all = old(self).collectibles@;
                let sub1 = all.subrange(0, i + 1);
                assert(sub1.drop_last() =~= all.subrange(0, i as int));
                assert(sub1.last() == all[i as int]);
                assert(c.should_exist <==> keep_pred(all[i as int]));
                if c.should_exist {
                    assert(c == all[i as int]);
                    assert(kept@ =~= kept_before.push(all[i as int]));
                }
                assert(kept@ =~= sub1.filter(keep_pred));
            }
            i = i + 1;
        }
        proof {
            assert(old(self).collectibles@.subrange(0, n as int)
                =~= old(self).collectibles@);
        }
        self.collectibles = kept;
    }

    /// One frame of the live enemy pool: timers run, each kind acts,
    /// contact with the player is resolved, and dead enemies leave the
    /// pool, paying out their score.
    pub fn enemies_pass(&mut self, dt: i64, events: &mut Vec<AudioEvent>)
        requires
            old(self).wf(),
            0 <= dt <= MAX_FRAME_MS,
        ensures
            final(self).wf(),
            forall|i: int| 0 <= i < final(self).enemies@.len()
                ==> (#[trigger] final(self).enemies@[i]).health > 0,
            // exactly the survivors of each enemy's acted, contact-resolved
            // step remain, in order
            final(self).enemies@ == old(self).enemies@.map_values(enemy_stepper(
                old(self).player, old(self).color_state, dt as int)).filter(enemy_alive()),
            final(self).player == (Player {
                health: final(self).player.health,
                ..old(self).player
            }),
            old(self).current_score <= final(self).current_score,
            // every culled enemy pays out its score, saturating at the cap
            final(self).current_score == clamp_spec(old(self).current_score + payout(
                old(self).enemies@, enemy_stepper(old(self).player, old(self).color_state,
                dt as int)), 0, SCORE_CAP as int),
            old(self).bullets@.len() <= final(self).bullets@.len(),
            forall|i: int| 0 <= i < old(self).bullets@.len()
                ==> final(self).bullets@[i] == old(self).bullets@[i],
            old(self).circle_attacks@.len() <= final(self).circle_attacks@.len(),
            forall|i: int| 0 <= i < old(self).circle_attacks@.len()
                ==> final(self).circle_attacks@[i] == old(self).circle_attacks@[i],
            final(self).circle_attacks@.len() <= old(self).circle_attacks@.len()
                + old(self).enemies@.len(),
            *final(self) == (Game {
                enemies: final(self).enemies,
                bullets: final(self).bullets,
                circle_attacks: final(self).circle_attacks,
                player: final(self).player,
                current_score: final(self).current_score,
                ..*old(self)
            }),
            forall|i: int| 0 <= i < old(events)@.len()
                ==> final(events)@[i] == old(events)@[i],
            forall|i: int| old(events)@.len() <= i < final(events)@.len()
                ==> ((#[trigger] final(events)@[i]).kind == AudioKind::PlayerHit
                    || final(events)@[i].kind == AudioKind::EnemyKilled),
            old(events)@.len() <= final(events)@.len(),
    {
        let n = self.enemies.len();
        let mut kept: Vec<Enemy> = Vec::new();
        let ghost stepper = enemy_stepper(old(self).player, old(self).color_state,
            dt as int);
        let ghost alive = enemy_alive();
        let mut i: usize = 0;
        while i < n
            invariant
                0 <= i <= n,
                n == old(self).enemies@.len(),
                self.enemies@ == old(self).enemies@,
                forall|k: int| 0 <= k < n ==> (#[trigger] self.enemies@[k]).wf(),
                0 <= dt <= MAX_FRAME_MS,
                stepper == enemy_stepper(old(self).player, old(self).color_state,
                    dt as int),
                alive == enemy_alive(),
                kept@ == old(self).enemies@.subrange(0, i as int).map_values(
                    stepper).filter(alive),
                0 <= old(self).current_score,
                0 <= payout(old(self).enemies@.subrange(0, i as int), stepper),
                self.current_score == clamp_spec(old(self).current_score + payout(
                    old(self).enemies@.subrange(0, i as int), stepper), 0,
                    SCORE_CAP as int),
                self.player.wf(),
                self.player == (Player { health: self.player.health, ..old(self).player }),
                old(self).bullets@.len() <= self.bullets@.len(),
                forall|k: int| 0 <= k < old(self).bullets@.len()
                    ==> self.bullets@[k] == old(self).bullets@[k],
                forall|k: int| 0 <= k < self.bullets@.len()
                    ==> (#[trigger] self.bullets@[k]).wf(),
                forall|k: int| 0 <= k < self.circle_attacks@.len()
                    ==> (#[trigger] self.circle_attacks@[k]).wf()
                        && self.circle_attacks@[k].radius < HAZARD_RADIUS_MAX,
                old(self).circle_attacks@.len() <= self.circle_attacks@.len(),
                forall|k: int| 0 <= k < old(self).circle_attacks@.len()
                    ==> self.circle_attacks@[k] == old(self).circle_attacks@[k],
                self.circle_attacks@.len() <= old(self).circle_attacks@.len() + i,
                old(self).current_score <= self.current_score <= SCORE_CAP,
                forall|k: int| 0 <= k < kept@.len()
                    ==> (#[trigger] kept@[k]).wf() && kept@[k].health > 0,
                *self == (Game {
                    bullets: self.bullets,
                    circle_attacks: self.circle_attacks,
                    player: self.player,
                    current_score: self.current_score,
                    ..*old(self)
                }),
                forall|k: int| 0 <= k < old(events)@.len()
                    ==> events@[k] == old(events)@[k],
                forall|k: int| old(events)@.len() <= k < events@.len()
                    ==> ((#[trigger] events@[k]).kind == AudioKind::PlayerHit
                        || events@[k].kind == AudioKind::EnemyKilled),
                old(events)@.len() <= events@.len(),
            decreases n - i,
        {
            let ghost kept_before = kept@;
            let ghost player_cur = self.player;
            let mut e = self.enemies[i];
            if e.attack_t >= 0 {
                e.attack_t = e.attack_t - dt;
            }
            proof {
                let all = old(self).enemies@;
                assert(e == (Enemy {
                    attack_t: cooled(all[i as int].attack_t as int, dt as int) as i64,
                    ..all[i as int]
                }));
            }
            match e.kind {
                EnemyType::FollowEnemy => {
                    update_follow_enemy(&mut e, self.player.x, self.player.y, dt);
                },
                EnemyType::FollowShootEnemy => {
                    update_follow_shoot_enemy(&mut e, self.player.x, self.player.y,
                        self.color_state, &mut self.bullets, dt);
                },
                EnemyType::StaticCircleAttack => {
                    update_static_circle_enemy(&mut e, self.color_state,
                        &mut self.circle_attacks, dt);
                },
            }
            proof {
                let all = old(self).enemies@;
                assert(player_cur.x == old(self).player.x
                    && player_cur.y == old(self).player.y
                    && player_cur.size == old(self).player.size);
                assert(e == acted_enemy(all[i as int], old(self).player.x as int,
                    old(self).player.y as int, old(self).color_state, dt as int));
            }
            let ghost acted = e;
            let hurt = enemy_collision(&mut e, &mut self.player, self.color_state);
            if hurt {
                events.push(AudioEvent {
                    kind: AudioKind::PlayerHit,
                    volume: self.effect_level,
                });
            }
            proof {
                let all = old(self).enemies@;
                assert(e == contact_resolved(acted, old(self).player));
                assert(e == stepper(all[i as int]));
            }
            if e.health <= 0 {
                self.current_score = clamp_i64(self.current_score + e.score, 0, SCORE_CAP);
                events.push(AudioEvent {
                    kind: AudioKind::EnemyKilled,
                    volume: self.effect_level,
                });
            } else {
                kept.push(e);
            }
            proof {
                reveal(Seq::filter);
                let all = old(self).enemies@;
                let m0 = all.subrange(0, i as int).map_values(stepper);
                let m1 = all.subrange(0, i + 1).map_values(stepper);
                assert(m1.drop_last() =~= m0);
                assert(m1.last() == stepper(all[i as int]));
                assert((e.health > 0) == alive(e));
                if e.health > 0 {
                    assert(kept@ =~= kept_before.push(e));
                }
                assert(kept@ =~= m1.filter(alive));
                // the payout grows by this enemy's score exactly when it
                // leaves the pool dead
                let sub0 = all.subrange(0, i as int);
                let sub1 = all.subrange(0, i + 1);
                assert(sub1.drop_last() =~= sub0);
                assert(sub1.last() == all[i as int]);
                assert(payout(sub1, stepper) == payout(sub0, stepper)
                    + (if stepper(all[i as int]).health <= 0 {
                        stepper(all[i as int]).score as int
                    } else {
                        0int
                    }));
                assert(e == stepper(all[i as int]));
                assert(0 <= e.score);
            }
            i = i + 1;
        }
        proof {
            assert(old(self).enemies@.subrange(0, n as int) =~= old(self).enemies@);
        }
        self.enemies = kept;
    }

    /// One frame of the upgrade offer.  The first option the player
    /// touches — and only that one — applies its stat delta, sends the
    /// wave machine into `Spawning`, and clears the whole offer the same
    /// frame, so exactly one upgrade is honoured per wave.
    pub fn upgrades_pass(&mut self)
        requires
            old(self).wf(),
        ensures
            final(self).wf(),
            old(self).wave.upgrade_picked ==> final(self).upgrades@.len() == 0
                && final(self).player == old(self).player
                && final(self).wave == old(self).wave,
            !old(self).wave.upgrade_picked && final(self).wave.upgrade_picked ==> {
                &&& final(self).upgrades@.len() == 0
                &&& exists|k: int| 0 <= k < old(self).upgrades@.len()
                    && rects_overlap(old(self).player.rect_spec(),
                        (#[trigger] old(self).upgrades@[k]).rect_spec())
                    && final(self).player == old(self).player.upgraded(
                        old(self).upgrades@[k].kind)
                    && (forall|j: int| 0 <= j < k ==> !rects_overlap(
                        old(self).player.rect_spec(),
                        (#[trigger] old(self).upgrades@[j]).rect_spec()))
                &&& final(self).wave == (Wave {
                    state: WaveState::Spawning,
                    upgrades_spawned: false,
                    start_spawned: false,
                    upgrade_picked: true,
                    ..old(self).wave
                })
            },
            !old(self).wave.upgrade_picked && !final(self).wave.upgrade_picked ==> {
                &&& final(self).upgrades@ == old(self).upgrades@
                &&& final(self).player == old(self).player
                &&& final(self).wave == old(self).wave
                &&& forall|j: int| 0 <= j < old(self).upgrades@.len() ==> !rects_overlap(
                    old(self).player.rect_spec(),
                    (#[trigger] old(self).upgrades@[j]).rect_spec())
            },
            final(self).player.health == old(self).player.health,
            *final(self) == (Game {
                upgrades: final(self).upgrades,
                player: final(self).player,
                wave: final(self).wave,
                ..*old(self)
            }),
    {
        let n = self.upgrades.len();
        let ghost mut kpick: int = -1;
        let mut i: usize = 0;
        while i < n
            invariant
                0 <= i <= n,
                n == old(self).upgrades@.len(),
                self.upgrades@ == old(self).upgrades@,
                forall|k: int| 0 <= k < n ==> (#[trigger] self.upgrades@[k]).wf(),
                self.player.wf(),
                self.wave.wf(),
                old(self).wave.upgrade_picked ==> self.player == old(self).player
                    && self.wave == old(self).wave,
                !old(self).wave.upgrade_picked && !self.wave.upgrade_picked ==> {
                    &&& self.player == old(self).player
                    &&& self.wave == old(self).wave
                    &&& forall|j: int| 0 <= j < i ==> !rects_overlap(
                        old(self).player.rect_spec(),
                        (#[trigger] old(self).upgrades@[j]).rect_spec())
                },
                !old(self).wave.upgrade_picked && self.wave.upgrade_picked ==> {
                    &&& 0 <= kpick < i
                    &&& rects_overlap(old(self).player.rect_spec(),
                        old(self).upgrades@[kpick].rect_spec())
                    &&& self.player == old(self).player.upgraded(
                        old(self).upgrades@[kpick].kind)
                    &&& forall|j: int| 0 <= j < kpick ==> !rects_overlap(
                        old(self).player.rect_spec(),
                        (#[trigger] old(self).upgrades@[j]).rect_spec())
                    &&& self.wave == (Wave {
                        state: WaveState::Spawning,
                        upgrades_spawned: false,
                        start_spawned: false,
                        upgrade_picked: true,
                        ..old(self).wave
                    })
                },
                self.player.health == old(self).player.health,
                *self == (Game {
                    upgrades: self.upgrades,
                    player: self.player,
                    wave: self.wave,
                    ..*old(self)
                }),
            decreases n - i,
        {
            if !self.wave.upgrade_picked {
                let u = self.upgrades[i];
                let u_rect = u.get_rect();
                let p_rect = self.player.get_rect();
                if rect_collide(&p_rect, &u_rect) {
                    self.wave.state = WaveState::Spawning;
                    self.wave.upgrades_spawned = false;
                    self.wave.start_spawned = false;
                    self.wave.upgrade_picked = true;
                    self.player.apply_upgrade(u.kind);
                    proof {
                        kpick = i as int;
                    }
                }
            }
            i = i + 1;
        }
        if self.wave.upgrade_picked {
            self.upgrades = Vec::new();
        }
    }

    /// One frame of the bullet pool: every bullet flies its step; one
    /// that has left the arena is culled at once and is never tested for
    /// collision; the rest resolve against the enemy pool or the player.
    /// Consumed bullets leave the pool, so every surviving bullet is
    /// inside the arena and unconsumed.
    pub fn bullets_pass(&mut self, dt: i64, events: &mut Vec<AudioEvent>)
        requires
            old(self).wf(),
            0 <= dt <= MAX_FRAME_MS,
        ensures
            final(self).wf(),
            forall|i: int| 0 <= i < final(self).bullets@.len()
                ==> (#[trigger] final(self).bullets@[i]).in_arena()
                    && !final(self).bullets@[i].hit,
            // exactly the flown bullets that touch nothing survive, in order
            final(self).bullets@ == old(self).bullets@.map_values(bullet_flight(
                dt as int)).filter(bullet_survives(old(self).enemies@, old(self).player)),
            final(self).player == (Player {
                health: final(self).player.health,
                ..old(self).player
            }),
            final(self).enemies@.len() == old(self).enemies@.len(),
            // the pass can only cost enemies health, nothing else
            forall|j: int| 0 <= j < final(self).enemies@.len()
                ==> (#[trigger] final(self).enemies@[j]) == (Enemy {
                    health: final(self).enemies@[j].health,
                    ..old(self).enemies@[j]
                }) && final(self).enemies@[j].health <= old(self).enemies@[j].health,
            // each enemy soaks the damage stat once per in-arena player
            // bullet that overlaps it, saturating at the health floor
            forall|j: int| 0 <= j < final(self).enemies@.len()
                ==> (#[trigger] final(self).enemies@[j]).health == ({
                    let need = old(self).enemies@[j].health - old(self).player.damage
                        * enemy_hit_count(old(self).bullets@, old(self).enemies@[j],
                        dt as int);
                    if need < ENEMY_HEALTH_FLOOR { ENEMY_HEALTH_FLOOR as int } else { need }
                }),
            // only enemy bullets touch the player: heal on a matching
            // tag, hurt otherwise, in pool order
            final(self).player == player_after_bullets(old(self).bullets@,
                old(self).player, old(self).color_state, dt as int),
            *final(self) == (Game {
                bullets: final(self).bullets,
                enemies: final(self).enemies,
                player: final(self).player,
                ..*old(self)
            }),
            forall|i: int| 0 <= i < old(events)@.len()
                ==> final(events)@[i] == old(events)@[i],
            forall|i: int| old(events)@.len() <= i < final(events)@.len()
                ==> (#[trigger] final(events)@[i]).kind == AudioKind::PlayerHit,
            old(events)@.len() <= final(events)@.len(),
    {
        let n = self.bullets.len();
        let mut kept: Vec<Bullet> = Vec::new();
        let ghost flight = bullet_flight(dt as int);
        let ghost survives = bullet_survives(old(self).enemies@, old(self).player);
        let mut i: usize = 0;
        while i < n
            invariant
                0 <= i <= n,
                n == old(self).bullets@.len(),
                self.bullets@ == old(self).bullets@,
                flight == bullet_flight(dt as int),
                survives == bullet_survives(old(self).enemies@, old(self).player),
                kept@ == old(self).bullets@.subrange(0, i as int).map_values(
                    flight).filter(survives),
                forall|k: int| 0 <= k < n ==> (#[trigger] self.bullets@[k]).wf(),
                0 <= dt <= MAX_FRAME_MS,
                self.player.wf(),
                self.player == (Player { health: self.player.health, ..old(self).player }),
                self.enemies@.len() == old(self).enemies@.len(),
                forall|k: int| 0 <= k < self.enemies@.len()
                    ==> (#[trigger] self.enemies@[k]).wf(),
                forall|k: int| 0 <= k < self.enemies@.len()
                    ==> (#[trigger] self.enemies@[k]) == (Enemy {
                        health: self.enemies@[k].health,
                        ..old(self).enemies@[k]
                    }) && self.enemies@[k].health <= old(self).enemies@[k].health,
                forall|k: int| 0 <= k < self.enemies@.len()
                    ==> (#[trigger] self.enemies@[k]).health == ({
                        let need = old(self).enemies@[k].health - old(self).player.damage
                            * enemy_hit_count(old(self).bullets@.subrange(0, i as int),
                            old(self).enemies@[k], dt as int);
                        if need < ENEMY_HEALTH_FLOOR { ENEMY_HEALTH_FLOOR as int } else {
                            need
                        }
                    }),
                self.player == player_after_bullets(old(self).bullets@.subrange(0,
                    i as int), old(self).player, old(self).color_state, dt as int),
                forall|k: int| 0 <= k < kept@.len()
                    ==> (#[trigger] kept@[k]).wf() && kept@[k].in_arena() && !kept@[k].hit,
                *self == (Game {
                    enemies: self.enemies,
                    player: self.player,
                    ..*old(self)
                }),
                forall|k: int| 0 <= k < old(events)@.len()
                    ==> events@[k] == old(events)@[k],
                forall|k: int| old(events)@.len() <= k < events@.len()
                    ==> (#[trigger] events@[k]).kind == AudioKind::PlayerHit,
                old(events)@.len() <= events@.len(),
            decreases n - i,
        {
            let ghost kept_before = kept@;
            let ghost enemies_pre = self.enemies@;
            let ghost player_pre = self.player;
            let mut b = self.bullets[i];
            b.update(dt);
            let ghost shot = b;
            proof {
                assert(shot == flight(old(self).bullets@[i as int]));
            }
            if b.x < 0 || b.y < 0 || b.x > ARENA_W || b.y > ARENA_H {
                // out of the arena: culled without any collision test
                b.hit = true;
            } else {
                match b.kind {
                    BulletKind::PlayerBullet => {
                        let ghost prev = self.enemies@;
                        bullet_enemy_coll(&mut b, &mut self.enemies, self.player.damage);
                        proof {
                            assert forall|k: int| 0 <= k < self.enemies@.len() implies
                                (#[trigger] self.enemies@[k]) == (Enemy {
                                    health: self.enemies@[k].health,
                                    ..old(self).enemies@[k]
                                }) && self.enemies@[k].health
                                    <= old(self).enemies@[k].health by {
                                assert(prev[k] == (Enemy {
                                    health: prev[k].health,
                                    ..old(self).enemies@[k]
                                }));
                                assert(self.enemies@[k] == (if bullet_hits_enemy(shot,
                                    prev[k]) {
                                    damaged(prev[k], self.player.damage as int)
                                } else {
                                    prev[k]
                                }));
                            }
                            // consumption reads only rectangles, and no
                            // rectangle moves during the pass
                            let all_e = old(self).enemies@;
                            assert forall|j: int| 0 <= j < prev.len() implies
                                (bullet_hits_enemy(shot, #[trigger] prev[j])
                                    == bullet_hits_enemy(shot, all_e[j])) by {
                                assert(prev[j] == (Enemy {
                                    health: prev[j].health,
                                    ..all_e[j]
                                }));
                            }
                            let had_cur = exists|j: int| 0 <= j < prev.len()
                                && bullet_hits_enemy(shot, #[trigger] prev[j]);
                            let had_old = exists|j: int| 0 <= j < all_e.len()
                                && bullet_hits_enemy(shot, #[trigger] all_e[j]);
                            if had_cur {
                                let j = choose|j: int| 0 <= j < prev.len()
                                    && bullet_hits_enemy(shot, #[trigger] prev[j]);
                                assert(bullet_hits_enemy(shot, all_e[j]));
                                assert(had_old);
                            }
                            if had_old {
                                let j = choose|j: int| 0 <= j < all_e.len()
                                    && bullet_hits_enemy(shot, #[trigger] all_e[j]);
                                assert(bullet_hits_enemy(shot, prev[j]));
                                assert(had_cur);
                            }
                            assert(b.hit == (shot.hit || had_old));
                            if !had_old {
                                assert forall|j: int| 0 <= j < all_e.len() implies
                                    !bullet_hits_enemy(shot, #[trigger] all_e[j]) by {
                                    if bullet_hits_enemy(shot, all_e[j]) {
                                        assert(had_old);
                                    }
                                }
                            }
                        }
                    },
                    BulletKind::EnemyBullet => {
                        let ghost player_at = self.player;
                        let hurt = bullet_player_coll(&mut b, &mut self.player,
                            self.color_state);
                        if hurt {
                            events.push(AudioEvent {
                                kind: AudioKind::PlayerHit,
                                volume: self.effect_level,
                            });
                        }
                        proof {
                            assert(player_at.x == old(self).player.x
                                && player_at.y == old(self).player.y
                                && player_at.size == old(self).player.size);
                            assert(b.hit == (shot.hit || rects_overlap(
                                old(self).player.rect_spec(), shot.rect_spec())));
                        }
                    },
                }
            }
            if !b.hit {
                kept.push(b);
            }
            proof {
                reveal(Seq::filter);
                let all = old(self).bullets@;
                let all_e = old(self).enemies@;
                let m0 = all.subrange(0, i as int).map_values(flight);
                let m1 = all.subrange(0, i + 1).map_values(flight);
                assert(m1.drop_last() =~= m0);
                assert(m1.last() == shot);
                assert((!b.hit) == survives(shot));
                if !b.hit {
                    assert(b == shot);
                    assert(kept@ =~= kept_before.push(shot));
                }
                assert(kept@ =~= m1.filter(survives));
                // this bullet's contribution to each enemy's hit count
                // and to the player fold
                let bsub0 = all.subrange(0, i as int);
                let bsub1 = all.subrange(0, i + 1);
                assert(bsub1.drop_last() =~= bsub0);
                assert(bsub1.last() == all[i as int]);
                let d = old(self).player.damage as int;
                assert forall|j: int| 0 <= j < all_e.len() implies
                    (#[trigger] self.enemies@[j]).health == ({
                        let need = all_e[j].health - d * enemy_hit_count(bsub1, all_e[j],
                            dt as int);
                        if need < ENEMY_HEALTH_FLOOR { ENEMY_HEALTH_FLOOR as int } else {
                            need
                        }
                    }) by {
                    let k0 = enemy_hit_count(bsub0, all_e[j], dt as int);
                    let touches = shot.in_arena() && shot.kind == BulletKind::PlayerBullet
                        && bullet_hits_enemy(shot, all_e[j]);
                    assert(enemy_hit_count(bsub1, all_e[j], dt as int)
                        == k0 + (if touches { 1int } else { 0int }));
                    assert(enemies_pre[j].health == ({
                        let need = all_e[j].health - d * k0;
                        if need < ENEMY_HEALTH_FLOOR { ENEMY_HEALTH_FLOOR as int } else {
                            need
                        }
                    }));
                    assert(enemies_pre[j] == (Enemy {
                        health: enemies_pre[j].health,
                        ..all_e[j]
                    }));
                    if touches {
                        assert(bullet_hits_enemy(shot, enemies_pre[j]));
                        assert(self.enemies@[j] == damaged(enemies_pre[j], d));
                        assert(d * (k0 + 1) == d * k0 + d) by (nonlinear_arith);
                    } else {
                        if shot.in_arena() && shot.kind == BulletKind::PlayerBullet {
                            assert(!bullet_hits_enemy(shot, enemies_pre[j]));
                        }
                        assert(self.enemies@[j] == enemies_pre[j]);
                    }
                }
                assert(player_after_bullets(bsub1, old(self).player,
                    old(self).color_state, dt as int) == bullet_applied(shot,
                    player_after_bullets(bsub0, old(self).player, old(self).color_state,
                    dt as int), old(self).color_state));
                assert(self.player == bullet_applied(shot, player_pre,
                    old(self).color_state));
            }
            i = i + 1;
        }
        proof {
            assert(old(self).bullets@.subrange(0, n as int) =~= old(self).bullets@);
        }
        self.bullets = kept;
    }

    /// One frame of the colour-switch flash: the toggle key arms the
    /// timer; when the timer runs out the global colour state flips,
    /// exactly once per key press.
    pub fn color_switch_step(&mut self, toggle: bool, dt: i64)
        requires
            old(self).wf(),
            0 <= dt <= MAX_FRAME_MS,
        ensures
            final(self).wf(),
            ({
                let t1 = if toggle { old(self).switch_effect_total as int } else {
                    old(self).switch_effect_t as int
                };
                let t2 = if t1 >= 0 { t1 - dt } else { t1 };
                let flipped = t2 <= 0 && t2 > SWITCH_TRIGGER_FLOOR;
                &&& final(self).color_state == (if flipped {
                    old(self).color_state.flip()
                } else {
                    old(self).color_state
                })
                &&& final(self).switch_effect_t == (if flipped { SWITCH_IDLE as int } else {
                    t2
                })
            }),
            *final(self) == (Game {
                color_state: final(self).color_state,
                switch_effect_t: final(self).switch_effect_t,
                ..*old(self)
            }),
    {
        if toggle {
            self.switch_effect_t = self.switch_effect_total;
        }
        if self.switch_effect_t >= 0 {
            self.switch_effect_t = self.switch_effect_t - dt;
        }
        if self.switch_effect_t <= 0 && self.switch_effect_t > SWITCH_TRIGGER_FLOOR {
            self.color_state = self.color_state.next();
            self.switch_effect_t = SWITCH_IDLE;
        }
    }

    /// Every bullet of the pool is inside the arena and unconsumed; the
    /// state in which each frame leaves the pool.
    pub open spec fn bullets_settled(self) -> bool {
        forall|i: int| 0 <= i < self.bullets@.len()
            ==> (#[trigger] self.bullets@[i]).in_arena() && !self.bullets@[i].hit
    }

    /// One frame of play.  Deep waves unlock palettes; a dead player (or
    /// the escape key) banks the high score and resets the run to the
    /// menu; the recentering animation, while it runs, suspends all
    /// other simulation for the frame; otherwise the player, every pool,
    /// the colour switch and the wave machine each take their step.
    #[verifier::rlimit(100)]
    pub fn game_update(&mut self, input: &InputFrame, dt: i64,
        events: &mut Vec<AudioEvent>)
        requires
            old(self).wf(),
            old(self).bullets_settled(),
            0 <= dt <= MAX_FRAME_MS,
        ensures
            final(self).wf(),
            final(self).bullets_settled(),
            playing_frame(*old(self), *final(self), *input, dt as int),
            old(events)@.len() <= final(events)@.len(),
            forall|i: int| 0 <= i < old(events)@.len()
                ==> final(events)@[i] == old(events)@[i],
    {
        if self.wave.current >= UNLOCK_WAVE_ORANGE_GREEN {
            self.unlocks.orangegreen = true;
            self.should_save = true;
        }
        if self.wave.current >= UNLOCK_WAVE_PURPLE_YELLOW {
            self.unlocks.purpleyellow = true;
            self.should_save = true;
        }

        if self.player.health <= 0 || input.escape {
            if self.current_score > self.high_score {
                self.high_score = self.current_score;
                self.should_save = true;
            }
            self.player = Player::default();
            self.wave = Wave::default();
            self.enemies = Vec::new();
            self.bullets = Vec::new();
            self.circle_attacks = Vec::new();
            self.collectibles = Vec::new();
            self.upgrades = Vec::new();
            self.enemy_spawn = Vec::new();
            self.current_score = 0;
            self.game_state = GameState::MainMenu;
        }

        if self.wave.move_player {
            // the between-waves glide: every other update is suspended
            self.wave.move_player_t = clamp_i64(self.wave.move_player_t - dt, TIMER_FLOOR,
                10_000);
            if self.wave.move_player_t < 0 {
                self.wave.move_player = false;
                return;
            }
            let dest_x = ARENA_W / 2 - self.player.size / 2;
            let dest_y = PLAYER_START_Y;
            let diff_x = dest_x - self.wave.old_x;
            let diff_y = dest_y - self.wave.old_y;
            let run = self.wave.move_player_tmax - self.wave.move_player_t;
            proof {
                let dx = diff_x as int;
                let dy = diff_y as int;
                let r = run as int;
                assert(-(6_000_000 * 11_000) <= dx * r <= 6_000_000 * 11_000
                    && -(6_000_000 * 11_000) <= dy * r <= 6_000_000 * 11_000)
                    by (nonlinear_arith)
                    requires
                        -6_000_000 <= dx <= 6_000_000,
                        -6_000_000 <= dy <= 6_000_000,
                        -11_000 <= r <= 11_000;
            }
            let sx = tdiv(diff_x * run, self.wave.move_player_tmax);
            let sy = tdiv(diff_y * run, self.wave.move_player_tmax);
            self.player.x = add_clamped(self.wave.old_x, sx);
            self.player.y = add_clamped(self.wave.old_y, sy);
            return;
        }

        let fired = player_update(&mut self.player, input, &mut self.bullets, dt);
        if fired {
            events.push(AudioEvent {
                kind: AudioKind::ShotFired,
                volume: self.effect_level,
            });
        }

        self.spawners_pass(dt);
        self.enemies_pass(dt, events);
        self.circles_pass(dt, events);
        let ghost p_mid = self.player;
        let ghost picked_before = self.wave.upgrade_picked;
        self.upgrades_pass();
        proof {
            // a fresh pick: the first touched offer's deltas reach the
            // player's stats, which no later step of the frame moves
            if !picked_before && self.wave.upgrade_picked {
                let kk = choose|k: int| 0 <= k < old(self).upgrades@.len()
                    && rects_overlap(p_mid.rect_spec(),
                        (#[trigger] old(self).upgrades@[k]).rect_spec())
                    && self.player == p_mid.upgraded(old(self).upgrades@[k].kind)
                    && (forall|j: int| 0 <= j < k ==> !rects_overlap(p_mid.rect_spec(),
                        (#[trigger] old(self).upgrades@[j]).rect_spec()));
                assert(same_stats(p_mid, old(self).player));
                lemma_upgraded_same_stats(p_mid, old(self).player,
                    old(self).upgrades@[kk].kind);
                assert(same_stats(self.player,
                    old(self).player.upgraded(old(self).upgrades@[kk].kind)));
            }
        }
        self.collectibles_pass();
        self.bullets_pass(dt, events);

        self.color_switch_step(input.toggle_color, dt);

        match self.wave.state {
            WaveState::Start => {
                if self.wave.current == 0 && !self.wave.start_spawned {
                    self.spawn_start_cube();
                } else {
                    if !self.wave.upgrades_spawned && self.wave.current > 0 {
                        self.spawn_upgrades();
                    }
                }
            },
            WaveState::Spawning => {
                let live_empty = self.enemies.len() == 0;
                wave_spawning_step(&mut self.wave, &mut self.enemy_spawn, live_empty, dt);
            },
        }
    }

    /// One tick of the whole program: the frame delta is clamped to a
    /// sane maximum, then the active top-level state takes its frame.
    /// Returns the sounds this frame asks for.
    pub fn update(&mut self, input: &InputFrame, dt_ms: i64) -> (events: Vec<AudioEvent>)
        requires
            old(self).wf(),
            old(self).bullets_settled(),
        ensures
            final(self).wf(),
            final(self).bullets_settled(),
            old(self).game_state == GameState::MainMenu
                ==> menu_frame(*old(self), *final(self), *input),
            old(self).game_state == GameState::Playing
                ==> playing_frame(*old(self), *final(self), *input,
                    clamp_spec(dt_ms as int, 0, MAX_FRAME_MS as int)),
            (old(self).game_state == GameState::Paused
                || old(self).game_state == GameState::Score)
                ==> *final(self) == *old(self) && events@.len() == 0,
    {
        let dt = clamp_i64(dt_ms, 0, MAX_FRAME_MS);
        let mut events: Vec<AudioEvent> = Vec::new();
        match self.game_state {
            GameState::MainMenu => {
                self.menu_update(input, &mut events);
            },
            GameState::Playing => {
                self.game_update(input, dt, &mut events);
            },
            _ => {},
        }
        events
    }
}

/// The health invariant: in every state the whole-game invariant
/// reaches — `Game::default` establishes it and every frame of `update`
/// preserves it — the player's health lies between zero and the health
/// ceiling.
pub proof fn lemma_health_within_bounds(g: Game)
    requires
        g.wf(),
    ensures
        0 <= g.player.health <= g.player.max_health,
{
}

/// A position plus a bounded step, kept inside the position box.
fn add_clamped(base: i64, step: i64) -> (r: i64)
    requires
        -POS_LIMIT <= base <= POS_LIMIT,
        -70_000_000_000 <= step <= 70_000_000_000,
    ensures
        r == clamp_spec(base + step, -POS_LIMIT as int, POS_LIMIT as int),
{
    clamp_i64(base + step, -POS_LIMIT, POS_LIMIT)
}

} // verus!
