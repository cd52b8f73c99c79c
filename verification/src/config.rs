//! Tuning constants of the simulation, in the fixed-point units of the
//! crate: milli-pixels for lengths, milliseconds for times, milli-degrees
//! for angles, milli-points for enemy health and player damage.

use vstd::prelude::*;

verus! {

/// Width of the arena in milli-pixels.
pub const ARENA_W: i64 = 1_600_000;

/// Height of the arena in milli-pixels.
pub const ARENA_H: i64 = 900_000;

/// Every position is clamped into `[-POS_LIMIT, POS_LIMIT]` on both axes;
/// the box is far larger than the arena, so the clamp only guards the
/// arithmetic.
pub const POS_LIMIT: i64 = 4_000_000;

/// A frame delta is clamped to this many milliseconds before it is used,
/// so that a stalled frame cannot make the integration step explode.
pub const MAX_FRAME_MS: i64 = 100;

/// Player health at the start of a run, in whole points.
pub const PLAYER_HEALTH_START: i64 = 10;

/// Ceiling on `max_health` however many upgrades are taken.
pub const MAX_HEALTH_CAP: i64 = 1_000_000;

/// Player square side.
pub const PLAYER_SIZE: i64 = 40_000;

/// Player horizontal spawn position (arena centre).
pub const PLAYER_START_X: i64 = 800_000;

/// Player vertical spawn position.
pub const PLAYER_START_Y: i64 = 700_000;

/// Damage of one player bullet against enemy health, in milli-points.
pub const PLAYER_DAMAGE_START: i64 = 1000;

/// Floor under the per-shot damage after projectile upgrades.
pub const PLAYER_DAMAGE_MIN: i64 = 500;

/// Ceiling on the per-shot damage.
pub const PLAYER_DAMAGE_CAP: i64 = 1_000_000;

/// Random shot jitter half-range at the start, in milli-degrees.
pub const PLAYER_SPREAD_START: i64 = 3000;

/// Ceiling on the shot jitter half-range.
pub const PLAYER_SPREAD_CAP: i64 = 180_000;

/// Player movement speed at the start, in pixels per second.
pub const PLAYER_MOVE_SPEED_START: i64 = 300;

/// Ceiling on the movement speed.
pub const PLAYER_MOVE_SPEED_CAP: i64 = 2000;

/// Bullets per shot at the start.
pub const PLAYER_PROJECTILES_START: i64 = 1;

/// Ceiling on bullets per shot.
pub const PLAYER_PROJECTILES_CAP: i64 = 1000;

/// Player bullet radius at the start.
pub const PLAYER_BULLET_SIZE_START: i64 = 6000;

/// Ceiling on the bullet radius.
pub const PLAYER_BULLET_SIZE_CAP: i64 = 100_000;

/// Player bullet speed at the start, in pixels per second.
pub const PLAYER_BULLET_SPEED_START: i64 = 550;

/// Ceiling on any bullet speed.
pub const BULLET_SPEED_CAP: i64 = 2000;

/// Delay between shots, in milliseconds.
pub const PLAYER_ATTACK_SPEED: i64 = 100;

/// Ceiling on any cooldown length, in milliseconds.
pub const COOLDOWN_CAP: i64 = 100_000;

/// Radius of the (inert) melee swing.
pub const PLAYER_MELEE_RANGE: i64 = 80_000;

/// Health restored by a matching-colour hit, in whole points.
pub const HEAL_FROM_MATCH: i64 = 1;

/// Per-frame velocity decay, as the fraction `VEL_DECAY_NUM / VEL_DECAY_DEN`.
pub const VEL_DECAY_NUM: i64 = 85;

/// Denominator of the velocity decay fraction.
pub const VEL_DECAY_DEN: i64 = 100;

/// Offset of a fired bullet from the player corner, both axes.
pub const BULLET_SPAWN_OFFSET: i64 = 15_000;

/// Angular gap between the bullets of one fan, in milli-degrees.
pub const FAN_STEP: i64 = 2000;

/// Damage of one player bullet, in whole player-health points, as carried
/// in the bullet record.
pub const BULLET_DAMAGE: i64 = 1;

/// Ceiling on the damage a bullet record can carry.
pub const BULLET_DAMAGE_CAP: i64 = 1000;

/// Chase speed of a follower enemy, in pixels per second.
pub const FOLLOW_SPEED: i64 = 250;

/// Chase speed of a shooter enemy, in pixels per second.
pub const FOLLOW_SHOOT_SPEED: i64 = 200;

/// Speed of an enemy bullet, in pixels per second.
pub const ENEMY_BULLET_SPEED: i64 = 550;

/// Radius of an enemy bullet.
pub const ENEMY_BULLET_SIZE: i64 = 6000;

/// Ceiling on an enemy square side.
pub const ENEMY_SIZE_CAP: i64 = 200_000;

/// Ceiling on an enemy score value.
pub const ENEMY_SCORE_CAP: i64 = 1000;

/// Ceiling on enemy contact damage, in whole points.
pub const CONTACT_DAMAGE_CAP: i64 = 100;

/// Ceiling on enemy health, in milli-points.
pub const ENEMY_HEALTH_CAP: i64 = 10_000_000;

/// Floor under enemy health: damage saturates here instead of
/// underflowing; any value at or below zero means the enemy is dead.
pub const ENEMY_HEALTH_FLOOR: i64 = -1_000_000;

/// Floor under every cooldown timer.
pub const TIMER_FLOOR: i64 = -1000;

/// A hazard ring starts at this radius.
pub const HAZARD_RADIUS_START: i64 = 1000;

/// A hazard ring is culled once its radius reaches this ceiling.
pub const HAZARD_RADIUS_MAX: i64 = 2_000_000;

/// Per-frame ring growth is `radius * dt / HAZARD_GROWTH_DIV`.
pub const HAZARD_GROWTH_DIV: i64 = 400;

/// Half-thickness of the drawn ring line, used by the proximity band.
pub const HAZARD_THICKNESS: i64 = 2500;

/// Damage of a mismatched ring hit, in whole points.
pub const HAZARD_DAMAGE: i64 = 2;

/// Enemies in wave zero.
pub const WAVE_BASE_ENEMIES: i64 = 20;

/// Extra enemies per later wave.
pub const WAVE_ENEMIES_PER_WAVE: i64 = 3;

/// Delay between spawn bursts in wave zero, in milliseconds.
pub const SPAWN_DELAY_BASE: i64 = 5000;

/// The burst delay shrinks by this much per wave.
pub const SPAWN_DELAY_DECREMENT: i64 = 50;

/// The burst delay never falls below this floor.
pub const SPAWN_DELAY_FLOOR: i64 = 0;

/// Pending spawns emitted per burst, at most.
pub const BURST_SIZE: i64 = 5;

/// A pending spawn turns into a live enemy after this long.
pub const SPAWN_COUNTDOWN: i64 = 2000;

/// Side of the square each burst scatters its spawns over.
pub const BURST_SCATTER: i64 = 300_000;

/// Smallest x of a burst anchor point.
pub const BURST_MIN_X: i64 = 50_000;

/// Largest x of a burst anchor point.
pub const BURST_MAX_X: i64 = 1_200_000;

/// Smallest y of a burst anchor point.
pub const BURST_MIN_Y: i64 = 50_000;

/// Largest y of a burst anchor point.
pub const BURST_MAX_Y: i64 = 550_000;

/// Ceiling on the wave counter.
pub const WAVE_CAP: i64 = 1_000_000;

/// Length of the between-waves recentering animation, in milliseconds.
pub const MOVE_ANIM_MS: i64 = 800;

/// Side of the start marker square.
pub const START_CUBE_SIZE: i64 = 100_000;

/// Side of an upgrade pickup square.
pub const UPGRADE_SIZE: i64 = 100_000;

/// Horizontal gap between two upgrade pickups.
pub const UPGRADE_PADDING: i64 = 120_000;

/// Upgrade options offered per wave.
pub const UPGRADE_COUNT: i64 = 3;

/// Extra max health from the health upgrade, in whole points.
pub const UPG_MAXHP_DELTA: i64 = 1;

/// Extra jitter from the projectile upgrade, in milli-degrees.
pub const UPG_SPREAD_DELTA: i64 = 3000;

/// Damage shift of the projectile and of the heavy-shot upgrade.
pub const UPG_DAMAGE_DELTA: i64 = 1000;

/// Extra bullet radius from the size upgrade.
pub const UPG_BULLET_SIZE_DELTA: i64 = 500;

/// Extra movement speed from the speed upgrade, in pixels per second.
pub const UPG_MOVE_SPEED_DELTA: i64 = 30;

/// Bullet-speed loss from the heavy-shot upgrade, in pixels per second.
pub const UPG_BULLET_SPEED_DELTA: i64 = 30;

/// How long the colour-switch flash lasts, in milliseconds.
pub const SWITCH_EFFECT_MS: i64 = 10;

/// Resting value of the colour-switch timer once the flash has fired.
pub const SWITCH_IDLE: i64 = -2000;

/// The switch timer toggles the state when it falls into
/// `(SWITCH_TRIGGER_FLOOR, 0]`.
pub const SWITCH_TRIGGER_FLOOR: i64 = -1000;

/// Menu entries: play, music volume, effect volume, palette.
pub const MENU_ITEMS: i64 = 4;

/// Volume levels run from 0 to this ceiling.
pub const VOLUME_MAX: i64 = 10;

/// Number of colour palettes.
pub const PALETTE_COUNT: i64 = 3;

/// Reaching this wave unlocks the second palette.
pub const UNLOCK_WAVE_ORANGE_GREEN: i64 = 10;

/// Reaching this wave unlocks the third palette.
pub const UNLOCK_WAVE_PURPLE_YELLOW: i64 = 25;

/// Scores saturate at this ceiling.
pub const SCORE_CAP: i64 = 1_000_000_000;

} // verus!
