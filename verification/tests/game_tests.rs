//! Whole-game frames: the wave machine, the update passes, the menu,
//! and the persisted record.

use color_switch::bullet::{Bullet, BulletKind};
use color_switch::collect::{Collectibe, CollectibeKind};
use color_switch::color::ColorState;
use color_switch::enemy::{template, SpawnEnemy};
use color_switch::game::{AudioEvent, AudioKind, Game, GameRecord, GameState};
use color_switch::input::InputFrame;
use color_switch::player::player_update;
use color_switch::wave::{wave_spawning_step, Wave, WaveState};

#[test]
fn start_marker_opens_wave_zero() {
    // wave index zero, the player overlaps the start marker: the wave
    // state becomes Spawning, the marker is gone, the index is still zero
    let mut g = Game::default();
    g.game_state = GameState::Playing;
    g.spawn_start_cube();
    assert_eq!(g.collectibles.len(), 1);
    g.player.x = 750_000;
    g.player.y = 400_000;
    g.collectibles_pass();
    assert_eq!(g.wave.state, WaveState::Spawning);
    assert_eq!(g.collectibles.len(), 0);
    assert_eq!(g.wave.current, 0);
}

#[test]
fn start_marker_ignores_distant_player() {
    let mut g = Game::default();
    g.spawn_start_cube();
    g.player.x = 100_000;
    g.player.y = 100_000;
    g.collectibles_pass();
    assert_eq!(g.wave.state, WaveState::Start);
    assert_eq!(g.collectibles.len(), 1);
}

#[test]
fn player_bullet_kills_enemy_and_scores() {
    // an enemy of one health point soaks a one-point bullet: its health
    // reaches zero, the enemy pass removes it, and its score is paid out
    let mut g = Game::default();
    let mut e = template(2);
    e.health = 1000;
    e.x = 200_000;
    e.y = 200_000;
    g.enemies.push(e);
    let b = Bullet::new(1, 205_000, 205_000, 0, 0, 6000, 550, BulletKind::PlayerBullet);
    g.bullets.push(b);
    let mut events: Vec<AudioEvent> = Vec::new();
    g.bullets_pass(0, &mut events);
    assert_eq!(g.bullets.len(), 0, "the bullet is consumed");
    assert!(g.enemies[0].health <= 0);
    g.enemies_pass(0, &mut events);
    assert_eq!(g.enemies.len(), 0, "the dead enemy leaves the pool");
    assert_eq!(g.current_score, 5);
    assert!(events.iter().any(|ev| ev.kind == AudioKind::EnemyKilled));
}

#[test]
fn matching_enemy_bullet_heals_player() {
    // an enemy bullet tagged Secondary touches the player while the
    // global state is Secondary: the player heals, capped at the
    // ceiling, and never loses health
    let mut g = Game::default();
    g.color_state = ColorState::Secondary;
    g.player.health = 5;
    let mut b = Bullet::new(1, g.player.x + 20_000, g.player.y + 20_000, 0, 0, 6000, 550,
        BulletKind::EnemyBullet);
    b.state = ColorState::Secondary;
    g.bullets.push(b);
    let mut events: Vec<AudioEvent> = Vec::new();
    g.bullets_pass(0, &mut events);
    assert_eq!(g.player.health, 6);
    assert_eq!(g.bullets.len(), 0, "the bullet is consumed");
    assert!(events.is_empty(), "a healing touch is not a hit");
}

#[test]
fn matching_enemy_bullet_heal_is_capped() {
    let mut g = Game::default();
    g.color_state = ColorState::Secondary;
    let mut b = Bullet::new(1, g.player.x + 20_000, g.player.y + 20_000, 0, 0, 6000, 550,
        BulletKind::EnemyBullet);
    b.state = ColorState::Secondary;
    g.bullets.push(b);
    let mut events: Vec<AudioEvent> = Vec::new();
    g.bullets_pass(0, &mut events);
    assert_eq!(g.player.health, 10);
}

#[test]
fn mismatched_enemy_bullet_hurts_player() {
    let mut g = Game::default();
    g.color_state = ColorState::Primary;
    let mut b = Bullet::new(1, g.player.x + 20_000, g.player.y + 20_000, 0, 0, 6000, 550,
        BulletKind::EnemyBullet);
    b.state = ColorState::Secondary;
    g.bullets.push(b);
    let mut events: Vec<AudioEvent> = Vec::new();
    g.bullets_pass(0, &mut events);
    assert_eq!(g.player.health, 9);
    assert!(events.iter().any(|ev| ev.kind == AudioKind::PlayerHit));
}

#[test]
fn out_of_arena_bullet_is_culled_at_once() {
    // a bullet outside the arena is removed the same frame and is not
    // tested against anything
    let mut g = Game::default();
    g.bullets.push(Bullet::new(1, 1_700_000, 100_000, 0, 0, 6000, 550,
        BulletKind::PlayerBullet));
    g.bullets.push(Bullet::new(1, 100_000, -50_000, 0, 0, 6000, 550,
        BulletKind::EnemyBullet));
    g.bullets.push(Bullet::new(1, 100_000, 100_000, 0, 0, 6000, 550,
        BulletKind::PlayerBullet));
    let mut events: Vec<AudioEvent> = Vec::new();
    g.bullets_pass(0, &mut events);
    assert_eq!(g.bullets.len(), 1, "only the in-arena bullet survives");
    assert_eq!(g.bullets[0].x, 100_000);
    assert_eq!(g.bullets[0].y, 100_000);
    assert_eq!(g.player.health, 10, "the stray enemy bullet never touched the player");
}

#[test]
fn wave_transition_advances_index_and_resets_flags() {
    // the budget is spent and both pools are empty: the index climbs by
    // exactly one and every one-shot flag is cleared
    let mut w = Wave::default();
    w.state = WaveState::Spawning;
    w.enemies_set = true;
    w.enemy_remaining = 0;
    w.upgrade_picked = true;
    let mut pool: Vec<SpawnEnemy> = Vec::new();
    wave_spawning_step(&mut w, &mut pool, true, 16);
    assert_eq!(w.current, 1);
    assert_eq!(w.state, WaveState::Start);
    assert!(!w.upgrade_picked);
    assert!(!w.enemies_set);
    assert!(!w.start_spawned);
    assert!(!w.upgrades_spawned);
    assert_eq!(w.spawn_delay_t, 0, "the burst timer rests at zero between waves");
}

#[test]
fn wave_holds_while_enemies_remain() {
    let mut w = Wave::default();
    w.state = WaveState::Spawning;
    w.enemies_set = true;
    w.enemy_remaining = 3;
    w.spawn_delay_t = 4000;
    let mut pool: Vec<SpawnEnemy> = Vec::new();
    wave_spawning_step(&mut w, &mut pool, false, 16);
    assert_eq!(w.current, 0);
    assert_eq!(w.state, WaveState::Spawning);
}

#[test]
fn first_spawning_frame_sets_budget_and_bursts() {
    let mut w = Wave::default();
    w.state = WaveState::Spawning;
    let mut pool: Vec<SpawnEnemy> = Vec::new();
    wave_spawning_step(&mut w, &mut pool, true, 16);
    // budget 20 for wave zero, one burst of five emitted at once
    assert_eq!(w.enemy_remaining, 15);
    assert_eq!(w.spawn_delay_tmax, 5000);
    assert_eq!(w.spawn_delay_t, 5000);
    assert_eq!(pool.len(), 5);
    for s in pool.iter() {
        assert_eq!(s.spawn_t, 2000);
        assert!(s.x >= 50_000 && s.x < 1_500_000);
        assert!(s.y >= 50_000 && s.y < 850_000);
    }
}

#[test]
fn empty_field_brings_the_burst_forward() {
    // the timer still runs, but with nothing alive or pending the next
    // burst comes at once
    let mut w = Wave::default();
    w.state = WaveState::Spawning;
    w.enemies_set = true;
    w.enemy_remaining = 7;
    w.spawn_delay_t = 4000;
    let mut pool: Vec<SpawnEnemy> = Vec::new();
    wave_spawning_step(&mut w, &mut pool, true, 16);
    assert_eq!(pool.len(), 5);
    assert_eq!(w.enemy_remaining, 2);
}

#[test]
fn final_burst_spends_the_rest_of_the_budget() {
    let mut w = Wave::default();
    w.state = WaveState::Spawning;
    w.enemies_set = true;
    w.enemy_remaining = 2;
    w.spawn_delay_t = 0;
    let mut pool: Vec<SpawnEnemy> = Vec::new();
    wave_spawning_step(&mut w, &mut pool, false, 16);
    assert_eq!(pool.len(), 2);
    assert_eq!(w.enemy_remaining, 0);
}

#[test]
fn first_playing_frame_offers_the_start_marker() {
    let mut g = Game::default();
    g.game_state = GameState::Playing;
    let _ = g.update(&InputFrame::none(), 16);
    assert_eq!(g.collectibles.len(), 1);
    assert!(matches!(g.collectibles[0].kind, CollectibeKind::StartCube));
    assert!(g.wave.start_spawned);
    assert_eq!(g.wave.state, WaveState::Start);
}

#[test]
fn upgrade_offer_is_laid_out_around_centre() {
    let mut g = Game::default();
    g.bullets.push(Bullet::new(1, 100_000, 100_000, 0, 0, 6000, 550,
        BulletKind::PlayerBullet));
    g.spawn_upgrades();
    assert_eq!(g.upgrades.len(), 3);
    let xs: Vec<i64> = g.upgrades.iter().map(|u| u.x).collect();
    assert_eq!(xs, vec![530_000, 750_000, 970_000]);
    for u in g.upgrades.iter() {
        assert_eq!(u.y, 400_000);
        assert_eq!(u.size, 100_000);
        assert!(u.should_exist);
        assert!(matches!(u.kind, CollectibeKind::Maxhp | CollectibeKind::Projectile
            | CollectibeKind::Size | CollectibeKind::Slowdmg | CollectibeKind::Speed));
    }
    assert!(g.wave.move_player, "the recentering glide starts");
    assert!(g.wave.upgrades_spawned);
    assert_eq!(g.bullets.len(), 0, "projectiles are wiped for the intermission");
}

#[test]
fn exactly_one_upgrade_applies_per_pickup() {
    // two overlapping offers: only the first one touched applies its
    // delta, and no offer is left on the floor afterwards
    let mut g = Game::default();
    g.upgrades.push(Collectibe {
        x: g.player.x - 20_000,
        y: g.player.y - 20_000,
        size: 100_000,
        kind: CollectibeKind::Maxhp,
        should_exist: true,
    });
    g.upgrades.push(Collectibe {
        x: g.player.x - 30_000,
        y: g.player.y - 30_000,
        size: 100_000,
        kind: CollectibeKind::Slowdmg,
        should_exist: true,
    });
    g.upgrades_pass();
    assert_eq!(g.player.max_health, 11, "the first offer applied");
    assert_eq!(g.player.damage, 1000, "the second offer did not");
    assert_eq!(g.player.bullet_speed, 550);
    assert_eq!(g.upgrades.len(), 0);
    assert!(g.wave.upgrade_picked);
    assert_eq!(g.wave.state, WaveState::Spawning);
}

#[test]
fn untouched_upgrades_stay_offered() {
    let mut g = Game::default();
    g.upgrades.push(Collectibe {
        x: 100_000,
        y: 100_000,
        size: 100_000,
        kind: CollectibeKind::Maxhp,
        should_exist: true,
    });
    g.upgrades_pass();
    assert_eq!(g.upgrades.len(), 1);
    assert!(!g.wave.upgrade_picked);
    assert_eq!(g.player.max_health, 10);
}

#[test]
fn held_keys_move_the_player() {
    let mut p = color_switch::player::Player::default();
    let mut bullets: Vec<Bullet> = Vec::new();
    let input = InputFrame { move_right: true, ..InputFrame::none() };
    let fired = player_update(&mut p, &input, &mut bullets, 100);
    assert!(!fired);
    // 300 pixels per second over a tenth of a second
    assert_eq!(p.x, 830_000);
    assert_eq!(p.y, 700_000);
    // the velocity then decays for the next frame
    assert_eq!(p.dx, 255_000);
    assert_eq!(p.shoot_dx, 1000, "aim follows the last movement direction");
    assert_eq!(p.shoot_dy, 0);
    assert!(bullets.is_empty());
}

#[test]
fn fire_key_emits_the_fan() {
    let mut p = color_switch::player::Player::default();
    let mut bullets: Vec<Bullet> = Vec::new();
    let input = InputFrame { fire: true, ..InputFrame::none() };
    let fired = player_update(&mut p, &input, &mut bullets, 16);
    assert!(fired);
    assert_eq!(bullets.len(), 1);
    let b = &bullets[0];
    assert_eq!(b.kind, BulletKind::PlayerBullet);
    assert_eq!(b.damage, 1);
    assert_eq!(b.size, 6000);
    assert_eq!(b.speed, 550);
    assert_eq!(b.x, 815_000);
    assert_eq!(b.y, 715_000);
    assert!(!b.hit);
    assert_eq!(p.shoot_t, 100, "the cooldown rewinds");
}

#[test]
fn cooldown_blocks_the_next_shot() {
    let mut p = color_switch::player::Player::default();
    p.shoot_t = 80;
    let mut bullets: Vec<Bullet> = Vec::new();
    let input = InputFrame { fire: true, ..InputFrame::none() };
    let fired = player_update(&mut p, &input, &mut bullets, 16);
    assert!(!fired);
    assert!(bullets.is_empty());
}

#[test]
fn menu_confirm_starts_a_run() {
    let mut g = Game::default();
    let mut events: Vec<AudioEvent> = Vec::new();
    g.menu_update(&InputFrame { confirm: true, ..InputFrame::none() }, &mut events);
    assert_eq!(g.game_state, GameState::Playing);
}

#[test]
fn menu_selection_clamps_at_the_ends() {
    let mut g = Game::default();
    let mut events: Vec<AudioEvent> = Vec::new();
    g.menu_update(&InputFrame { menu_up: true, ..InputFrame::none() }, &mut events);
    assert_eq!(g.menu_selected, 0);
    for _ in 0..6 {
        g.menu_update(&InputFrame { menu_down: true, ..InputFrame::none() }, &mut events);
    }
    assert_eq!(g.menu_selected, 3);
    assert!(events.iter().all(|ev| ev.kind == AudioKind::MenuChanged));
}

#[test]
fn menu_volume_clamps_and_marks_dirty() {
    let mut g = Game::default();
    g.menu_selected = 1;
    let mut events: Vec<AudioEvent> = Vec::new();
    g.menu_update(&InputFrame { menu_right: true, ..InputFrame::none() }, &mut events);
    assert_eq!(g.music_level, 10, "already at the ceiling");
    assert!(g.should_save);
    g.menu_update(&InputFrame { menu_left: true, ..InputFrame::none() }, &mut events);
    assert_eq!(g.music_level, 9);
}

#[test]
fn menu_palette_wraps_and_gates_on_unlocks() {
    let mut g = Game::default();
    g.menu_selected = 3;
    let mut events: Vec<AudioEvent> = Vec::new();
    g.menu_update(&InputFrame { menu_left: true, ..InputFrame::none() }, &mut events);
    assert_eq!(g.curr_palette_idx, 2, "cycling left from the first palette wraps");
    assert_eq!(g.active_palette(), 0, "a locked palette falls back to the first");
    g.unlocks.purpleyellow = true;
    assert_eq!(g.active_palette(), 2);
    g.menu_update(&InputFrame { menu_right: true, ..InputFrame::none() }, &mut events);
    assert_eq!(g.curr_palette_idx, 0);
}

#[test]
fn level_bar_draws_the_gauge() {
    assert_eq!(Game::level_bar(3).as_str(), "OOO.......");
    assert_eq!(Game::level_bar(0).as_str(), "..........");
    assert_eq!(Game::level_bar(10).as_str(), "OOOOOOOOOO");
}

#[test]
fn record_round_trip_and_clamping() {
    let mut g = Game::default();
    g.high_score = 123;
    g.unlocks.orangegreen = true;
    g.music_level = 4;
    let r = g.record();
    assert_eq!(r.high_score, 123);
    assert!(r.orange_green_unlocked);
    assert!(!r.purple_yellow_unlocked);
    assert_eq!(r.music_level, 4);
    assert_eq!(r.effect_level, 10);
    let mut g2 = Game::default();
    g2.apply_record(&r);
    assert_eq!(g2.record(), r);
    let wild = GameRecord {
        high_score: -7,
        orange_green_unlocked: false,
        purple_yellow_unlocked: true,
        music_level: 99,
        effect_level: -3,
    };
    g2.apply_record(&wild);
    assert_eq!(g2.high_score, 0);
    assert_eq!(g2.music_level, 10);
    assert_eq!(g2.effect_level, 0);
}

#[test]
fn dirty_flag_clears_after_saving() {
    let mut g = Game::default();
    g.should_save = true;
    g.mark_saved();
    assert!(!g.should_save);
}

#[test]
fn death_banks_the_high_score_and_returns_to_menu() {
    let mut g = Game::default();
    g.game_state = GameState::Playing;
    g.player.health = 0;
    g.current_score = 50;
    let _ = g.update(&InputFrame::none(), 16);
    assert_eq!(g.high_score, 50);
    assert_eq!(g.current_score, 0);
    assert_eq!(g.game_state, GameState::MainMenu);
    assert_eq!(g.player.health, 10);
    assert!(g.should_save);
}

#[test]
fn escape_abandons_the_run() {
    let mut g = Game::default();
    g.game_state = GameState::Playing;
    g.current_score = 7;
    let _ = g.update(&InputFrame { escape: true, ..InputFrame::none() }, 16);
    assert_eq!(g.game_state, GameState::MainMenu);
    assert_eq!(g.current_score, 0);
}

#[test]
fn colour_toggle_flips_once_per_press() {
    let mut g = Game::default();
    g.game_state = GameState::Playing;
    let toggle = InputFrame { toggle_color: true, ..InputFrame::none() };
    let _ = g.update(&toggle, 16);
    assert_eq!(g.color_state, ColorState::Secondary);
    let _ = g.update(&InputFrame::none(), 16);
    assert_eq!(g.color_state, ColorState::Secondary, "no second flip without a press");
    let _ = g.update(&toggle, 16);
    assert_eq!(g.color_state, ColorState::Primary, "two presses return the state");
}

#[test]
fn menu_frame_leaves_the_world_alone() {
    let mut g = Game::default();
    let events = g.update(&InputFrame::none(), 16);
    assert!(events.is_empty());
    assert_eq!(g.game_state, GameState::MainMenu);
    assert_eq!(g.player.health, 10);
}

#[test]
fn glide_suspends_the_simulation() {
    let mut g = Game::default();
    g.game_state = GameState::Playing;
    g.player.x = 100_000;
    g.player.y = 100_000;
    g.move_player();
    let mut e = template(2);
    e.x = 500_000;
    e.y = 500_000;
    g.enemies.push(e);
    let _ = g.update(&InputFrame::none(), 100);
    assert_eq!(g.enemies[0].x, 500_000, "enemies do not act during the glide");
    // the player is partway through the glide toward the spawn point
    assert!(g.player.x > 100_000);
    assert!(g.wave.move_player);
}

#[test]
fn deep_waves_unlock_palettes() {
    let mut g = Game::default();
    g.game_state = GameState::Playing;
    g.wave.current = 10;
    g.wave.state = WaveState::Spawning;
    g.wave.enemies_set = true;
    g.wave.enemy_remaining = 1;
    g.wave.spawn_delay_t = 5000;
    let _ = g.update(&InputFrame::none(), 16);
    assert!(g.unlocks.orangegreen);
    assert!(!g.unlocks.purpleyellow);
    assert!(g.should_save);
}
