//! Entities one by one: bullets, enemies, pending spawns, hazard rings,
//! the player's stats and the upgrade deltas.

use color_switch::bullet::{Bullet, BulletKind};
use color_switch::collect::CollectibeKind;
use color_switch::color::ColorState;
use color_switch::combat::bullet_enemy_coll;
use color_switch::enemy::{
    enemy_collision, template, update_follow_enemy, update_follow_shoot_enemy,
    update_spawning, update_static_circle_enemy, Enemy, EnemyType, SpawnEnemy,
};
use color_switch::hazard::{circle_step, CircleAttack};
use color_switch::player::{dir_to_player, distance_to_player, Player};

#[test]
fn color_state_double_toggle_returns() {
    let s = ColorState::Primary;
    assert_eq!(s.next().next(), s);
    let t = ColorState::Secondary;
    assert_eq!(t.next().next(), t);
    assert_ne!(s.next(), s);
}

#[test]
fn bullet_flies_along_its_direction() {
    let mut b = Bullet::new(1, 100_000, 200_000, 1000, 0, 6000, 550, BulletKind::PlayerBullet);
    b.update(100);
    // 550 pixels per second over a tenth of a second
    assert_eq!(b.x, 155_000);
    assert_eq!(b.y, 200_000);
    assert_eq!(b.last_x, 100_000);
    assert_eq!(b.last_y, 200_000);
    assert!(!b.hit);
}

#[test]
fn bullet_new_keeps_stats() {
    let b = Bullet::new(1, 5000, 6000, 0, -1000, 7000, 400, BulletKind::EnemyBullet);
    assert_eq!(b.damage, 1);
    assert_eq!(b.size, 7000);
    assert_eq!(b.speed, 400);
    assert_eq!(b.state, ColorState::Primary);
    assert_eq!(b.kind, BulletKind::EnemyBullet);
    assert!(!b.hit);
}

#[test]
fn player_default_stats() {
    let p = Player::default();
    assert_eq!(p.max_health, 10);
    assert_eq!(p.health, 10);
    assert_eq!(p.size, 40_000);
    assert_eq!(p.damage, 1000);
    assert_eq!(p.spread, 3000);
    assert_eq!(p.move_speed, 300);
    assert_eq!(p.projectiles, 1);
    assert_eq!(p.bullet_size, 6000);
    assert_eq!(p.bullet_speed, 550);
    assert_eq!(p.x, 800_000);
    assert_eq!(p.y, 700_000);
    assert_eq!(p.attack_speed, 100);
    assert_eq!(p.heal_from_b, 1);
}

#[test]
fn player_heal_caps_at_max_health() {
    let mut p = Player::default();
    p.health = 9;
    p.heal(5);
    assert_eq!(p.health, 10);
}

#[test]
fn player_hurt_floors_at_zero() {
    let mut p = Player::default();
    p.health = 3;
    p.hurt(1000);
    assert_eq!(p.health, 0);
}

#[test]
fn upgrade_maxhp_delta() {
    let mut p = Player::default();
    p.apply_upgrade(CollectibeKind::Maxhp);
    assert_eq!(p.max_health, 11);
    assert_eq!(p.health, 10);
}

#[test]
fn upgrade_projectile_delta() {
    let mut p = Player::default();
    p.apply_upgrade(CollectibeKind::Projectile);
    assert_eq!(p.projectiles, 2);
    // the damage loss floors at the documented minimum
    assert_eq!(p.damage, 500);
    assert_eq!(p.spread, 6000);
}

#[test]
fn upgrade_size_delta() {
    let mut p = Player::default();
    p.apply_upgrade(CollectibeKind::Size);
    assert_eq!(p.bullet_size, 6500);
}

#[test]
fn upgrade_speed_delta() {
    let mut p = Player::default();
    p.apply_upgrade(CollectibeKind::Speed);
    assert_eq!(p.move_speed, 330);
}

#[test]
fn upgrade_slowdmg_delta() {
    let mut p = Player::default();
    p.apply_upgrade(CollectibeKind::Slowdmg);
    assert_eq!(p.damage, 2000);
    assert_eq!(p.bullet_speed, 520);
}

#[test]
fn enemy_templates() {
    let shooter = template(0);
    assert_eq!(shooter.kind, EnemyType::FollowShootEnemy);
    assert_eq!(shooter.health, 5000);
    assert_eq!(shooter.score, 15);
    assert_eq!(shooter.attack_speed, 1000);
    let tower = template(1);
    assert_eq!(tower.kind, EnemyType::StaticCircleAttack);
    assert_eq!(tower.attack_speed, 5000);
    assert_eq!(tower.contact_damage, 3);
    let chaser_a = template(2);
    let chaser_b = template(3);
    assert_eq!(chaser_a.kind, EnemyType::FollowEnemy);
    assert_eq!(chaser_a.state, ColorState::Primary);
    assert_eq!(chaser_b.state, ColorState::Secondary);
    assert_eq!(chaser_a.health, 2000);
}

#[test]
fn enemy_take_damage_saturates() {
    let mut e = template(2);
    e.take_damage(1_000_000);
    e.take_damage(1_000_000);
    assert_eq!(e.health, -1_000_000);
}

#[test]
fn follow_enemy_chases_player() {
    let mut e = template(2);
    e.x = 700_000;
    e.y = 700_000;
    // the player corner is due east of the enemy
    update_follow_enemy(&mut e, 800_000, 700_000, 100);
    // 250 pixels per second over a tenth of a second
    assert_eq!(e.x, 725_000);
    assert_eq!(e.y, 700_000);
}

#[test]
fn pending_spawn_materialises_on_elapse() {
    let mut s = SpawnEnemy { x: 100_000, y: 120_000, spawn_t: 50, to_spawn: template(0) };
    let mut enemies: Vec<Enemy> = Vec::new();
    update_spawning(&mut s, &mut enemies, 100);
    assert_eq!(s.spawn_t, -50);
    assert_eq!(enemies.len(), 1);
    assert_eq!(enemies[0].x, 100_000);
    assert_eq!(enemies[0].y, 120_000);
    assert_eq!(enemies[0].kind, EnemyType::FollowShootEnemy);
}

#[test]
fn pending_spawn_waits_while_counting() {
    let mut s = SpawnEnemy { x: 100_000, y: 120_000, spawn_t: 2000, to_spawn: template(2) };
    let mut enemies: Vec<Enemy> = Vec::new();
    update_spawning(&mut s, &mut enemies, 100);
    assert_eq!(s.spawn_t, 1900);
    assert_eq!(enemies.len(), 0);
}

#[test]
fn tower_emits_one_opposite_ring_on_elapse() {
    // the tower's attack timer reaches zero: exactly one new ring,
    // centred on the tower, tagged with the opposite colour, and the
    // timer rewinds to the configured attack speed
    let mut e = template(1);
    e.x = 300_000;
    e.y = 320_000;
    e.attack_t = 50;
    let mut circles: Vec<CircleAttack> = Vec::new();
    update_static_circle_enemy(&mut e, ColorState::Primary, &mut circles, 100);
    assert_eq!(circles.len(), 1);
    assert_eq!(circles[0].x, 320_000);
    assert_eq!(circles[0].y, 340_000);
    assert_eq!(circles[0].color, ColorState::Secondary);
    assert_eq!(circles[0].radius, 1000);
    assert!(!circles[0].hit);
    assert_eq!(e.attack_t, 5000);
}

#[test]
fn tower_holds_fire_while_cooling() {
    let mut e = template(1);
    e.attack_t = 5000;
    let mut circles: Vec<CircleAttack> = Vec::new();
    update_static_circle_enemy(&mut e, ColorState::Secondary, &mut circles, 100);
    assert_eq!(circles.len(), 0);
    assert_eq!(e.attack_t, 4900);
}

#[test]
fn matching_chaser_touch_heals() {
    let mut e = template(2);
    let mut p = Player::default();
    p.health = 5;
    e.x = p.x;
    e.y = p.y;
    let hurt = enemy_collision(&mut e, &mut p, ColorState::Primary);
    assert!(!hurt);
    assert_eq!(p.health, 6);
    assert_eq!(e.health, 0);
}

#[test]
fn mismatched_chaser_touch_costs_one() {
    let mut e = template(2);
    let mut p = Player::default();
    e.x = p.x;
    e.y = p.y;
    let hurt = enemy_collision(&mut e, &mut p, ColorState::Secondary);
    assert!(hurt);
    assert_eq!(p.health, 9);
    assert_eq!(e.health, 0);
}

#[test]
fn tower_touch_deals_contact_damage() {
    let mut e = template(1);
    let mut p = Player::default();
    e.x = p.x;
    e.y = p.y;
    let hurt = enemy_collision(&mut e, &mut p, ColorState::Primary);
    assert!(hurt);
    assert_eq!(p.health, 7);
    assert_eq!(e.health, 0);
}

#[test]
fn ring_grows_and_hits_once() {
    let mut p = Player::default();
    let mut c = CircleAttack {
        x: p.x + 20_000,
        y: p.y + 20_000,
        hit: false,
        radius: 10_000,
        color: ColorState::Secondary,
    };
    // growth is proportional to the radius
    let hurt = circle_step(&mut c, &mut p, ColorState::Primary, 100);
    assert_eq!(c.radius, 12_500);
    assert!(hurt);
    assert!(c.hit);
    assert_eq!(p.health, 8);
    // the same ring never hits twice
    let hurt_again = circle_step(&mut c, &mut p, ColorState::Primary, 100);
    assert!(!hurt_again);
    assert_eq!(p.health, 8);
}

#[test]
fn matching_ring_does_not_hurt() {
    let mut p = Player::default();
    let mut c = CircleAttack {
        x: p.x + 20_000,
        y: p.y + 20_000,
        hit: false,
        radius: 10_000,
        color: ColorState::Primary,
    };
    let hurt = circle_step(&mut c, &mut p, ColorState::Primary, 100);
    assert!(!hurt);
    assert!(!c.hit);
    assert_eq!(p.health, 10);
}

#[test]
fn shooter_chases_while_primary() {
    let mut e = template(0);
    e.x = 700_000;
    e.y = 700_000;
    let mut bullets = Vec::new();
    update_follow_shoot_enemy(&mut e, 800_000, 700_000, ColorState::Primary, &mut bullets,
        100);
    // 200 pixels per second over a tenth of a second
    assert_eq!(e.x, 720_000);
    assert!(bullets.is_empty());
}

#[test]
fn shooter_fires_while_secondary() {
    let mut e = template(0);
    e.x = 700_000;
    e.y = 700_000;
    e.attack_t = 0;
    let mut bullets = Vec::new();
    update_follow_shoot_enemy(&mut e, 800_000, 700_000, ColorState::Secondary, &mut bullets,
        100);
    assert_eq!(e.x, 700_000, "it stands still to shoot");
    assert_eq!(bullets.len(), 1);
    let b = &bullets[0];
    assert_eq!(b.kind, BulletKind::EnemyBullet);
    assert_eq!((b.x, b.y), (720_000, 720_000), "fired from the enemy centre");
    assert_eq!((b.dx, b.dy), (1000, 0), "aimed at the player");
    assert_eq!(b.speed, 550);
    assert_eq!(e.attack_t, 1000, "the cooldown rewinds");
}

#[test]
fn shooter_holds_fire_while_cooling() {
    let mut e = template(0);
    e.attack_t = 500;
    let mut bullets = Vec::new();
    update_follow_shoot_enemy(&mut e, 800_000, 700_000, ColorState::Secondary, &mut bullets,
        100);
    assert!(bullets.is_empty());
    assert_eq!(e.attack_t, 500);
}

#[test]
fn one_bullet_damages_every_enemy_it_touches() {
    let mut a = template(2);
    a.x = 200_000;
    a.y = 200_000;
    let mut b_enemy = template(2);
    b_enemy.x = 210_000;
    b_enemy.y = 210_000;
    let far = template(2);
    let mut enemies = vec![a, b_enemy, far];
    let mut b = Bullet::new(1, 208_000, 208_000, 0, 0, 6000, 550, BulletKind::PlayerBullet);
    bullet_enemy_coll(&mut b, &mut enemies, 1000);
    assert!(b.hit);
    assert_eq!(enemies[0].health, 1000);
    assert_eq!(enemies[1].health, 1000);
    assert_eq!(enemies[2].health, 2000, "the distant enemy is untouched");
}

#[test]
fn direction_and_distance_to_player() {
    let p = Player::default();
    let d = dir_to_player(p.x - 300, p.y - 400, &p);
    assert_eq!(d, (600, 800));
    assert_eq!(distance_to_player(p.x - 300, p.y - 400, &p), 500);
}
