use kokoro::combat::{resolve_hits, retain_live_enemies, retain_live_items, retain_live_weapons};
use kokoro::enemy::{Enemy, ENEMY_RADIUS, MOVE_RADIUS, MOVE_TTL};
use kokoro::game::{App, GameStatus, Key, FIRE_COOLDOWN, SHOT_OFFSET};
use kokoro::geom::{clamp_to_bounds, collides, sat_add, Direction, Position};
use kokoro::item::{Item, ITEM_RADIUS};
use kokoro::player::{Player, PLAYER_SIZE};
use kokoro::weapon::{Weapon, WEAPON_LIFETIME, WEAPON_SIZE, WEAPON_SPEED};

const W: i64 = 960_000;
const H: i64 = 768_000;

fn game() -> App {
    App::new(W, H)
}

/// An enemy in a corner, far from the player, that keeps the enemy
/// collection from being refilled at random.
fn guard() -> Enemy {
    Enemy::new(20_000, 20_000)
}

#[test]
fn clamp_keeps_circle_inside() {
    let mut p = Position::new(-50, 900_000);
    clamp_to_bounds(&mut p, 10_000, W, H);
    assert_eq!(p, Position::new(10_000, 758_000));
    let mut q = Position::new(2_000_000, 5);
    clamp_to_bounds(&mut q, 10_000, W, H);
    assert_eq!(q, Position::new(950_000, 10_000));
    let mut r = Position::new(300_000, 400_000);
    clamp_to_bounds(&mut r, 10_000, W, H);
    assert_eq!(r, Position::new(300_000, 400_000));
}

#[test]
fn clamp_on_narrow_arena_takes_lower_bound() {
    let mut p = Position::new(7, 7);
    clamp_to_bounds(&mut p, 10, 15, 15);
    assert_eq!(p, Position::new(10, 10));
}

#[test]
fn collision_is_symmetric() {
    let a = Position::new(0, 0);
    let b = Position::new(3, 4);
    assert_eq!(collides(&a, 2, &b, 3), collides(&b, 3, &a, 2));
    assert!(!collides(&a, 2, &b, 3));
    assert!(collides(&a, 2, &b, 4));
    assert_eq!(collides(&a, 2, &b, 4), collides(&b, 4, &a, 2));
}

#[test]
fn collision_needs_distance_below_radius_sum() {
    let a = Position::new(0, 0);
    assert!(!collides(&a, 5, &Position::new(10, 0), 5));
    assert!(collides(&a, 5, &Position::new(9, 0), 5));
    assert!(!collides(&a, 0, &a, 0));
    assert!(collides(&Position::new(i64::MIN, 0), 1, &Position::new(i64::MIN, 0), 1));
    assert!(!collides(&Position::new(i64::MIN, 0), 1, &Position::new(i64::MAX, 0), 1));
}

#[test]
fn direction_units() {
    assert_eq!(Direction::East.unit(), (1, 0));
    assert_eq!(Direction::West.unit(), (-1, 0));
    assert_eq!(Direction::North.unit(), (0, -1));
    assert_eq!(Direction::South.unit(), (0, 1));
}

#[test]
fn saturating_addition() {
    assert_eq!(sat_add(i64::MAX, 1), i64::MAX);
    assert_eq!(sat_add(i64::MIN, -1), i64::MIN);
    assert_eq!(sat_add(4, -9), -5);
}

#[test]
fn weapon_moves_and_ages() {
    let mut w = Weapon::new(100, 200, Direction::West);
    assert_eq!(w.ttl, WEAPON_LIFETIME);
    assert_eq!(w.radius(), WEAPON_SIZE / 2);
    assert_eq!(w.hit_radius(), WEAPON_SIZE);
    w.update(1_000);
    assert_eq!(w.pos, Position::new(100 - WEAPON_SPEED, 200));
    assert_eq!(w.ttl, WEAPON_LIFETIME - 1_000);
    let mut n = Weapon::new(0, 0, Direction::North);
    n.update(0);
    assert_eq!(n.pos, Position::new(0, -WEAPON_SPEED));
}

#[test]
fn enemy_waits_then_jumps() {
    let mut e = Enemy::new(500_000, 500_000);
    assert_eq!(e.radius(), ENEMY_RADIUS);
    e.step(40_000, W, H, 3_000, -2_000);
    assert_eq!(e.pos, Position::new(500_000, 500_000));
    assert_eq!(e.move_ttl, MOVE_TTL - 40_000);
    e.step(60_000, W, H, 3_000, -2_000);
    assert_eq!(e.pos, Position::new(503_000, 498_000));
    assert_eq!(e.move_ttl, MOVE_TTL);
}

#[test]
fn enemy_jump_is_clamped() {
    let mut e = Enemy::new(12_000, 12_000);
    e.step(100_000, W, H, -5_000, -5_000);
    assert_eq!(e.pos, Position::new(ENEMY_RADIUS, ENEMY_RADIUS));
}

#[test]
fn enemy_random_move_stays_near() {
    let mut e = Enemy::new(500_000, 500_000);
    e.update(100_000, W, H);
    assert!((e.pos.x - 500_000).abs() <= MOVE_RADIUS);
    assert!((e.pos.y - 500_000).abs() <= MOVE_RADIUS);
    assert_eq!(e.move_ttl, MOVE_TTL);
}

#[test]
fn random_spawns_lie_in_arena() {
    for _ in 0..50 {
        let e = Enemy::new_rand(1_000, 2_000);
        assert!(0 <= e.pos.x && e.pos.x < 1_000 && 0 <= e.pos.y && e.pos.y < 2_000);
        assert_eq!(e.health, 1);
        let t = Item::new_rand(3, 1);
        assert!(0 <= t.pos.x && t.pos.x < 3 && t.pos.y == 0);
        assert_eq!(t.health, 1);
        assert_eq!(t.radius(), ITEM_RADIUS);
    }
}

#[test]
fn player_moves_diagonally_and_faces_last_key() {
    let mut p = Player::new(500_000, 500_000);
    p.start_move(Direction::East);
    p.start_move(Direction::South);
    assert_eq!(p.dir, Direction::South);
    p.update(100_000, W, H);
    assert_eq!(p.pos, Position::new(520_000, 520_000));
    p.stop_move(Direction::South);
    p.update(50_000, W, H);
    assert_eq!(p.pos, Position::new(530_000, 520_000));
    assert_eq!(p.dir, Direction::South);
}

#[test]
fn player_is_clamped() {
    let mut p = Player::new(15_000, 500_000);
    p.start_move(Direction::West);
    p.update(1_000_000, W, H);
    assert_eq!(p.pos, Position::new(PLAYER_SIZE / 2, 500_000));
}

#[test]
fn new_game_starts_centred() {
    let a = game();
    assert_eq!(a.player.pos, Position::new(W / 2, H / 2));
    assert_eq!(a.status, GameStatus::Normal);
    assert_eq!(a.score, 0);
    assert!(a.enemies.is_empty() && a.items.is_empty() && a.weapons.is_empty());
}

#[test]
fn resolve_hits_spends_weapon_and_scores() {
    let mut ws = vec![Weapon::new(0, 0, Direction::East), Weapon::new(100_000, 0, Direction::East)];
    let mut es = vec![Enemy::new(5_000, 0), Enemy::new(300_000, 0)];
    let mut score: u64 = 10;
    resolve_hits(&mut ws, &mut es, &mut score);
    assert_eq!(score, 15);
    assert_eq!(ws[0].ttl, 0);
    assert_eq!(ws[1].ttl, WEAPON_LIFETIME);
    assert_eq!(es[0].health, 0);
    assert_eq!(es[1].health, 1);
}

#[test]
fn resolve_hits_counts_every_pair() {
    let mut ws = vec![Weapon::new(0, 0, Direction::East), Weapon::new(1_000, 0, Direction::East)];
    let mut es = vec![Enemy::new(0, 0), Enemy::new(2_000, 0)];
    let mut score: u64 = u64::MAX - 7;
    resolve_hits(&mut ws, &mut es, &mut score);
    assert_eq!(score, u64::MAX);
    assert_eq!(es[0].health, -1);
    assert_eq!(es[1].health, -1);
}

#[test]
fn retain_drops_spent_entities() {
    let mut w = Weapon::new(0, 0, Direction::East);
    w.ttl = 0;
    let ws = retain_live_weapons(&vec![w, Weapon::new(1, 1, Direction::West)]);
    assert_eq!(ws.len(), 1);
    assert_eq!(ws[0].pos, Position::new(1, 1));
    let mut e = Enemy::new(0, 0);
    e.health = 0;
    assert_eq!(retain_live_enemies(&vec![e, Enemy::new(2, 2), e]), vec![Enemy::new(2, 2)]);
    let mut t = Item::new(0, 0);
    t.health = -3;
    assert_eq!(retain_live_items(&vec![t]).len(), 0);
}

#[test]
fn scenario_enemy_on_player_kills() {
    let mut a = game();
    let p = a.player.pos;
    a.enemies.push(Enemy::new(p.x, p.y));
    a.update(1_000);
    assert_eq!(a.status, GameStatus::Died);
}

#[test]
fn scenario_weapons_expire() {
    let mut a = game();
    a.enemies.push(guard());
    a.input(Key::Fire, true);
    a.input(Key::Fire, false);
    a.update(16_000);
    assert_eq!(a.weapons.len(), 2);
    let mut t: i64 = 16_000;
    while t < WEAPON_LIFETIME {
        a.update(16_000);
        t += 16_000;
    }
    assert!(a.weapons.is_empty());
    assert_eq!(a.status, GameStatus::Normal);
}

#[test]
fn scenario_empty_enemies_refilled() {
    let mut a = game();
    a.update(16_000);
    assert_eq!(a.enemies.len(), 10);
    assert_eq!(a.items.len(), 10);
    for e in &a.enemies {
        assert!(0 <= e.pos.x && e.pos.x <= W && 0 <= e.pos.y && e.pos.y <= H);
        assert_eq!(e.health, 1);
    }
}

#[test]
fn scenario_weapon_on_enemy_scores() {
    let mut a = game();
    a.enemies.push(guard());
    a.enemies.push(Enemy::new(100_000, 600_000));
    a.weapons.push(Weapon::new(100_000, 600_000, Direction::East));
    a.update(1_000);
    assert_eq!(a.score, 5);
    assert!(a.weapons.is_empty());
    assert_eq!(a.enemies.len(), 1);
    assert_eq!(a.enemies[0].pos, guard().pos);
}

#[test]
fn scenario_twenty_kills_win() {
    let mut a = game();
    a.enemies.push(guard());
    for k in 0..20 {
        assert_eq!(a.status, GameStatus::Normal);
        let x = 100_000 + 30_000 * k;
        a.enemies.push(Enemy::new(x, 650_000));
        a.weapons.push(Weapon::new(x, 650_000, Direction::North));
        a.update(1_000);
        assert_eq!(a.score, 5 * (k as u64 + 1));
    }
    assert_eq!(a.score, 100);
    assert_eq!(a.status, GameStatus::Won);
}

#[test]
fn finished_game_is_frozen() {
    let mut a = game();
    let p = a.player.pos;
    a.enemies.push(Enemy::new(p.x, p.y));
    a.update(1_000);
    assert_eq!(a.status, GameStatus::Died);
    let n = a.enemies.len();
    let m = a.items.len();
    a.weapons.push(Weapon::new(0, 0, Direction::East));
    for _ in 0..5 {
        a.update(50_000);
    }
    assert_eq!(a.status, GameStatus::Died);
    assert_eq!(a.score, 0);
    assert_eq!(a.enemies.len(), n);
    assert_eq!(a.items.len(), m);
    assert_eq!(a.weapons[0].pos, Position::new(0, 0));
}

#[test]
fn fire_is_gated_by_cooldown() {
    let mut a = game();
    a.enemies.push(guard());
    a.input(Key::Fire, true);
    assert!(a.fire_weapon);
    assert_eq!(a.fire_cooldown, FIRE_COOLDOWN);
    a.update(30_000);
    assert_eq!(a.weapons.len(), 2);
    a.input(Key::Fire, true);
    assert!(!a.fire_weapon);
    a.update(30_000);
    a.update(30_000);
    a.input(Key::Fire, true);
    assert!(!a.fire_weapon);
    assert_eq!(a.weapons.len(), 2);
    a.update(30_000);
    a.input(Key::Fire, true);
    assert!(a.fire_weapon);
}

#[test]
fn shot_spawns_offset_pair() {
    let mut a = game();
    a.enemies.push(guard());
    a.input(Key::Left, true);
    a.input(Key::Left, false);
    a.input(Key::Fire, true);
    let p = a.player.pos;
    a.update(0);
    assert_eq!(a.weapons.len(), 2);
    assert_eq!(a.weapons[0].pos, Position::new(p.x - WEAPON_SPEED, p.y));
    assert_eq!(a.weapons[1].pos, Position::new(p.x - SHOT_OFFSET - WEAPON_SPEED, p.y - SHOT_OFFSET));
    assert_eq!(a.weapons[0].dir, Direction::West);
}

#[test]
fn movement_keys_hold_and_release() {
    let mut a = game();
    a.input(Key::Up, true);
    a.input(Key::Right, true);
    assert!(a.player.north && a.player.east);
    assert_eq!(a.player.dir, Direction::East);
    a.input(Key::Up, false);
    assert!(!a.player.north && a.player.east);
    a.input(Key::Other, true);
    assert_eq!(a.status, GameStatus::Normal);
}

#[test]
fn confirm_resets_only_finished_game() {
    let mut a = game();
    a.score = 40;
    a.input(Key::Confirm, true);
    assert_eq!(a.score, 40);
    a.status = GameStatus::Won;
    a.enemies.push(guard());
    a.items.push(Item::new(1, 1));
    a.weapons.push(Weapon::new(0, 0, Direction::East));
    a.player.size = 35_000;
    a.input(Key::Confirm, true);
    assert_eq!(a.status, GameStatus::Normal);
    assert_eq!(a.score, 0);
    assert_eq!(a.size_score, 35_000);
    assert!(a.enemies.is_empty() && a.items.is_empty());
    assert_eq!(a.weapons.len(), 1);
}

#[test]
fn item_touch_grows_player_floor() {
    let mut a = game();
    a.enemies.push(guard());
    let p = a.player.pos;
    a.items.push(Item::new(p.x, p.y));
    a.items.push(Item::new(20_000, 740_000));
    a.update(1_000);
    assert_eq!(a.size_score, 5_000);
    assert_eq!(a.items[0].health, 0);
    assert_eq!(a.items[1].health, 1);
    a.update(1_000);
    assert_eq!(a.items.len(), 1);
    assert_eq!(a.player.size, PLAYER_SIZE);
    a.player.size = 1_000;
    a.size_score = 30_000;
    a.update(1_000);
    assert_eq!(a.player.size, 30_000);
}
