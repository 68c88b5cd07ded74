use tower_power::{
    bullet_collision_detection, check_waypoints, mob_spawn_delay, move_targets, nearest_in_range,
    spawn_targets, target_death, Bullet, Countdown, Enemy, Health, Lifetime, Offset3, Player,
    Point2, Point3, Target, TowerType, BULLET_LIFETIME_US, ENEMY_HEALTH, ENEMY_HEIGHT,
    ENEMY_SPEED,
};

fn pt(x: i32, y: i32, z: i32) -> Point3 {
    Point3 { x, y, z }
}

const ORIGIN: Offset3 = Offset3 { x: 0, y: 0, z: 0 };

#[test]
fn nearest_target_in_range_is_chosen() {
    let targets = vec![pt(4000, 0, 0), pt(0, 0, -2000), pt(3000, 0, 0)];
    assert_eq!(nearest_in_range(ORIGIN, 4500, &targets), Some(1));
}

#[test]
fn nearer_target_out_of_range_never_wins() {
    let targets = vec![pt(6000, 0, 0), pt(0, 4400, 0)];
    assert_eq!(nearest_in_range(ORIGIN, 4500, &targets), Some(1));
}

#[test]
fn no_target_in_range() {
    let targets = vec![pt(4500, 0, 0), pt(0, 0, 9000)];
    assert_eq!(nearest_in_range(ORIGIN, 4500, &targets), None);
    assert_eq!(nearest_in_range(ORIGIN, 4500, &vec![]), None);
}

#[test]
fn equal_distance_takes_first() {
    let targets = vec![pt(9000, 0, 0), pt(0, 3000, 0), pt(3000, 0, 0)];
    assert_eq!(nearest_in_range(ORIGIN, 4500, &targets), Some(1));
}

#[test]
fn tower_fires_only_with_target_in_range() {
    let mut tower = TowerType::Lazer.get_tower();
    let pos = pt(1000, 0, 1000);
    let far = vec![pt(9000, 0, 9000)];
    assert_eq!(tower.tower_shooting(pos, 250_000, &far), None);
    let near = vec![pt(9000, 0, 9000), pt(2000, 0, 3000)];
    assert_eq!(tower.tower_shooting(pos, 100_000, &near), None);
    assert_eq!(
        tower.tower_shooting(pos, 150_000, &near),
        Some(Offset3 { x: 1000, y: 0, z: 2000 })
    );
    assert_eq!(tower.shooting_timer.remaining_us(), 250_000);
}

#[test]
fn bullets_of_each_tower_type() {
    let d = Offset3 { x: 1, y: 2, z: 3 };
    assert_eq!(TowerType::Lazer.get_bullet(d), Bullet { direction: d, speed: 10_500 });
    assert_eq!(TowerType::Cannon.get_bullet(d).speed, 6_500);
    assert_eq!(TowerType::Rock.get_bullet(d).speed, 3_500);
}

#[test]
fn fire_periods_of_each_tower_type() {
    assert_eq!(TowerType::Lazer.get_tower().shooting_timer.period_us(), 250_000);
    assert_eq!(TowerType::Cannon.get_tower().shooting_timer.period_us(), 500_000);
    assert_eq!(TowerType::Rock.get_tower().shooting_timer.period_us(), 750_000);
}

#[test]
fn hit_points_floor_at_zero() {
    let mut h = Health { value: 2 };
    h.take_damage(1);
    assert_eq!(h.value, 1);
    h.take_damage(5);
    assert_eq!(h.value, 0);
    assert!(h.is_dead());
}

#[test]
fn collisions_damage_each_enemy() {
    let mut enemies = vec![Enemy::new(Point2 { x: 0, y: 0 }), Enemy::new(Point2 { x: 5, y: 5 })];
    bullet_collision_detection(&mut enemies, &vec![1, 9]);
    assert_eq!(enemies[0].health.value, ENEMY_HEALTH - 1);
    assert_eq!(enemies[1].health.value, 0);
}

#[test]
fn dead_enemies_are_removed_and_rewarded() {
    let mut enemies = vec![
        Enemy::new(Point2 { x: 0, y: 0 }),
        Enemy::new(Point2 { x: 1, y: 0 }),
        Enemy::new(Point2 { x: 2, y: 0 }),
    ];
    bullet_collision_detection(&mut enemies, &vec![4, 0, 6]);
    let removed = target_death(&mut enemies);
    assert_eq!(removed, vec![true, false, true]);
    let kills = removed.iter().filter(|r| **r).count();
    assert_eq!(kills, 2);
    assert_eq!(enemies.len(), 1);
    assert_eq!(enemies[0].position.x, 1);
    let mut p = Player::new(10, 3);
    assert!(p.give_money_on_kill(kills));
    assert_eq!(p.get_funds(), 12);
}

#[test]
fn escaped_enemy_costs_one_life_once() {
    let mut p = Player::new(0, 5);
    let mut walker = Enemy::new(Point2 { x: 0, y: 0 });
    walker.target.path_index = 1;
    let mut done = Enemy::new(Point2 { x: 0, y: 0 });
    done.target.path_index = 3;
    let mut enemies = vec![walker, done];
    assert_eq!(check_waypoints(&mut enemies, 3, &mut p), vec![false, true]);
    assert_eq!(p.get_lives(), 4);
    assert_eq!(enemies, vec![walker]);
    assert_eq!(check_waypoints(&mut enemies, 3, &mut p), vec![false]);
    assert_eq!(p.get_lives(), 4);
}

#[test]
fn escapes_stop_at_zero_lives() {
    let mut p = Player::new(0, 1);
    let mut e = Enemy::new(Point2 { x: 0, y: 0 });
    e.target.path_index = 2;
    let mut enemies = vec![e, e];
    assert_eq!(check_waypoints(&mut enemies, 2, &mut p), vec![true, true]);
    assert_eq!(p.get_lives(), 0);
    assert!(enemies.is_empty());
}

#[test]
fn enemy_walks_toward_waypoint() {
    let waypoints = vec![Point2 { x: 3000, y: 4000 }, Point2 { x: 0, y: 0 }];
    let mut e = Enemy::new(Point2 { x: 0, y: 0 });
    e.target.speed = 1000;
    let mut enemies = vec![e];
    move_targets(&mut enemies, &waypoints, 1_000_000);
    assert_eq!(enemies[0].position, pt(600, ENEMY_HEIGHT, 800));
    assert_eq!(enemies[0].target.path_index, 0);
}

#[test]
fn enemy_within_reach_heads_for_next_waypoint() {
    let waypoints = vec![Point2 { x: 300, y: 400 }];
    let mut e = Enemy::new(Point2 { x: 0, y: 0 });
    e.target.speed = 1000;
    e.move_target(&waypoints, 500_000);
    assert_eq!(e.position, pt(0, ENEMY_HEIGHT, 0));
    assert_eq!(e.target.path_index, 1);
    assert!(e.reached_end(1));
    e.move_target(&waypoints, 500_000);
    assert_eq!(e.target.path_index, 1);
}

#[test]
fn negative_direction_moves_back() {
    let mut e = Enemy::new(Point2 { x: 1000, y: 1000 });
    e.target = Target { speed: 1000, path_index: 0 };
    e.move_target(&vec![Point2 { x: -2000, y: 1000 }], 500_000);
    assert_eq!(e.position, pt(500, ENEMY_HEIGHT, 1000));
}

#[test]
fn spawns_follow_the_cadence() {
    let mut delay = mob_spawn_delay();
    let path = vec![Point2 { x: 7, y: 9 }];
    assert!(spawn_targets(&mut delay, 1_000_000, &path).is_none());
    let e = spawn_targets(&mut delay, 600_000, &path).unwrap();
    assert_eq!(e.position, pt(7, ENEMY_HEIGHT, 9));
    assert_eq!(e.target, Target { speed: ENEMY_SPEED, path_index: 0 });
    assert_eq!(e.health.value, ENEMY_HEALTH);
    assert_eq!(delay.remaining_us(), 1_400_000);
    assert!(spawn_targets(&mut delay, 2_000_000, &vec![]).is_none());
}

#[test]
fn repeating_countdown_carries_overshoot() {
    let mut c = Countdown::repeating(100);
    assert!(!c.tick(40));
    assert_eq!(c.remaining_us(), 60);
    assert!(c.tick(290));
    assert_eq!(c.remaining_us(), 70);
    assert!(c.tick(70));
    assert_eq!(c.remaining_us(), 100);
}

#[test]
fn once_countdown_fires_once() {
    let mut c = Countdown::once(100);
    assert!(!c.tick(99));
    assert!(c.tick(1));
    assert!(c.finished());
    assert!(!c.tick(500));
}

#[test]
fn bullet_lifetime_expires() {
    let mut l = Lifetime::new();
    assert_eq!(l.timer.remaining_us(), BULLET_LIFETIME_US);
    assert!(!l.bullet_despawn(300_000));
    assert!(l.bullet_despawn(200_000));
    assert!(!l.bullet_despawn(200_000));
}

#[test]
fn shot_carries_type_speed_and_fresh_lifetime() {
    let mut tower = TowerType::Cannon.get_tower();
    let targets = vec![pt(3000, 0, 0), pt(1000, 0, 1000)];
    assert!(tower.shoot(TowerType::Cannon, pt(0, 0, 0), 100_000, &targets).is_none());
    let shot = tower.shoot(TowerType::Cannon, pt(0, 0, 0), 400_000, &targets).unwrap();
    assert_eq!(shot.bullet, Bullet { direction: Offset3 { x: 1000, y: 0, z: 1000 }, speed: 6_500 });
    assert_eq!(shot.lifetime.timer.remaining_us(), BULLET_LIFETIME_US);
    assert!(tower.shoot(TowerType::Cannon, pt(0, 0, 0), 500_000, &vec![pt(9000, 0, 0)]).is_none());
}

#[test]
fn bullet_flies_along_its_direction() {
    let b = Bullet { direction: Offset3 { x: 3, y: 0, z: -4 }, speed: 10_000 };
    assert_eq!(b.move_bullet(pt(100, 50, 100), 500_000), pt(3100, 50, -3900));
    let still = Bullet { direction: Offset3 { x: 0, y: 0, z: 0 }, speed: 10_000 };
    assert_eq!(still.move_bullet(pt(1, 2, 3), 500_000), pt(1, 2, 3));
}

#[test]
fn bullet_position_stops_at_coordinate_bounds() {
    let b = Bullet { direction: Offset3 { x: i64::MAX, y: i64::MIN, z: 0 }, speed: u32::MAX };
    let p = b.move_bullet(pt(i32::MAX - 5, i32::MIN + 5, 0), u64::MAX);
    assert_eq!(p, pt(i32::MAX, i32::MIN, 0));
}
