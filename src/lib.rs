//! Rules of a tower-defense match: the player's economy and lives, enemies
//! walking a waypoint path, towers choosing the nearest enemy in range,
//! projectile lifetimes, and the extraction of a level description into the
//! map that a match is played on.
//!
//! Positions are fixed-point: one world unit is `geometry::UNIT` steps, and
//! times are counted in microseconds.

pub mod bullet;
pub mod geometry;
pub mod map;
pub mod player;
pub mod states;
pub mod target;
pub mod timer;
pub mod tower;

pub use bullet::{Bullet, Lifetime, BULLET_LIFETIME_US};
pub use geometry::{
    distance_squared_2, distance_squared_from, isqrt, step_toward, travel_distance, Offset3, Point2,
    Point3, MICROS_PER_SECOND, UNIT,
};
pub use map::{
    EntityInstance, FieldInstance, GameMap, GroundType, LayerInstance, Level, MapError, Root,
};
pub use player::{Player, KILL_REWARD};
pub use states::{create_ui_on_selection, GameState, MenuAction};
pub use target::{
    bullet_collision_detection, check_waypoints, mob_spawn_delay, move_targets, spawn_targets,
    target_death, Enemy, Health, Target, ENEMY_HEALTH, ENEMY_HEIGHT, ENEMY_SPEED,
    MOB_SPAWN_PERIOD_US,
};
pub use timer::{Countdown, CountdownView};
pub use tower::{
    any_in_range, is_nearest_in_range, nearest_in_range, within_range, PlacementError, Shot, Tower,
    TowerButtonState, TowerType, TOWER_RANGE,
};
