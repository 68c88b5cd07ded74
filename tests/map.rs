use tower_power::{
    EntityInstance, FieldInstance, GameMap, GroundType, LayerInstance, Level, MapError, Root,
};

fn entity(grid: Vec<i64>) -> EntityInstance {
    EntityInstance { identifier: "Waypoint".to_string(), grid, px: vec![] }
}

fn layer(grid_size: i64, entities: Vec<EntityInstance>) -> LayerInstance {
    LayerInstance {
        identifier: "Layer".to_string(),
        grid_size,
        c_wid: 12,
        c_hei: 8,
        entity_instances: entities,
        int_grid_csv: vec![],
    }
}

fn field(name: &str, value: i64) -> FieldInstance {
    FieldInstance { identifier: name.to_string(), value }
}

fn root(fields: Vec<FieldInstance>, layers: Vec<LayerInstance>) -> Root {
    Root { levels: vec![Level { identifier: "Level_0".to_string(), field_instances: fields, layer_instances: layers }] }
}

#[test]
fn map_from_level() {
    let r = root(
        vec![field("other", 9), field("starting_lives", 10), field("starting_funds", 3), field("starting_lives", 1)],
        vec![layer(4, vec![entity(vec![2, 3]), entity(vec![0, 0])]), layer(16, vec![])],
    );
    let m = GameMap::from_root(&r).unwrap();
    assert_eq!(m.name, "Level_0");
    assert_eq!(m.starting_lives, 10);
    assert_eq!(m.starting_funds, 3);
    assert_eq!(m.width, 12);
    assert_eq!(m.height, 8);
    assert_eq!(m.grid_size, 4);
    assert_eq!(m.waypoints.len(), 2);
    assert_eq!((m.waypoints[0].x, m.waypoints[0].y), (10_000, 14_000));
    assert_eq!((m.waypoints[1].x, m.waypoints[1].y), (2_000, 2_000));
    let p = m.spawn_player();
    assert_eq!(p.get_lives(), 10);
    assert_eq!(p.get_funds(), 3);
}

#[test]
fn absent_or_negative_fields_start_at_zero() {
    let r = root(vec![field("starting_funds", -4)], vec![layer(4, vec![]), layer(16, vec![])]);
    let m = GameMap::from_root(&r).unwrap();
    assert_eq!(m.starting_lives, 0);
    assert_eq!(m.starting_funds, 0);
    assert!(m.waypoints.is_empty());
}

#[test]
fn map_without_level() {
    assert_eq!(GameMap::from_root(&Root { levels: vec![] }).err(), Some(MapError::NoLevel));
}

#[test]
fn map_missing_ground_layer() {
    let r = root(vec![], vec![layer(16, vec![])]);
    assert_eq!(GameMap::from_root(&r).err(), Some(MapError::MissingLayer));
}

#[test]
fn malformed_waypoint() {
    let r = root(vec![], vec![layer(4, vec![entity(vec![1, 1]), entity(vec![1])]), layer(16, vec![])]);
    assert_eq!(GameMap::from_root(&r).err(), Some(MapError::MalformedWaypoint));
}

#[test]
fn waypoint_out_of_range() {
    let r = root(
        vec![],
        vec![layer(4, vec![entity(vec![10_000_000, 0]), entity(vec![1])]), layer(16, vec![])],
    );
    assert_eq!(GameMap::from_root(&r).err(), Some(MapError::WaypointOutOfRange));
}

#[test]
fn ground_type_values() {
    assert_eq!(GroundType::Path.grid_value(), 2);
    assert_eq!(GroundType::Lowered.grid_value(), 5);
    assert_eq!(GroundType::from_grid_value(4), Some(GroundType::Buildable));
    assert_eq!(GroundType::from_grid_value(3), Some(GroundType::Raised));
    assert_eq!(GroundType::from_grid_value(1), None);
    assert_eq!(GroundType::from_grid_value(6), None);
}
