use vstd::prelude::*;
use crate::geometry::Point2;
use crate::player::Player;

verus! {

/// A field of a level: its name and integer value.
#[derive(Clone, Debug)]
pub struct FieldInstance {
    pub identifier: String,
    pub value: i64,
}

/// An entity placed on a layer, with its cell coordinates in `grid`.
#[derive(Clone, Debug)]
pub struct EntityInstance {
    pub identifier: String,
    pub grid: Vec<i64>,
    pub px: Vec<i64>,
}

/// A layer of a level: its cell size in pixels, its width and height in
/// cells, the entities placed on it and its integer grid.
#[derive(Clone, Debug)]
pub struct LayerInstance {
    pub identifier: String,
    pub grid_size: i64,
    pub c_wid: i64,
    pub c_hei: i64,
    pub entity_instances: Vec<EntityInstance>,
    pub int_grid_csv: Vec<i64>,
}

/// One level of a level-editor project.
#[derive(Clone, Debug)]
pub struct Level {
    pub identifier: String,
    pub field_instances: Vec<FieldInstance>,
    pub layer_instances: Vec<LayerInstance>,
}

/// A level-editor project: the parts of it that a match is built from.
#[derive(Clone, Debug)]
pub struct Root {
    pub levels: Vec<Level>,
}

/// The map a match is played on. `width` and `height` count cells,
/// `grid_size` is a cell's side in world units, and the waypoints are in
/// fixed-point steps.
#[derive(Clone, Debug)]
pub struct GameMap {
    pub starting_lives: u32,
    pub starting_funds: u32,
    pub name: String,
    pub width: u32,
    pub height: u32,
    pub waypoints: Vec<Point2>,
    pub grid_size: u32,
}

/// Why a level could not be turned into a map.
#[derive(Clone, Copy, PartialEq, Eq, Structural, Debug)]
pub enum MapError {
    /// The project holds no level.
    NoLevel,
    /// The first level has fewer than two layers: the path layer and the
    /// ground layer.
    MissingLayer,
    /// A waypoint entity lacks one of its two cell coordinates.
    MalformedWaypoint,
    /// A waypoint lies outside the coordinates that the map can hold.
    WaypointOutOfRange,
}

/// The kinds of cell of the ground layer, as the level editor numbers them.
#[derive(Clone, Copy, PartialEq, Eq, Structural, Debug)]
pub enum GroundType {
    Path,
    Raised,
    Buildable,
    Lowered,
}

pub open spec fn ground_value(t: GroundType) -> int {
    match t {
        GroundType::Path => 2,
        GroundType::Raised => 3,
        GroundType::Buildable => 4,
        GroundType::Lowered => 5,
    }
}

impl GroundType {
    /// The number the level editor gives this kind of cell.
    pub fn grid_value(&self) -> (r: i64)
        ensures
            r == ground_value(*self),
    {
        match self {
            GroundType::Path => 2,
            GroundType::Raised => 3,
            GroundType::Buildable => 4,
            GroundType::Lowered => 5,
        }
    }

    /// The kind of cell that the level editor numbers `v`, if any.
    pub fn from_grid_value(v: i64) -> (r: Option<GroundType>)
        ensures
            r.is_some() <==> 2 <= v <= 5,
            r.is_some() ==> ground_value(r.unwrap()) == v,
    {
        if v == 2 {
            Some(GroundType::Path)
        } else if v == 3 {
            Some(GroundType::Raised)
        } else if v == 4 {
            Some(GroundType::Buildable)
        } else if v == 5 {
            Some(GroundType::Lowered)
        } else {
            None
        }
    }
}

/// `v` brought into the range of `u32`.
pub open spec fn clamp_u32(v: int) -> u32 {
    if v < 0 {
        0
    } else if v > u32::MAX {
        u32::MAX
    } else {
        v as u32
    }
}

fn to_u32_clamped(v: i64) -> (r: u32)
    ensures
        r == clamp_u32(v as int),
{
    if v < 0 {
        0
    } else if v > u32::MAX as i64 {
        u32::MAX
    } else {
        v as u32
    }
}

/// The value of the first field named `key`.
pub open spec fn field_value(fields: Seq<FieldInstance>, key: Seq<char>) -> Option<i64>
    decreases fields.len(),
{
    if fields.len() == 0 {
        None
    } else if fields[0].identifier@ == key {
        Some(fields[0].value)
    } else {
        field_value(fields.drop_first(), key)
    }
}

/// A starting amount as read from a field: zero when the field is absent.
pub open spec fn starting_amount(fields: Seq<FieldInstance>, key: Seq<char>) -> u32 {
    match field_value(fields, key) {
        None => 0,
        Some(v) => clamp_u32(v as int),
    }
}

/// The value of the first field named `key`, if there is one.
pub fn find_field(fields: &Vec<FieldInstance>, key: &String) -> (r: Option<i64>)
    ensures
        r == field_value(fields@, key@),
{
    let mut i: usize = 0;
    assert(fields@.subrange(0, fields@.len() as int) =~= fields@);
    while i < fields.len()
        invariant
            i <= fields.len(),
            field_value(fields@, key@) == field_value(fields@.subrange(i as int, fields@.len() as int), key@),
        decreases fields.len() - i,
    {
        let ghost rest = fields@.subrange(i as int, fields@.len() as int);
        assert(rest.drop_first() =~= fields@.subrange(i as int + 1, fields@.len() as int));
        if fields[i].identifier == *key {
            return Some(fields[i].value);
        }
        i = i + 1;
    }
    None
}

/// The coordinate, in fixed-point steps, of the centre of cell `g` along an
/// axis whose cells are `grid_size` pixels wide. Four pixels make one world
/// unit, and one unit is a thousand steps: the centre lies at
/// `(g + 1/2) * grid_size / 4` units.
pub open spec fn cell_center(g: int, grid_size: int) -> int {
    (2 * g + 1) * grid_size * 125
}

pub open spec fn fits_i32(v: int) -> bool {
    i32::MIN <= v <= i32::MAX
}

/// What an entity of the path layer says of its waypoint.
pub open spec fn waypoint_of(e: EntityInstance, grid_size: int) -> Result<Point2, MapError> {
    if e.grid@.len() < 2 {
        Err(MapError::MalformedWaypoint)
    } else {
        let x = cell_center(e.grid@[0] as int, grid_size);
        let y = cell_center(e.grid@[1] as int, grid_size);
        if fits_i32(x) && fits_i32(y) {
            Ok(Point2 { x: x as i32, y: y as i32 })
        } else {
            Err(MapError::WaypointOutOfRange)
        }
    }
}

fn center_coordinate(g: i64, grid_size: i64) -> (r: Option<i32>)
    ensures
        r.is_some() <==> fits_i32(cell_center(g as int, grid_size as int)),
        r.is_some() ==> r.unwrap() == cell_center(g as int, grid_size as int),
{
    if grid_size == 0 {
        assert(cell_center(g as int, 0) == 0) by (nonlinear_arith);
        return Some(0);
    }
    let lim: i64 = 0x8000_0000;
    if g < -lim || g > lim || grid_size < -lim || grid_size > lim {
        assert(!fits_i32(cell_center(g as int, grid_size as int))) by (nonlinear_arith)
            requires
                grid_size != 0,
                g < -0x8000_0000 || g > 0x8000_0000 || grid_size < -0x8000_0000 || grid_size
                    > 0x8000_0000,
        ;
        return None;
    }
    let a: i128 = 2 * g as i128 + 1;
    assert(-0x2_0000_0000_0000_0000 <= a * grid_size as i128 <= 0x2_0000_0000_0000_0000)
        by (nonlinear_arith)
        requires
            -0x1_0000_0001 <= a <= 0x1_0000_0001,
            -0x8000_0000 <= grid_size <= 0x8000_0000,
    ;
    let b: i128 = a * grid_size as i128;
    let c: i128 = b * 125;
    if c < i32::MIN as i128 || c > i32::MAX as i128 {
        None
    } else {
        Some(c as i32)
    }
}

fn waypoint_from(e: &EntityInstance, grid_size: i64) -> (r: Result<Point2, MapError>)
    ensures
        r == waypoint_of(*e, grid_size as int),
{
    if e.grid.len() < 2 {
        return Err(MapError::MalformedWaypoint);
    }
    let x = center_coordinate(e.grid[0], grid_size);
    let y = center_coordinate(e.grid[1], grid_size);
    match (x, y) {
        (Some(x), Some(y)) => Ok(Point2 { x, y }),
        _ => Err(MapError::WaypointOutOfRange),
    }
}

/// Whether the `i`-th entity is the first whose waypoint is in error.
pub open spec fn first_bad_waypoint(entities: Seq<EntityInstance>, grid_size: int, i: int) -> bool {
    &&& 0 <= i < entities.len()
    &&& waypoint_of(entities[i], grid_size).is_err()
    &&& forall|j: int| 0 <= j < i ==> waypoint_of(#[trigger] entities[j], grid_size).is_ok()
}

/// The waypoints of the path layer's entities, in their order.
pub open spec fn waypoints_of(entities: Seq<EntityInstance>, grid_size: int) -> Seq<Point2> {
    entities.map_values(|e: EntityInstance| waypoint_of(e, grid_size)->Ok_0)
}

/// The error, if any, that turning `root` into a map meets first.
pub open spec fn map_error(root: Root) -> Option<MapError> {
    if root.levels@.len() == 0 {
        Some(MapError::NoLevel)
    } else if root.levels@[0].layer_instances@.len() < 2 {
        Some(MapError::MissingLayer)
    } else {
        let level = root.levels@[0];
        let entities = level.layer_instances@[0].entity_instances@;
        let gs = level.layer_instances@[1].grid_size as int;
        if exists|i: int| first_bad_waypoint(entities, gs, i) {
            let i = choose|i: int| first_bad_waypoint(entities, gs, i);
            Some(waypoint_of(entities[i], gs)->Err_0)
        } else {
            None
        }
    }
}

/// The map that a well-formed `root` describes.
pub open spec fn map_matches(root: Root, m: GameMap) -> bool {
    let level = root.levels@[0];
    let ground = level.layer_instances@[1];
    let path = level.layer_instances@[0];
    &&& m.name@ == level.identifier@
    &&& m.starting_lives == starting_amount(level.field_instances@, "starting_lives"@)
    &&& m.starting_funds == starting_amount(level.field_instances@, "starting_funds"@)
    &&& m.width == clamp_u32(ground.c_wid as int)
    &&& m.height == clamp_u32(ground.c_hei as int)
    &&& m.grid_size == (if ground.grid_size < 0 { 0 } else { clamp_u32(ground.grid_size / 4) })
    &&& m.waypoints@ == waypoints_of(path.entity_instances@, ground.grid_size as int)
}

fn collect_waypoints(entities: &Vec<EntityInstance>, grid_size: i64) -> (r: Result<
    Vec<Point2>,
    MapError,
>)
    ensures
        r.is_ok() <==> !exists|i: int| first_bad_waypoint(entities@, grid_size as int, i),
        r.is_ok() ==> r.unwrap()@ == waypoints_of(entities@, grid_size as int),
        r.is_err() ==> exists|i: int|
            first_bad_waypoint(entities@, grid_size as int, i) && r == Err::<Vec<Point2>, MapError>(
                waypoint_of(entities@[i], grid_size as int)->Err_0,
            ),
{
    let mut waypoints: Vec<Point2> = Vec::new();
    let mut i: usize = 0;
    while i < entities.len()
        invariant
            i <= entities.len(),
            waypoints@.len() == i,
            forall|j: int| 0 <= j < i ==> waypoint_of(#[trigger] entities@[j], grid_size as int).is_ok(),
            forall|j: int|
                0 <= j < i ==> #[trigger] waypoints@[j] == waypoint_of(
                    entities@[j],
                    grid_size as int,
                )->Ok_0,
        decreases entities.len() - i,
    {
        match waypoint_from(&entities[i], grid_size) {
            Ok(p) => {
                waypoints.push(p);
            },
            Err(e) => {
                assert(first_bad_waypoint(entities@, grid_size as int, i as int));
                return Err(e);
            },
        }
        i = i + 1;
    }
    proof {
        assert forall|k: int| !first_bad_waypoint(entities@, grid_size as int, k) by {
            if 0 <= k < entities@.len() {
                assert(waypoint_of(entities@[k], grid_size as int).is_ok());
            }
        }
        assert(waypoints@ =~= waypoints_of(entities@, grid_size as int));
    }
    Ok(waypoints)
}

impl GameMap {
    /// Builds the map from the first level of a level-editor project. Its
    /// first layer holds the path's waypoints as entities, in walking order;
    /// its second layer gives the cell size and the dimensions. The starting
    /// lives and funds come from the level's fields of those names, and are
    /// zero where a field is absent.
    pub fn from_root(root: &Root) -> (r: Result<GameMap, MapError>)
        ensures
            r.is_err() <==> map_error(*root).is_some(),
            r.is_err() ==> r == Err::<GameMap, MapError>(map_error(*root).unwrap()),
            r.is_ok() ==> map_matches(*root, r.unwrap()),
    {
        if root.levels.len() == 0 {
            return Err(MapError::NoLevel);
        }
        let level = &root.levels[0];
        if level.layer_instances.len() < 2 {
            return Err(MapError::MissingLayer);
        }
        let path = &level.layer_instances[0];
        let ground = &level.layer_instances[1];
        let waypoints = match collect_waypoints(&path.entity_instances, ground.grid_size) {
            Ok(w) => w,
            Err(e) => {
                return Err(e);
            },
        };
        let lives_key = "starting_lives".to_owned();
        let funds_key = "starting_funds".to_owned();
        let starting_lives = match find_field(&level.field_instances, &lives_key) {
            None => 0,
            Some(v) => to_u32_clamped(v),
        };
        let starting_funds = match find_field(&level.field_instances, &funds_key) {
            None => 0,
            Some(v) => to_u32_clamped(v),
        };
        let grid_size = if ground.grid_size < 0 {
            0
        } else {
            to_u32_clamped(ground.grid_size / 4)
        };
        Ok(GameMap {
            starting_lives,
            starting_funds,
            name: level.identifier.clone(),
            width: to_u32_clamped(ground.c_wid),
            height: to_u32_clamped(ground.c_hei),
            waypoints,
            grid_size,
        })
    }

    /// The player as a match on this map begins.
    pub fn spawn_player(&self) -> (r: Player)
        ensures
            r.funds() == self.starting_funds,
            r.life_count() == self.starting_lives,
    {
        Player::new(self.starting_funds, self.starting_lives)
    }
}

} // verus!
