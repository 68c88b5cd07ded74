use vstd::prelude::*;
use crate::geometry::{
    dist2_2, floor_sqrt, moved_toward, step_toward, travel, travel_distance, Point2, Point3,
};
use crate::player::Player;
use crate::timer::{Countdown, CountdownView};

verus! {

/// Walking speed of an enemy, in steps per second.
pub const ENEMY_SPEED: u32 = 1400;

/// Hit points of a freshly spawned enemy.
pub const ENEMY_HEALTH: u32 = 4;

/// Height above the ground at which enemies walk, in steps.
pub const ENEMY_HEIGHT: i32 = 100;

/// Microseconds between two enemy spawns.
pub const MOB_SPAWN_PERIOD_US: u64 = 1_500_000;

/// An enemy's walking speed, in steps per second, and the index of the
/// waypoint it heads for.
#[derive(Clone, Copy, PartialEq, Eq, Structural, Debug, Default)]
pub struct Target {
    pub speed: u32,
    pub path_index: usize,
}

/// Hit points; an enemy with none left is dead.
#[derive(Clone, Copy, PartialEq, Eq, Structural, Debug, Default)]
pub struct Health {
    pub value: u32,
}

/// An enemy on the field.
#[derive(Clone, Copy, PartialEq, Eq, Structural, Debug)]
pub struct Enemy {
    pub target: Target,
    pub health: Health,
    pub position: Point3,
}

/// Hit points left after taking `amount` damage: never below zero.
pub open spec fn damaged(value: nat, amount: nat) -> nat {
    if value >= amount {
        (value - amount) as nat
    } else {
        0
    }
}

/// Whether the enemy has passed the last of `waypoint_count` waypoints.
pub open spec fn has_escaped(e: Enemy, waypoint_count: nat) -> bool {
    e.target.path_index >= waypoint_count
}

pub open spec fn is_alive(e: Enemy) -> bool {
    e.health.value > 0
}

/// The enemies that are still on the path.
pub open spec fn on_path(enemies: Seq<Enemy>, waypoint_count: nat) -> Seq<Enemy> {
    enemies.filter(|e: Enemy| !has_escaped(e, waypoint_count))
}

/// The enemies that are still alive.
pub open spec fn survivors(enemies: Seq<Enemy>) -> Seq<Enemy> {
    enemies.filter(|e: Enemy| is_alive(e))
}

/// How many enemies have passed the end of the path.
pub open spec fn escaped_count(enemies: Seq<Enemy>, waypoint_count: nat) -> nat {
    (enemies.len() - on_path(enemies, waypoint_count).len()) as nat
}

/// How many enemies are dead.
pub open spec fn dead_count(enemies: Seq<Enemy>) -> nat {
    (enemies.len() - survivors(enemies).len()) as nat
}

/// Ground-plane position of an enemy.
pub open spec fn ground_of(p: Point3) -> Point2 {
    Point2 { x: p.x, y: p.z }
}

/// The enemy after one step of `dt` microseconds along `waypoints`.
pub open spec fn walked(e: Enemy, waypoints: Seq<Point2>, dt: nat) -> Enemy {
    if e.target.path_index >= waypoints.len() {
        e
    } else {
        let from = ground_of(e.position);
        let goal = waypoints[e.target.path_index as int];
        let dist = travel(e.target.speed as nat, dt);
        if dist2_2(from, goal) <= dist * dist {
            Enemy { target: Target { path_index: (e.target.path_index + 1) as usize, ..e.target }, ..e }
        } else {
            let m = moved_toward(from, goal, dist as int, floor_sqrt(dist2_2(from, goal) as nat) as int);
            Enemy { position: Point3 { x: m.0 as i32, y: e.position.y, z: m.1 as i32 }, ..e }
        }
    }
}

impl Health {
    /// Takes `amount` damage; hit points stop at zero.
    pub fn take_damage(&mut self, amount: u32)
        ensures
            final(self).value == damaged(old(self).value as nat, amount as nat),
    {
        if amount <= self.value {
            self.value = self.value - amount;
        } else {
            self.value = 0;
        }
    }

    pub fn is_dead(&self) -> (r: bool)
        ensures
            r == (self.value == 0),
    {
        self.value == 0
    }
}

impl Enemy {
    /// A fresh enemy standing at `start`, heading for the first waypoint.
    pub fn new(start: Point2) -> (r: Enemy)
        ensures
            r.target == (Target { speed: ENEMY_SPEED, path_index: 0 }),
            r.health == (Health { value: ENEMY_HEALTH }),
            r.position == (Point3 { x: start.x, y: ENEMY_HEIGHT, z: start.y }),
    {
        Enemy {
            target: Target { speed: ENEMY_SPEED, path_index: 0 },
            health: Health { value: ENEMY_HEALTH },
            position: Point3 { x: start.x, y: ENEMY_HEIGHT, z: start.y },
        }
    }

    /// Whether the enemy has passed the last of `waypoint_count` waypoints.
    pub fn reached_end(&self, waypoint_count: usize) -> (r: bool)
        ensures
            r == has_escaped(*self, waypoint_count as nat),
    {
        self.target.path_index >= waypoint_count
    }

    /// Walks the enemy for `dt_us` microseconds toward its current waypoint.
    /// When the waypoint is within this step's reach the enemy stays where it
    /// is and heads for the next waypoint instead.
    pub fn move_target(&mut self, waypoints: &Vec<Point2>, dt_us: u64)
        ensures
            *final(self) == walked(*old(self), waypoints@, dt_us as nat),
    {
        let idx = self.target.path_index;
        if idx >= waypoints.len() {
            return;
        }
        let dist = travel_distance(self.target.speed, dt_us);
        let from = Point2 { x: self.position.x, y: self.position.z };
        match step_toward(from, waypoints[idx], dist) {
            None => {
                self.target.path_index = idx + 1;
            },
            Some(p) => {
                self.position = Point3 { x: p.x, y: self.position.y, z: p.y };
            },
        }
    }
}

/// Walks every enemy for `dt_us` microseconds along `waypoints`.
pub fn move_targets(enemies: &mut Vec<Enemy>, waypoints: &Vec<Point2>, dt_us: u64)
    ensures
        final(enemies)@.len() == old(enemies)@.len(),
        forall|i: int|
            0 <= i < old(enemies)@.len() ==> #[trigger] final(enemies)@[i] == walked(
                old(enemies)@[i],
                waypoints@,
                dt_us as nat,
            ),
{
    let mut i: usize = 0;
    while i < enemies.len()
        invariant
            i <= enemies.len(),
            enemies@.len() == old(enemies)@.len(),
            forall|j: int|
                0 <= j < i ==> #[trigger] enemies@[j] == walked(
                    old(enemies)@[j],
                    waypoints@,
                    dt_us as nat,
                ),
            forall|j: int| i <= j < enemies@.len() ==> #[trigger] enemies@[j] == old(enemies)@[j],
        decreases enemies.len() - i,
    {
        let mut e = enemies[i];
        e.move_target(waypoints, dt_us);
        enemies.set(i, e);
        i = i + 1;
    }
}

/// Deals `hits[i]` damage to the `i`-th enemy, one point for each projectile
/// that struck it.
pub fn bullet_collision_detection(enemies: &mut Vec<Enemy>, hits: &Vec<u32>)
    requires
        hits.len() == old(enemies).len(),
    ensures
        final(enemies)@.len() == old(enemies)@.len(),
        forall|i: int|
            0 <= i < old(enemies)@.len() ==> {
                &&& #[trigger] final(enemies)@[i].health.value == damaged(
                    old(enemies)@[i].health.value as nat,
                    hits@[i] as nat,
                )
                &&& final(enemies)@[i].target == old(enemies)@[i].target
                &&& final(enemies)@[i].position == old(enemies)@[i].position
            },
{
    let mut i: usize = 0;
    while i < enemies.len()
        invariant
            i <= enemies.len(),
            hits.len() == enemies.len(),
            enemies@.len() == old(enemies)@.len(),
            forall|j: int|
                0 <= j < i ==> {
                    &&& #[trigger] enemies@[j].health.value == damaged(
                        old(enemies)@[j].health.value as nat,
                        hits@[j] as nat,
                    )
                    &&& enemies@[j].target == old(enemies)@[j].target
                    &&& enemies@[j].position == old(enemies)@[j].position
                },
            forall|j: int| i <= j < enemies@.len() ==> #[trigger] enemies@[j] == old(enemies)@[j],
        decreases enemies.len() - i,
    {
        let mut e = enemies[i];
        e.health.take_damage(hits[i]);
        enemies.set(i, e);
        i = i + 1;
    }
}

/// The enemies that have passed the end of the path.
pub open spec fn escapees(enemies: Seq<Enemy>, waypoint_count: nat) -> Seq<Enemy> {
    enemies.filter(|e: Enemy| has_escaped(e, waypoint_count))
}

proof fn lemma_filter_all<A>(s: Seq<A>, pred: spec_fn(A) -> bool)
    requires
        forall|i: int| 0 <= i < s.len() ==> pred(#[trigger] s[i]),
    ensures
        s.filter(pred) == s,
    decreases s.len(),
{
    reveal(Seq::filter);
    if s.len() > 0 {
        lemma_filter_all(s.drop_last(), pred);
        assert(s.drop_last().push(s.last()) =~= s);
    }
}

/// Every enemy is either still on the path or has escaped: the count of
/// escapes is the number of enemies past the end, each counted once, and
/// the enemies left on the path include none that escaped, so a second
/// check removes nothing and costs no life.
pub proof fn lemma_escape_counted_once(enemies: Seq<Enemy>, waypoint_count: nat)
    ensures
        escaped_count(enemies, waypoint_count) == escapees(enemies, waypoint_count).len(),
        forall|i: int|
            0 <= i < on_path(enemies, waypoint_count).len() ==> !has_escaped(
                #[trigger] on_path(enemies, waypoint_count)[i],
                waypoint_count,
            ),
        on_path(on_path(enemies, waypoint_count), waypoint_count) == on_path(
            enemies,
            waypoint_count,
        ),
        escaped_count(on_path(enemies, waypoint_count), waypoint_count) == 0,
    decreases enemies.len(),
{
    reveal(Seq::filter);
    let keep = |e: Enemy| !has_escaped(e, waypoint_count);
    if enemies.len() > 0 {
        lemma_escape_counted_once(enemies.drop_last(), waypoint_count);
    }
    let kept = on_path(enemies, waypoint_count);
    assert forall|i: int| 0 <= i < kept.len() implies !has_escaped(
        #[trigger] kept[i],
        waypoint_count,
    ) by {
        enemies.lemma_filter_pred(keep, i);
    }
    lemma_filter_all(kept, keep);
}

/// Lives left after `escaped` enemies each took one: never below zero.
pub open spec fn lives_after(lives: nat, escaped: nat) -> nat {
    if lives >= escaped {
        (lives - escaped) as nat
    } else {
        0
    }
}

/// Removes the enemies that have passed the last of `waypoint_count`
/// waypoints, taking one of the player's lives for each. Returns, for each
/// enemy of the list as it was, whether it was removed.
pub fn check_waypoints(enemies: &mut Vec<Enemy>, waypoint_count: usize, player: &mut Player) -> (r:
    Vec<bool>)
    ensures
        final(enemies)@ == on_path(old(enemies)@, waypoint_count as nat),
        r@ == old(enemies)@.map_values(|e: Enemy| has_escaped(e, waypoint_count as nat)),
        final(player).funds() == old(player).funds(),
        final(player).life_count() == lives_after(
            old(player).life_count(),
            escaped_count(old(enemies)@, waypoint_count as nat),
        ),
{
    let ghost before = enemies@;
    let ghost pred = |e: Enemy| !has_escaped(e, waypoint_count as nat);
    let mut kept: Vec<Enemy> = Vec::new();
    let mut removed: Vec<bool> = Vec::new();
    let mut escaped: usize = 0;
    let mut i: usize = 0;
    while i < enemies.len()
        invariant
            i <= enemies.len(),
            enemies@ == before,
            before == old(enemies)@,
            pred == (|e: Enemy| !has_escaped(e, waypoint_count as nat)),
            kept@ == before.subrange(0, i as int).filter(pred),
            kept@.len() <= i,
            escaped == i - kept@.len(),
            removed@.len() == i,
            forall|j: int|
                0 <= j < i ==> #[trigger] removed@[j] == has_escaped(before[j], waypoint_count as nat),
            player.funds() == old(player).funds(),
            player.life_count() == lives_after(old(player).life_count(), escaped as nat),
        decreases enemies.len() - i,
    {
        let e = enemies[i];
        proof {
            let s = before.subrange(0, i as int + 1);
            assert(s.drop_last() =~= before.subrange(0, i as int));
            assert(s.last() == e);
            reveal(Seq::filter);
        }
        let gone = e.reached_end(waypoint_count);
        if gone {
            escaped = escaped + 1;
            let _ = player.damage(1);
        } else {
            kept.push(e);
        }
        removed.push(gone);
        i = i + 1;
    }
    proof {
        assert(before.subrange(0, before.len() as int) =~= before);
        assert(removed@ =~= before.map_values(|e: Enemy| has_escaped(e, waypoint_count as nat)));
    }
    *enemies = kept;
    removed
}

/// Removes the dead enemies: each is a kill. Returns, for each enemy of
/// the list as it was, whether it was removed.
pub fn target_death(enemies: &mut Vec<Enemy>) -> (r: Vec<bool>)
    ensures
        final(enemies)@ == survivors(old(enemies)@),
        r@ == old(enemies)@.map_values(|e: Enemy| !is_alive(e)),
        old(enemies)@.len() - final(enemies)@.len() == dead_count(old(enemies)@),
{
    let ghost before = enemies@;
    let ghost pred = |e: Enemy| is_alive(e);
    let mut kept: Vec<Enemy> = Vec::new();
    let mut removed: Vec<bool> = Vec::new();
    let mut i: usize = 0;
    while i < enemies.len()
        invariant
            i <= enemies.len(),
            enemies@ == before,
            before == old(enemies)@,
            pred == (|e: Enemy| is_alive(e)),
            kept@ == before.subrange(0, i as int).filter(pred),
            kept@.len() <= i,
            removed@.len() == i,
            forall|j: int| 0 <= j < i ==> #[trigger] removed@[j] == !is_alive(before[j]),
        decreases enemies.len() - i,
    {
        let e = enemies[i];
        proof {
            let s = before.subrange(0, i as int + 1);
            assert(s.drop_last() =~= before.subrange(0, i as int));
            assert(s.last() == e);
            reveal(Seq::filter);
        }
        let dead = e.health.is_dead();
        if !dead {
            kept.push(e);
        }
        removed.push(dead);
        i = i + 1;
    }
    proof {
        assert(before.subrange(0, before.len() as int) =~= before);
        assert(removed@ =~= before.map_values(|e: Enemy| !is_alive(e)));
    }
    *enemies = kept;
    removed
}

/// Advances the spawn cadence by `dt_us` microseconds; when a spawn is due
/// and the path has a first waypoint, returns a fresh enemy standing there.
pub fn spawn_targets(spawn_delay: &mut Countdown, dt_us: u64, waypoints: &Vec<Point2>) -> (r: Option<
    Enemy,
>)
    ensures
        final(spawn_delay)@.remaining == old(spawn_delay)@.remaining_after(dt_us as nat),
        final(spawn_delay)@.period == old(spawn_delay)@.period,
        final(spawn_delay)@.repeating == old(spawn_delay)@.repeating,
        r.is_some() <==> old(spawn_delay)@.fires(dt_us as nat) && waypoints@.len() > 0,
        r.is_some() ==> r.unwrap() == (Enemy {
            target: Target { speed: ENEMY_SPEED, path_index: 0 },
            health: Health { value: ENEMY_HEALTH },
            position: Point3 { x: waypoints@[0].x, y: ENEMY_HEIGHT, z: waypoints@[0].y },
        }),
{
    let due = spawn_delay.tick(dt_us);
    if due && waypoints.len() > 0 {
        Some(Enemy::new(waypoints[0]))
    } else {
        None
    }
}

/// The cadence at which enemies enter the field.
pub fn mob_spawn_delay() -> (r: Countdown)
    ensures
        r@ == (CountdownView {
            period: MOB_SPAWN_PERIOD_US as nat,
            remaining: MOB_SPAWN_PERIOD_US as nat,
            repeating: true,
        }),
{
    Countdown::repeating(MOB_SPAWN_PERIOD_US)
}

} // verus!
