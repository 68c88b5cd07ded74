use vstd::prelude::*;
use crate::bullet::{Bullet, Lifetime, BULLET_LIFETIME_US};
use crate::geometry::{dist2_from, distance_squared_from, Offset3, Point3};
use crate::player::Player;
use crate::timer::{Countdown, CountdownView};

verus! {

/// The reach of every tower, in steps: four and a half units.
pub const TOWER_RANGE: u32 = 4500;

/// The kinds of tower the player can build.
#[derive(Clone, Copy, PartialEq, Eq, Structural, Debug)]
pub enum TowerType {
    Lazer,
    Cannon,
    Rock,
}

/// A placed tower: its firing cadence, where its projectiles leave from
/// relative to the tower, and how far it reaches, in steps.
#[derive(Clone, Copy, Debug)]
pub struct Tower {
    pub shooting_timer: Countdown,
    pub bullet_offset: Point3,
    pub range: u32,
}

/// A tower button of the build menu: the price of its tower and whether the
/// player can pay it.
#[derive(Clone, Copy, PartialEq, Eq, Structural, Debug, Default)]
pub struct TowerButtonState {
    cost: u32,
    affordable: bool,
}

/// A projectile as a tower fires it: its flight, and the time it has.
#[derive(Clone, Copy, Debug)]
pub struct Shot {
    pub bullet: Bullet,
    pub lifetime: Lifetime,
}

/// Why a tower could not be placed.
#[derive(Clone, Copy, PartialEq, Eq, Structural, Debug)]
pub enum PlacementError {
    InsufficientFunds { cost: u32, funds: u32 },
}

/// Price of a tower, in currency units.
pub open spec fn cost_of(t: TowerType) -> nat {
    match t {
        TowerType::Lazer => 1,
        TowerType::Cannon => 2,
        TowerType::Rock => 5,
    }
}

/// Microseconds between two shots.
pub open spec fn fire_period_of(t: TowerType) -> nat {
    match t {
        TowerType::Lazer => 250_000,
        TowerType::Cannon => 500_000,
        TowerType::Rock => 750_000,
    }
}

/// Projectile speed, in steps per second.
pub open spec fn bullet_speed_of(t: TowerType) -> nat {
    match t {
        TowerType::Lazer => 10_500,
        TowerType::Cannon => 6_500,
        TowerType::Rock => 3_500,
    }
}

/// A point given by 64-bit coordinates that lies within twice the range of
/// `i32` from the world origin: a world point moved by an in-world offset.
pub open spec fn near_world(p: Offset3) -> bool {
    &&& -0x1_0000_0000 <= p.x <= 0x1_0000_0000
    &&& -0x1_0000_0000 <= p.y <= 0x1_0000_0000
    &&& -0x1_0000_0000 <= p.z <= 0x1_0000_0000
}

pub open spec fn dist2_to(from: Offset3, p: Point3) -> int {
    dist2_from(from.x as int, from.y as int, from.z as int, p)
}

/// Whether `p` is strictly closer than `range` to `from`.
pub open spec fn within_range(from: Offset3, range: nat, p: Point3) -> bool {
    dist2_to(from, p) < range * range
}

/// Whether some target is within range.
pub open spec fn any_in_range(from: Offset3, range: nat, targets: Seq<Point3>) -> bool {
    exists|j: int| 0 <= j < targets.len() && within_range(from, range, #[trigger] targets[j])
}

/// `targets[i]` is the target in range nearest to `from`, and the first in
/// sequence among those at that distance.
pub open spec fn is_nearest_in_range(from: Offset3, range: nat, targets: Seq<Point3>, i: int) -> bool {
    &&& 0 <= i < targets.len()
    &&& within_range(from, range, targets[i])
    &&& forall|j: int|
        0 <= j < targets.len() && within_range(from, range, #[trigger] targets[j]) ==> dist2_to(
            from,
            targets[i],
        ) <= dist2_to(from, targets[j])
    &&& forall|j: int|
        0 <= j < i && within_range(from, range, #[trigger] targets[j]) ==> dist2_to(
            from,
            targets[i],
        ) < dist2_to(from, targets[j])
}

/// A tower of type `t` as placed: its first shot one full period away.
pub open spec fn is_fresh_tower(tower: Tower, t: TowerType) -> bool {
    &&& tower.shooting_timer@ == (CountdownView {
        period: fire_period_of(t),
        remaining: fire_period_of(t),
        repeating: true,
    })
    &&& tower.bullet_offset == (Point3 { x: 0, y: 0, z: 0 })
    &&& tower.range == TOWER_RANGE
}

pub open spec fn offset_between(from: Offset3, to: Point3) -> Offset3 {
    Offset3 { x: (to.x - from.x) as i64, y: (to.y - from.y) as i64, z: (to.z - from.z) as i64 }
}

pub open spec fn spawn_point_of(position: Point3, offset: Point3) -> Offset3 {
    Offset3 {
        x: (position.x + offset.x) as i64,
        y: (position.y + offset.y) as i64,
        z: (position.z + offset.z) as i64,
    }
}

/// Selects the target strictly within `range` of `from` that is nearest to
/// it; among targets at equal distance, the first. `None` when no target is
/// in range.
pub fn nearest_in_range(from: Offset3, range: u32, targets: &Vec<Point3>) -> (r: Option<usize>)
    requires
        near_world(from),
    ensures
        r.is_none() <==> !any_in_range(from, range as nat, targets@),
        r.is_some() ==> is_nearest_in_range(from, range as nat, targets@, r.unwrap() as int),
{
    assert(range as u128 * range as u128 <= u128::MAX) by (nonlinear_arith)
        requires
            range <= u32::MAX,
    ;
    let range2: u128 = range as u128 * range as u128;
    let mut best: Option<usize> = None;
    let mut best_d: u128 = 0;
    let mut i: usize = 0;
    while i < targets.len()
        invariant
            i <= targets.len(),
            range2 == range * range,
            near_world(from),
            best.is_none() ==> forall|j: int|
                0 <= j < i ==> !within_range(from, range as nat, #[trigger] targets@[j]),
            best.is_some() ==> {
                &&& best.unwrap() < i
                &&& best_d == dist2_to(from, targets@[best.unwrap() as int])
                &&& within_range(from, range as nat, targets@[best.unwrap() as int])
                &&& forall|j: int|
                    0 <= j < i && within_range(from, range as nat, #[trigger] targets@[j])
                        ==> best_d <= dist2_to(from, targets@[j])
                &&& forall|j: int|
                    0 <= j < best.unwrap() && within_range(from, range as nat, #[trigger] targets@[j])
                        ==> best_d < dist2_to(from, targets@[j])
            },
        decreases targets.len() - i,
    {
        let d = distance_squared_from(from.x, from.y, from.z, targets[i]);
        if d < range2 {
            match best {
                None => {
                    best = Some(i);
                    best_d = d;
                },
                Some(_) => {
                    if d < best_d {
                        best = Some(i);
                        best_d = d;
                    }
                },
            }
        }
        i = i + 1;
    }
    best
}

impl Tower {
    /// Where this tower's projectiles leave from, when it stands at `position`.
    pub fn bullet_spawn(&self, position: Point3) -> (r: Offset3)
        ensures
            r == spawn_point_of(position, self.bullet_offset),
            near_world(r),
    {
        Offset3 {
            x: position.x as i64 + self.bullet_offset.x as i64,
            y: position.y as i64 + self.bullet_offset.y as i64,
            z: position.z as i64 + self.bullet_offset.z as i64,
        }
    }

    /// Advances the firing cadence by `dt_us` microseconds. When a shot is
    /// due and some target is in range, returns the direction from the
    /// projectile's spawn point to the nearest target in range. No shot is
    /// fired when no target is in range.
    pub fn tower_shooting(&mut self, position: Point3, dt_us: u64, targets: &Vec<Point3>) -> (r:
        Option<Offset3>)
        ensures
            final(self).shooting_timer@.remaining == old(
                self,
            ).shooting_timer@.remaining_after(dt_us as nat),
            final(self).shooting_timer@.period == old(self).shooting_timer@.period,
            final(self).shooting_timer@.repeating == old(self).shooting_timer@.repeating,
            final(self).range == old(self).range,
            final(self).bullet_offset == old(self).bullet_offset,
            r.is_some() <==> old(self).shooting_timer@.fires(dt_us as nat) && any_in_range(
                spawn_point_of(position, old(self).bullet_offset),
                old(self).range as nat,
                targets@,
            ),
            r.is_some() ==> exists|i: int|
                is_nearest_in_range(
                    spawn_point_of(position, old(self).bullet_offset),
                    old(self).range as nat,
                    targets@,
                    i,
                ) && r.unwrap() == offset_between(
                    spawn_point_of(position, old(self).bullet_offset),
                    targets@[i],
                ),
    {
        let fired = self.shooting_timer.tick(dt_us);
        if !fired {
            return None;
        }
        let spawn = self.bullet_spawn(position);
        match nearest_in_range(spawn, self.range, targets) {
            None => None,
            Some(i) => {
                let t = targets[i];
                Some(
                    Offset3 {
                        x: t.x as i64 - spawn.x,
                        y: t.y as i64 - spawn.y,
                        z: t.z as i64 - spawn.z,
                    },
                )
            },
        }
    }
}

impl TowerButtonState {
    pub closed spec fn spec_cost(&self) -> u32 {
        self.cost
    }

    pub closed spec fn spec_affordable(&self) -> bool {
        self.affordable
    }

    /// The button of a tower type, not yet known to be affordable.
    pub fn new(tower_type: TowerType) -> (r: TowerButtonState)
        ensures
            r.spec_cost() == cost_of(tower_type),
            !r.spec_affordable(),
    {
        TowerButtonState { cost: tower_type.cost(), affordable: false }
    }

    pub fn cost(&self) -> (r: u32)
        ensures
            r == self.spec_cost(),
    {
        self.cost
    }

    pub fn affordable(&self) -> (r: bool)
        ensures
            r == self.spec_affordable(),
    {
        self.affordable
    }

    /// Records whether `funds` pay for the tower; returns the new state.
    pub fn update_tower_button_states(&mut self, funds: u32) -> (r: bool)
        ensures
            r == (funds >= old(self).spec_cost()),
            final(self).spec_affordable() == r,
            final(self).spec_cost() == old(self).spec_cost(),
    {
        self.affordable = funds >= self.cost;
        self.affordable
    }
}

impl Tower {
    /// Advances the firing cadence of a tower of type `kind` by `dt_us`
    /// microseconds. When a shot is due and some target is in range, returns
    /// the projectile fired at the nearest target in range: it heads from the
    /// spawn point to that target at the speed of the tower's type, with a
    /// fresh one-shot lifetime.
    pub fn shoot(&mut self, kind: TowerType, position: Point3, dt_us: u64, targets: &Vec<Point3>) -> (r:
        Option<Shot>)
        ensures
            final(self).shooting_timer@.remaining == old(
                self,
            ).shooting_timer@.remaining_after(dt_us as nat),
            final(self).shooting_timer@.period == old(self).shooting_timer@.period,
            final(self).shooting_timer@.repeating == old(self).shooting_timer@.repeating,
            final(self).range == old(self).range,
            final(self).bullet_offset == old(self).bullet_offset,
            r.is_some() <==> old(self).shooting_timer@.fires(dt_us as nat) && any_in_range(
                spawn_point_of(position, old(self).bullet_offset),
                old(self).range as nat,
                targets@,
            ),
            r.is_some() ==> exists|i: int|
                is_nearest_in_range(
                    spawn_point_of(position, old(self).bullet_offset),
                    old(self).range as nat,
                    targets@,
                    i,
                ) && r.unwrap().bullet.direction == offset_between(
                    spawn_point_of(position, old(self).bullet_offset),
                    targets@[i],
                ),
            r.is_some() ==> r.unwrap().bullet.speed == bullet_speed_of(kind),
            r.is_some() ==> r.unwrap().lifetime.timer@ == (CountdownView {
                period: BULLET_LIFETIME_US as nat,
                remaining: BULLET_LIFETIME_US as nat,
                repeating: false,
            }),
    {
        match self.tower_shooting(position, dt_us, targets) {
            None => None,
            Some(direction) => Some(Shot { bullet: kind.get_bullet(direction), lifetime: Lifetime::new() }),
        }
    }
}

impl TowerType {
    /// What the tower costs to place.
    pub fn cost(&self) -> (r: u32)
        ensures
            r == cost_of(*self),
    {
        match self {
            TowerType::Lazer => 1,
            TowerType::Cannon => 2,
            TowerType::Rock => 5,
        }
    }

    /// A freshly placed tower of this type.
    pub fn get_tower(&self) -> (r: Tower)
        ensures
            is_fresh_tower(r, *self),
    {
        let period: u64 = match self {
            TowerType::Lazer => 250_000,
            TowerType::Cannon => 500_000,
            TowerType::Rock => 750_000,
        };
        Tower {
            shooting_timer: Countdown::repeating(period),
            bullet_offset: Point3 { x: 0, y: 0, z: 0 },
            range: TOWER_RANGE,
        }
    }

    /// A projectile of this tower type heading along `direction`.
    pub fn get_bullet(&self, direction: Offset3) -> (r: Bullet)
        ensures
            r.direction == direction,
            r.speed == bullet_speed_of(*self),
    {
        let speed: u32 = match self {
            TowerType::Lazer => 10_500,
            TowerType::Cannon => 6_500,
            TowerType::Rock => 3_500,
        };
        Bullet { direction, speed }
    }

    /// Pays for a tower of this type out of the player's funds. When the
    /// funds do not cover the cost, nothing is paid and the tower is refused.
    pub fn purchase(&self, player: &mut Player) -> (r: Result<Tower, PlacementError>)
        ensures
            final(player).life_count() == old(player).life_count(),
            r.is_ok() <==> old(player).funds() >= cost_of(*self),
            r.is_ok() ==> final(player).funds() == old(player).funds() - cost_of(*self)
                && is_fresh_tower(r.unwrap(), *self),
            r.is_err() ==> final(player).funds() == old(player).funds() && r == Err::<
                Tower,
                PlacementError,
            >(PlacementError::InsufficientFunds { cost: cost_of(*self) as u32, funds: old(player).funds() as u32 }),
    {
        let cost = self.cost();
        let funds = player.get_funds();
        match player.spend_funds(cost) {
            Some(_) => Ok(self.get_tower()),
            None => Err(PlacementError::InsufficientFunds { cost, funds }),
        }
    }
}

} // verus!
