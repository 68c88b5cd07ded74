use vstd::prelude::*;
use crate::geometry::{floor_sqrt, isqrt, lemma_floor_sqrt, sq, travel, travel_distance, Offset3, Point3};
use crate::timer::{Countdown, CountdownView};

verus! {

/// How long a projectile flies before it is removed, in microseconds.
pub const BULLET_LIFETIME_US: u64 = 500_000;

/// The time a projectile has left.
#[derive(Clone, Copy, Debug)]
pub struct Lifetime {
    pub timer: Countdown,
}

/// A projectile in flight: where it heads, and how fast, in steps per second.
#[derive(Clone, Copy, PartialEq, Eq, Structural, Debug)]
pub struct Bullet {
    pub direction: Offset3,
    pub speed: u32,
}

/// `v` brought into the range of `i32`.
pub open spec fn clamp_i32(v: int) -> i32 {
    if v < i32::MIN {
        i32::MIN
    } else if v > i32::MAX {
        i32::MAX
    } else {
        v as i32
    }
}

/// Coordinate `p` moved along a direction whose component on this axis is
/// `d` and whose length, rounded down, is `len`, by `dist`: the move is
/// rounded toward zero.
pub open spec fn advanced(p: int, d: int, dist: int, len: int) -> int {
    if d >= 0 {
        p + d * dist / len
    } else {
        p - (-d) * dist / len
    }
}

/// Length of a direction, rounded down.
pub open spec fn length_of(d: Offset3) -> nat {
    floor_sqrt((sq(d.x as int) + sq(d.y as int) + sq(d.z as int)) as nat)
}

/// Where a projectile at `position`, heading along `direction`, is after
/// covering `dist`: each coordinate stops at the bounds of `i32`. A
/// projectile without a direction stays where it is.
pub open spec fn flown(position: Point3, direction: Offset3, dist: nat) -> Point3 {
    let len = length_of(direction) as int;
    if len == 0 {
        position
    } else {
        Point3 {
            x: clamp_i32(advanced(position.x as int, direction.x as int, dist as int, len)),
            y: clamp_i32(advanced(position.y as int, direction.y as int, dist as int, len)),
            z: clamp_i32(advanced(position.z as int, direction.z as int, dist as int, len)),
        }
    }
}

proof fn lemma_below_sqrt(a: nat, n: nat)
    requires
        a * a <= n,
    ensures
        a <= floor_sqrt(n),
{
    lemma_floor_sqrt(n);
    let r = floor_sqrt(n);
    if a > r {
        assert((r + 1) * (r + 1) <= a * a) by (nonlinear_arith)
            requires
                a >= r + 1,
        ;
    }
}

fn magnitude(d: i64) -> (r: u128)
    ensures
        r == d || r == -d,
        r * r == sq(d as int),
{
    let a: u128 = if d < 0 {
        (-(d as i128)) as u128
    } else {
        d as u128
    };
    assert(a * a == sq(d as int)) by (nonlinear_arith)
        requires
            a == d || a == -d,
    ;
    a
}

/// One coordinate of a projectile step; `a` is the magnitude of the
/// direction's component, at most `len`.
fn advance_coord(p: i32, d: i64, a: u128, dist: u64, len: u64) -> (r: i32)
    requires
        a == d || a == -d,
        0 <= a <= len,
        len > 0,
    ensures
        r == clamp_i32(advanced(p as int, d as int, dist as int, len as int)),
{
    assert(a * dist as u128 <= 0xffff_ffff_ffff_ffff * 0xffff_ffff_ffff_ffffu128) by (nonlinear_arith)
        requires
            a <= len,
            len <= 0xffff_ffff_ffff_ffff,
            dist <= 0xffff_ffff_ffff_ffff,
    ;
    let q: u128 = a * dist as u128 / len as u128;
    assert(q <= dist) by (nonlinear_arith)
        requires
            q == (a as int) * (dist as int) / (len as int),
            a <= len,
            len > 0,
    ;
    let v: i128 = if d >= 0 {
        p as i128 + q as i128
    } else {
        p as i128 - q as i128
    };
    if v < i32::MIN as i128 {
        i32::MIN
    } else if v > i32::MAX as i128 {
        i32::MAX
    } else {
        v as i32
    }
}

impl Bullet {
    /// Where the projectile at `position` is after `dt_us` microseconds of
    /// flight at its speed along its direction.
    pub fn move_bullet(&self, position: Point3, dt_us: u64) -> (r: Point3)
        ensures
            r == flown(position, self.direction, travel(self.speed as nat, dt_us as nat)),
    {
        let d = self.direction;
        let ax = magnitude(d.x);
        let ay = magnitude(d.y);
        let az = magnitude(d.z);
        assert(ax * ax <= 0x4000_0000_0000_0000_0000_0000_0000_0000 && ay * ay
            <= 0x4000_0000_0000_0000_0000_0000_0000_0000 && az * az
            <= 0x4000_0000_0000_0000_0000_0000_0000_0000) by (nonlinear_arith)
            requires
                ax <= 0x8000_0000_0000_0000,
                ay <= 0x8000_0000_0000_0000,
                az <= 0x8000_0000_0000_0000,
        ;
        let len = isqrt(ax * ax + ay * ay + az * az);
        if len == 0 {
            return position;
        }
        let dist = travel_distance(self.speed, dt_us);
        proof {
            let n = (ax * ax + ay * ay + az * az) as nat;
            lemma_floor_sqrt(n);
            lemma_below_sqrt(ax as nat, n);
            lemma_below_sqrt(ay as nat, n);
            lemma_below_sqrt(az as nat, n);
        }
        Point3 {
            x: advance_coord(position.x, d.x, ax, dist, len),
            y: advance_coord(position.y, d.y, ay, dist, len),
            z: advance_coord(position.z, d.z, az, dist, len),
        }
    }
}

impl Lifetime {
    pub fn new() -> (r: Lifetime)
        ensures
            r.timer@ == (CountdownView {
                period: BULLET_LIFETIME_US as nat,
                remaining: BULLET_LIFETIME_US as nat,
                repeating: false,
            }),
    {
        Lifetime { timer: Countdown::once(BULLET_LIFETIME_US) }
    }

    /// Lets `dt_us` microseconds pass; returns whether the projectile's time
    /// ran out during them, upon which it is to be removed.
    pub fn bullet_despawn(&mut self, dt_us: u64) -> (expired: bool)
        ensures
            expired == old(self).timer@.fires(dt_us as nat),
            final(self).timer@.remaining == old(self).timer@.remaining_after(dt_us as nat),
            final(self).timer@.period == old(self).timer@.period,
            final(self).timer@.repeating == old(self).timer@.repeating,
    {
        self.timer.tick(dt_us)
    }
}

} // verus!
