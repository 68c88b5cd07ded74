use vstd::prelude::*;

verus! {

/// Steps of fixed-point coordinate per world unit.
pub const UNIT: i32 = 1000;

/// Microseconds per second.
pub const MICROS_PER_SECOND: u64 = 1_000_000;

/// A point of the ground plane (the world's x and z axes), in fixed-point steps.
#[derive(Clone, Copy, PartialEq, Eq, Structural, Debug)]
pub struct Point2 {
    pub x: i32,
    pub y: i32,
}

/// A point in the world, in fixed-point steps.
#[derive(Clone, Copy, PartialEq, Eq, Structural, Debug)]
pub struct Point3 {
    pub x: i32,
    pub y: i32,
    pub z: i32,
}

/// A difference of two world points, in fixed-point steps.
#[derive(Clone, Copy, PartialEq, Eq, Structural, Debug)]
pub struct Offset3 {
    pub x: i64,
    pub y: i64,
    pub z: i64,
}

pub open spec fn sq(a: int) -> int {
    a * a
}

/// Squared Euclidean distance of two ground points.
pub open spec fn dist2_2(a: Point2, b: Point2) -> int {
    sq(b.x - a.x) + sq(b.y - a.y)
}

/// Squared Euclidean distance of two world points.
pub open spec fn dist2_3(a: Point3, b: Point3) -> int {
    sq(b.x - a.x) + sq(b.y - a.y) + sq(b.z - a.z)
}

/// The largest `r` with `r * r <= n`.
pub open spec fn floor_sqrt(n: nat) -> nat
    decreases n,
{
    if n == 0 {
        0
    } else {
        let r = floor_sqrt((n - 1) as nat);
        if (r + 1) * (r + 1) <= n {
            r + 1
        } else {
            r
        }
    }
}

pub proof fn lemma_floor_sqrt(n: nat)
    ensures
        floor_sqrt(n) * floor_sqrt(n) <= n,
        n < (floor_sqrt(n) + 1) * (floor_sqrt(n) + 1),
    decreases n,
{
    if n == 0 {
        assert(floor_sqrt(n) == 0);
        assert(0nat < (0nat + 1) * (0nat + 1)) by (nonlinear_arith);
    } else {
        lemma_floor_sqrt((n - 1) as nat);
        let r = floor_sqrt((n - 1) as nat);
        assert(r * r <= n - 1 && n - 1 < (r + 1) * (r + 1));
        if (r + 1) * (r + 1) > n {
            assert(floor_sqrt(n) == r);
        } else {
            assert(floor_sqrt(n) == r + 1);
            assert((r + 1) * (r + 1) == n);
            let f = floor_sqrt(n);
            assert(n < (f + 1) * (f + 1)) by (nonlinear_arith)
                requires
                    (r + 1) * (r + 1) == n,
                    f == r + 1,
            ;
        }
    }
}

/// Any `r` bracketing `n` between consecutive squares is `floor_sqrt(n)`.
pub proof fn lemma_floor_sqrt_unique(n: nat, r: nat)
    requires
        r * r <= n,
        n < (r + 1) * (r + 1),
    ensures
        r == floor_sqrt(n),
{
    lemma_floor_sqrt(n);
    let s = floor_sqrt(n);
    if r < s {
        assert((r + 1) * (r + 1) <= s * s) by (nonlinear_arith)
            requires
                r + 1 <= s,
        ;
    } else if s < r {
        assert((s + 1) * (s + 1) <= r * r) by (nonlinear_arith)
            requires
                s + 1 <= r,
        ;
    }
}

/// Integer square root, rounded down.
pub fn isqrt(n: u128) -> (r: u64)
    ensures
        r == floor_sqrt(n as nat),
{
    let mut lo: u128 = 0;
    let mut hi: u128 = 0x1_0000_0000_0000_0000;
    assert(n < hi * hi) by (nonlinear_arith)
        requires
            hi == 0x1_0000_0000_0000_0000u128,
            n <= u128::MAX,
    ;
    while hi - lo > 1
        invariant
            lo < hi,
            hi <= 0x1_0000_0000_0000_0000,
            lo * lo <= n,
            n < hi * hi,
        decreases hi - lo,
    {
        let mid = lo + (hi - lo) / 2;
        assert(mid * mid <= u128::MAX) by (nonlinear_arith)
            requires
                mid < 0x1_0000_0000_0000_0000,
        ;
        if mid * mid <= n {
            lo = mid;
        } else {
            hi = mid;
        }
    }
    proof {
        assert(hi == lo + 1);
        lemma_floor_sqrt_unique(n as nat, lo as nat);
    }
    lo as u64
}

/// Squared distance between two ground points.
pub fn distance_squared_2(a: Point2, b: Point2) -> (r: u128)
    ensures
        r == dist2_2(a, b),
{
    let dx: i64 = b.x as i64 - a.x as i64;
    let dy: i64 = b.y as i64 - a.y as i64;
    let ax: u128 = if dx < 0 { (-dx) as u128 } else { dx as u128 };
    let ay: u128 = if dy < 0 { (-dy) as u128 } else { dy as u128 };
    assert(ax * ax <= 0x1_0000_0000_0000_0000 && ay * ay <= 0x1_0000_0000_0000_0000)
        by (nonlinear_arith)
        requires
            ax <= 0x1_0000_0000,
            ay <= 0x1_0000_0000,
    ;
    assert(ax * ax == sq(dx as int) && ay * ay == sq(dy as int)) by (nonlinear_arith)
        requires
            ax == dx || ax == -dx,
            ay == dy || ay == -dy,
    ;
    ax * ax + ay * ay
}

/// Squared distance between a world point and a point given by 64-bit coordinates.
pub open spec fn dist2_from(ox: int, oy: int, oz: int, b: Point3) -> int {
    sq(b.x - ox) + sq(b.y - oy) + sq(b.z - oz)
}

/// Absolute difference of two coordinates of at most 48 bits.
fn abs_diff(a: i64, b: i64) -> (r: u128)
    requires
        -0x1_0000_0000_0000 <= a <= 0x1_0000_0000_0000,
        -0x1_0000_0000_0000 <= b <= 0x1_0000_0000_0000,
    ensures
        r == a - b || r == b - a,
        r >= 0,
{
    let d: i64 = a - b;
    if d < 0 {
        (-d) as u128
    } else {
        d as u128
    }
}

/// Squared distance from `(ox, oy, oz)` to `b`, where the origin lies within
/// twice the range of `i32` (a world point moved by an in-world offset).
pub fn distance_squared_from(ox: i64, oy: i64, oz: i64, b: Point3) -> (r: u128)
    requires
        -0x1_0000_0000 <= ox <= 0x1_0000_0000,
        -0x1_0000_0000 <= oy <= 0x1_0000_0000,
        -0x1_0000_0000 <= oz <= 0x1_0000_0000,
    ensures
        r == dist2_from(ox as int, oy as int, oz as int, b),
{
    let ax = abs_diff(b.x as i64, ox);
    let ay = abs_diff(b.y as i64, oy);
    let az = abs_diff(b.z as i64, oz);
    assert(ax * ax <= 0x10_0000_0000_0000_0000 && ay * ay <= 0x10_0000_0000_0000_0000 && az * az
        <= 0x10_0000_0000_0000_0000) by (nonlinear_arith)
        requires
            ax <= 0x2_0000_0000,
            ay <= 0x2_0000_0000,
            az <= 0x2_0000_0000,
    ;
    assert(ax * ax == sq(b.x - ox) && ay * ay == sq(b.y - oy) && az * az == sq(b.z - oz))
        by (nonlinear_arith)
        requires
            ax == b.x - ox || ax == ox - b.x,
            ay == b.y - oy || ay == oy - b.y,
            az == b.z - oz || az == oz - b.z,
    ;
    ax * ax + ay * ay + az * az
}

/// Distance covered in `dt_us` microseconds at `speed` steps per second,
/// rounded down and capped at `u64::MAX`.
pub open spec fn travel(speed: nat, dt_us: nat) -> nat {
    let d = speed * dt_us / (MICROS_PER_SECOND as nat);
    if d > u64::MAX {
        u64::MAX as nat
    } else {
        d
    }
}

pub fn travel_distance(speed: u32, dt_us: u64) -> (r: u64)
    ensures
        r == travel(speed as nat, dt_us as nat),
{
    assert(speed as u128 * dt_us as u128 <= u128::MAX) by (nonlinear_arith)
        requires
            speed <= u32::MAX,
            dt_us <= u64::MAX,
    ;
    let d: u128 = speed as u128 * dt_us as u128 / (MICROS_PER_SECOND as u128);
    if d > u64::MAX as u128 {
        u64::MAX
    } else {
        d as u64
    }
}

/// One coordinate moved from `from` toward `to` by the fraction `num / den`
/// of the distance between them, rounded toward `from`.
pub open spec fn scaled_toward(from: int, to: int, num: int, den: int) -> int {
    if to >= from {
        from + (to - from) * num / den
    } else {
        from - (from - to) * num / den
    }
}

/// The point reached from `from` after moving `dist` straight toward `to`,
/// where `len` is the distance between them rounded down.
pub open spec fn moved_toward(from: Point2, to: Point2, dist: int, len: int) -> (int, int) {
    (scaled_toward(from.x as int, to.x as int, dist, len), scaled_toward(
        from.y as int,
        to.y as int,
        dist,
        len,
    ))
}

fn scale_coord(from: i32, to: i32, num: u64, den: u64) -> (r: i32)
    requires
        0 < den,
        num <= den,
    ensures
        r == scaled_toward(from as int, to as int, num as int, den as int),
        from <= to ==> from <= r <= to,
        to <= from ==> to <= r <= from,
{
    let d: i64 = to as i64 - from as i64;
    let a: u128 = if d < 0 { (-d) as u128 } else { d as u128 };
    assert(a * num as u128 <= a * den as u128) by (nonlinear_arith)
        requires
            num <= den,
            a >= 0,
    ;
    assert(a * den as u128 <= 0x1_0000_0000 * 0x1_0000_0000_0000_0000) by (nonlinear_arith)
        requires
            a <= 0x1_0000_0000,
            den <= 0xffff_ffff_ffff_ffff,
    ;
    let s: u128 = a * num as u128 / den as u128;
    assert(s <= a) by (nonlinear_arith)
        requires
            s == (a as int) * (num as int) / (den as int),
            a * num <= a * den,
            den > 0,
    ;
    if d < 0 {
        (from as i64 - s as i64) as i32
    } else {
        (from as i64 + s as i64) as i32
    }
}

/// Moves `from` by `dist` straight toward `to`. Returns `None`, without
/// moving, when `to` is within `dist` of `from`.
pub fn step_toward(from: Point2, to: Point2, dist: u64) -> (r: Option<Point2>)
    ensures
        r.is_none() <==> dist2_2(from, to) <= dist * dist,
        r.is_some() ==> ({
            let p = r.unwrap();
            let len = floor_sqrt(dist2_2(from, to) as nat);
            (p.x as int, p.y as int) == moved_toward(from, to, dist as int, len as int)
        }),
{
    let d2 = distance_squared_2(from, to);
    assert(dist as u128 * dist as u128 <= u128::MAX) by (nonlinear_arith)
        requires
            dist <= u64::MAX,
    ;
    if d2 <= dist as u128 * dist as u128 {
        return None;
    }
    let len = isqrt(d2);
    proof {
        lemma_floor_sqrt(d2 as nat);
        if len < dist {
            assert((len + 1) * (len + 1) <= dist * dist) by (nonlinear_arith)
                requires
                    len + 1 <= dist,
            ;
        }
        if len == 0 {
            assert(d2 < 1) by (nonlinear_arith)
                requires
                    d2 < (len + 1) * (len + 1),
                    len == 0,
            ;
        }
    }
    let x = scale_coord(from.x, to.x, dist, len);
    let y = scale_coord(from.y, to.y, dist, len);
    Some(Point2 { x, y })
}

} // verus!
