use vstd::prelude::*;

use crate::vec::{IFixed, Vec2};

verus! {

/// Display width in pixels.
pub const SCREEN_WIDTH: IFixed = 128;

/// Display height in pixels.
pub const SCREEN_HEIGHT: IFixed = 64;

/// A point lies on the display: `0 <= x < width` and `0 <= y < height`.
pub open spec fn visible(x: int, y: int) -> bool {
    0 <= x < SCREEN_WIDTH && 0 <= y < SCREEN_HEIGHT
}

/// Absolute value of an integer.
pub open spec fn abs_int(v: int) -> int {
    if v < 0 {
        -v
    } else {
        v
    }
}

/// The line climbs faster along y than along x, so it is walked along y.
pub open spec fn is_steep(v0: Vec2, v1: Vec2) -> bool {
    abs_int(v1.y - v0.y) > abs_int(v1.x - v0.x)
}

/// An endpoint in walking coordinates: (major axis, minor axis).
pub open spec fn walk_coords(v: Vec2, steep: bool) -> (int, int) {
    if steep {
        (v.y as int, v.x as int)
    } else {
        (v.x as int, v.y as int)
    }
}

/// The endpoint the walk starts from: the one with the smaller major
/// coordinate (the first one on a tie).
pub open spec fn walk_start(v0: Vec2, v1: Vec2) -> (int, int) {
    let a = walk_coords(v0, is_steep(v0, v1));
    let b = walk_coords(v1, is_steep(v0, v1));
    if a.0 > b.0 {
        b
    } else {
        a
    }
}

/// The endpoint the walk ends at.
pub open spec fn walk_end(v0: Vec2, v1: Vec2) -> (int, int) {
    let a = walk_coords(v0, is_steep(v0, v1));
    let b = walk_coords(v1, is_steep(v0, v1));
    if a.0 > b.0 {
        a
    } else {
        b
    }
}

/// Extent of the line along its major axis.
pub open spec fn major_extent(v0: Vec2, v1: Vec2) -> int {
    walk_end(v0, v1).0 - walk_start(v0, v1).0
}

/// Extent of the line along its minor axis.
pub open spec fn minor_extent(v0: Vec2, v1: Vec2) -> int {
    abs_int(walk_end(v0, v1).1 - walk_start(v0, v1).1)
}

/// Number of points walked: one per major coordinate, both ends included.
pub open spec fn line_len(v0: Vec2, v1: Vec2) -> nat {
    (major_extent(v0, v1) + 1) as nat
}

/// Direction of the minor axis steps: +1 or -1.
pub open spec fn minor_step(v0: Vec2, v1: Vec2) -> int {
    if walk_start(v0, v1).1 < walk_end(v0, v1).1 {
        1
    } else {
        -1
    }
}

/// How many minor-axis steps have been taken at walk point `i`: the error
/// accumulator starts at `-(dx / 2)`, so this is `ceil((i * dy - dx / 2) / dx)`.
pub open spec fn minor_steps(v0: Vec2, v1: Vec2, i: int) -> int {
    let dx = major_extent(v0, v1);
    let dy = minor_extent(v0, v1);
    if dx == 0 {
        0
    } else {
        (i * dy - dx / 2 + dx - 1) / dx
    }
}

/// Walk point `i` of the line, back in display coordinates (x, y).
pub open spec fn line_point(v0: Vec2, v1: Vec2, i: int) -> (int, int) {
    let s = walk_start(v0, v1);
    let p = (s.0 + i, s.1 + minor_step(v0, v1) * minor_steps(v0, v1, i));
    if is_steep(v0, v1) {
        (p.1, p.0)
    } else {
        p
    }
}

/// The visible pixels among the first `n` walk points, in walk order.
pub open spec fn visible_prefix(v0: Vec2, v1: Vec2, n: nat) -> Seq<(u32, u32)>
    decreases n,
{
    if n == 0 {
        seq![]
    } else {
        let prev = visible_prefix(v0, v1, (n - 1) as nat);
        let p = line_point(v0, v1, n - 1);
        if visible(p.0, p.1) {
            prev.push((p.0 as u32, p.1 as u32))
        } else {
            prev
        }
    }
}

/// The pixels the line from `v0` to `v1` sets, in the order they are set.
pub open spec fn line_pixels(v0: Vec2, v1: Vec2) -> Seq<(u32, u32)> {
    visible_prefix(v0, v1, line_len(v0, v1))
}

/// Every pixel of a visible prefix lies on the display.
pub proof fn lemma_visible_prefix_on_screen(v0: Vec2, v1: Vec2, n: nat)
    ensures
        forall|j: int|
            0 <= j < visible_prefix(v0, v1, n).len() ==> {
                let p = #[trigger] visible_prefix(v0, v1, n)[j];
                p.0 < SCREEN_WIDTH && p.1 < SCREEN_HEIGHT
            },
    decreases n,
{
    if n > 0 {
        lemma_visible_prefix_on_screen(v0, v1, (n - 1) as nat);
        let prev = visible_prefix(v0, v1, (n - 1) as nat);
        let p = line_point(v0, v1, n - 1);
        if visible(p.0, p.1) {
            let q = (p.0 as u32, p.1 as u32);
            assert(q.0 < SCREEN_WIDTH && q.1 < SCREEN_HEIGHT);
            assert forall|j: int| 0 <= j < prev.push(q).len() implies {
                let r = #[trigger] prev.push(q)[j];
                r.0 < SCREEN_WIDTH && r.1 < SCREEN_HEIGHT
            } by {
                if j < prev.len() {
                    assert(prev.push(q)[j] == prev[j]);
                }
            }
        }
    }
}

/// Between consecutive walk points the number of minor steps grows by zero
/// or one.
proof fn lemma_minor_steps_increment(v0: Vec2, v1: Vec2, i: int)
    ensures
        minor_steps(v0, v1, i) <= minor_steps(v0, v1, i + 1) <= minor_steps(v0, v1, i) + 1,
{
    let dx = major_extent(v0, v1);
    let dy = minor_extent(v0, v1);
    if dx > 0 {
        let a = i * dy - dx / 2 + dx - 1;
        assert((i + 1) * dy == i * dy + dy) by (nonlinear_arith);
        assert(0 <= dy <= dx);
        vstd::arithmetic::div_mod::lemma_div_is_ordered(a, a + dy, dx);
        vstd::arithmetic::div_mod::lemma_div_is_ordered(a + dy, a + dx, dx);
        vstd::arithmetic::div_mod::lemma_div_plus_one(a, dx);
    }
}

/// The number of minor steps never decreases along the walk.
proof fn lemma_minor_steps_monotone(v0: Vec2, v1: Vec2, i: int, j: int)
    requires
        i <= j,
    ensures
        minor_steps(v0, v1, i) <= minor_steps(v0, v1, j),
    decreases j - i,
{
    if i < j {
        lemma_minor_steps_increment(v0, v1, i);
        lemma_minor_steps_monotone(v0, v1, i + 1, j);
    }
}

/// The walk takes no minor step at its first point and exactly the minor
/// extent of steps by its last point.
proof fn lemma_minor_steps_ends(v0: Vec2, v1: Vec2)
    ensures
        minor_steps(v0, v1, 0) == 0,
        minor_steps(v0, v1, major_extent(v0, v1)) == minor_extent(v0, v1),
{
    let dx = major_extent(v0, v1);
    let dy = minor_extent(v0, v1);
    if dx > 0 {
        vstd::arithmetic::div_mod::lemma_fundamental_div_mod_converse(-(dx / 2) + dx - 1, dx, 0, -(dx / 2) + dx - 1);
        assert(dx * dy == dy * dx) by (nonlinear_arith);
        vstd::arithmetic::div_mod::lemma_fundamental_div_mod_converse(
            dx * dy - dx / 2 + dx - 1,
            dx,
            dy,
            dx - 1 - dx / 2,
        );
    }
}

/// A rasterized line has no gaps and no repeated points: each walk point
/// is one further along the major axis than the one before, and at most one
/// away along the minor axis.
pub proof fn lemma_line_connected(v0: Vec2, v1: Vec2, i: int)
    requires
        0 <= i < major_extent(v0, v1),
    ensures
        ({
            let p = line_point(v0, v1, i);
            let q = line_point(v0, v1, i + 1);
            if is_steep(v0, v1) {
                q.1 == p.1 + 1 && abs_int(q.0 - p.0) <= 1
            } else {
                q.0 == p.0 + 1 && abs_int(q.1 - p.1) <= 1
            }
        }),
{
    lemma_minor_steps_increment(v0, v1, i);
    let k0 = minor_steps(v0, v1, i);
    let k1 = minor_steps(v0, v1, i + 1);
    if minor_step(v0, v1) == 1 {
        assert(minor_step(v0, v1) * k1 - minor_step(v0, v1) * k0 == k1 - k0);
    } else {
        assert(minor_step(v0, v1) * k1 - minor_step(v0, v1) * k0 == k0 - k1);
    }
}

/// A rasterized line runs from one endpoint to the other: its first walk
/// point is one endpoint and its last walk point is the other.
pub proof fn lemma_line_endpoints(v0: Vec2, v1: Vec2)
    ensures
        ({
            let first = line_point(v0, v1, 0);
            let last = line_point(v0, v1, major_extent(v0, v1));
            let a = (v0.x as int, v0.y as int);
            let b = (v1.x as int, v1.y as int);
            (first == a && last == b) || (first == b && last == a)
        }),
{
    lemma_minor_steps_ends(v0, v1);
    let dx = major_extent(v0, v1);
    let k = minor_steps(v0, v1, dx);
    if minor_step(v0, v1) == 1 {
        assert(minor_step(v0, v1) * k == k);
    } else {
        assert(minor_step(v0, v1) * k == -k);
    }
    assert(minor_step(v0, v1) * 0 == 0);
}

/// A walk point is accepted for display.
pub fn point_accept(v: Vec2) -> (r: bool)
    ensures
        r == visible(v.x as int, v.y as int),
{
    !(v.x < 0 || v.x >= SCREEN_WIDTH || v.y < 0 || v.y >= SCREEN_HEIGHT)
}

/// The error accumulator pins the number of minor steps down.
proof fn lemma_minor_steps(k: int, n: int, dx: int)
    requires
        dx > 0,
        k * dx >= n,
        n > k * dx - dx,
    ensures
        k == (n + dx - 1) / dx,
{
    assert(k * dx <= n + dx - 1 < k * dx + dx);
    vstd::arithmetic::div_mod::lemma_fundamental_div_mod_converse(n + dx - 1, dx, k, n + dx - 1 - k * dx);
}

/// Bresenham's line algorithm: appends to `pixels` every point of the line
/// from `v0` to `v1` that lies on the display, walking along the longer
/// axis.
pub fn draw_line(pixels: &mut Vec<(u32, u32)>, v0: Vec2, v1: Vec2)
    ensures
        final(pixels)@ == old(pixels)@ + line_pixels(v0, v1),
        forall|j: int|
            old(pixels)@.len() <= j < final(pixels)@.len() ==> {
                let p = #[trigger] final(pixels)@[j];
                p.0 < SCREEN_WIDTH && p.1 < SCREEN_HEIGHT
            },
{
    let ax = v0.x as i32;
    let ay = v0.y as i32;
    let bx = v1.x as i32;
    let by = v1.y as i32;
    let adx: i32 = if bx >= ax { bx - ax } else { ax - bx };
    let ady: i32 = if by >= ay { by - ay } else { ay - by };
    let steep = ady > adx;
    let (p0, p1) = if steep {
        ((ay, ax), (by, bx))
    } else {
        ((ax, ay), (bx, by))
    };
    let (start, end) = if p0.0 > p1.0 {
        (p1, p0)
    } else {
        (p0, p1)
    };
    let s1: i32 = end.0;
    let t1: i32 = end.1;
    let dx: i32 = s1 - start.0;
    let dy: i32 = if t1 >= start.1 { t1 - start.1 } else { start.1 - t1 };
    let step: i32 = if start.1 < t1 { 1 } else { -1 };
    let mut half_diff: i32 = -(dx / 2);
    let mut s: i32 = start.0;
    let mut t: i32 = start.1;
    let ghost old_pixels = pixels@;
    let ghost mut k: int = 0;
    assert(steep == is_steep(v0, v1));
    assert(start.0 == walk_start(v0, v1).0 && start.1 == walk_start(v0, v1).1);
    assert(end.0 == walk_end(v0, v1).0 && end.1 == walk_end(v0, v1).1);
    assert((s - start.0) * dy == 0 && k * dx == 0) by (nonlinear_arith)
        requires
            s == start.0,
            k == 0,
    ;
    while s <= s1
        invariant
            steep == is_steep(v0, v1),
            start.0 == walk_start(v0, v1).0,
            start.1 == walk_start(v0, v1).1,
            s1 == walk_end(v0, v1).0,
            t1 == walk_end(v0, v1).1,
            dx == major_extent(v0, v1),
            dy == minor_extent(v0, v1),
            step == minor_step(v0, v1),
            0 <= dy <= dx,
            start.0 <= s <= s1 + 1,
            0 <= k <= s - start.0,
            t == start.1 + step * k,
            half_diff == -(dx / 2) + (s - start.0) * dy - k * dx,
            half_diff <= 0,
            dx > 0 ==> half_diff > -dx,
            dx == 0 ==> k == 0,
            -0x8000 <= start.0 <= 0x7fff,
            -0x8000 <= start.1 <= 0x7fff,
            -0x8000 <= s1 <= 0x7fff,
            -0x8000 <= t1 <= 0x7fff,
            pixels@ == old_pixels + visible_prefix(v0, v1, (s - start.0) as nat),
        decreases s1 + 1 - s,
    {
        let ghost i: int = s - start.0;
        proof {
            if dx > 0 {
                assert(k * dx >= i * dy - dx / 2);
                lemma_minor_steps(k, i * dy - dx / 2, dx as int);
            }
            assert(k == minor_steps(v0, v1, i));
            lemma_minor_steps_monotone(v0, v1, i, dx as int);
            lemma_minor_steps_ends(v0, v1);
            assert(line_point(v0, v1, i) == (if steep { (t as int, s as int) } else { (s as int, t as int) }));
        }
        let walk = Vec2 { x: s as i16, y: t as i16 };
        let p = if steep {
            walk.swap()
        } else {
            walk
        };
        if point_accept(p) {
            pixels.push((p.x as u32, p.y as u32));
        }
        assert(pixels@ == old_pixels + visible_prefix(v0, v1, (i + 1) as nat));
        let ghost k0: int = k;
        let ghost e0: int = half_diff as int;
        half_diff = half_diff + dy;
        if half_diff > 0 {
            half_diff = half_diff - dx;
            t = t + step;
            proof {
                k = k + 1;
            }
        }
        s = s + 1;
        proof {
            assert((s - start.0) * dy == i * dy + dy) by (nonlinear_arith)
                requires
                    s - start.0 == i + 1,
            ;
            assert((k0 + 1) * dx == k0 * dx + dx) by (nonlinear_arith);
        }
    }
    proof {
        lemma_visible_prefix_on_screen(v0, v1, line_len(v0, v1));
        assert forall|j: int| old_pixels.len() <= j < pixels@.len() implies {
            let p = #[trigger] pixels@[j];
            p.0 < SCREEN_WIDTH && p.1 < SCREEN_HEIGHT
        } by {
            assert(pixels@[j] == line_pixels(v0, v1)[j - old_pixels.len()]);
        }
    }
}

} // verus!
