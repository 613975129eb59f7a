use vstd::prelude::*;

use crate::vec::{add_spec, rotate_spec, IFixed, Vec2, Vec3};

verus! {

/// How far into the screen the mesh is drawn: added to every rotated depth
/// before the perspective divisor is taken, so that the divisor stays
/// positive for the whole mesh at every rotation.
pub const MESH_DEPTH: IFixed = 0x2a00;

/// Screen-space x of the projection origin (half the display width).
pub const SCREEN_CENTER_X: IFixed = 64;

/// Screen-space y of the projection origin (half the display height).
pub const SCREEN_CENTER_Y: IFixed = 32;

/// Vertex rotated about the vertical axis (its (x, z) plane) and moved by
/// the axis-swapped location: x is the horizontal position, y the depth.
pub open spec fn moved_spec(v: Vec3, rotation: Vec2, location: Vec2) -> Vec2 {
    add_spec(rotate_spec(Vec2 { x: v.x, y: v.z }, rotation), Vec2 { x: location.y, y: location.x })
}

/// Vertex height raised by a quarter of the location's x component.
pub open spec fn lifted_spec(v: Vec3, location: Vec2) -> i16 {
    v.y.wrapping_add((location.x / 4) as i16)
}

/// The perspective divisor: depth plus [`MESH_DEPTH`], arithmetically shifted
/// right by 6.
pub open spec fn depth_divisor(v: Vec3, rotation: Vec2, location: Vec2) -> int {
    moved_spec(v, rotation, location).y.wrapping_add(MESH_DEPTH) / 64
}

/// Integer division rounding toward zero, as the 16-bit `/` computes it.
pub open spec fn div_toward_zero(x: int, d: int) -> int {
    if x == 0 {
        0
    } else if x > 0 && d > 0 {
        x / d
    } else if x < 0 && d < 0 {
        (x * -1) / (d * -1)
    } else if x < 0 {
        ((x * -1) / d) * -1
    } else {
        (x / (d * -1)) * -1
    }
}

/// The value is representable as a fixed-point scalar.
pub open spec fn fits_fixed(x: int) -> bool {
    i16::MIN <= x <= i16::MAX
}

/// The projection of the vertex is defined: the divisor is not zero and
/// neither quotient overflows.
pub open spec fn transform_defined(v: Vec3, rotation: Vec2, location: Vec2) -> bool {
    let d = depth_divisor(v, rotation, location);
    &&& d != 0
    &&& fits_fixed(div_toward_zero(moved_spec(v, rotation, location).x as int, d))
    &&& fits_fixed(div_toward_zero(lifted_spec(v, location) as int, d))
}

/// Screen-space point of a model-space vertex.
pub open spec fn transform_spec(v: Vec3, rotation: Vec2, location: Vec2) -> Vec2 {
    let d = depth_divisor(v, rotation, location);
    let projected = Vec2 {
        x: div_toward_zero(moved_spec(v, rotation, location).x as int, d) as i16,
        y: div_toward_zero(lifted_spec(v, location) as int, d) as i16,
    };
    add_spec(projected, Vec2 { x: SCREEN_CENTER_X, y: SCREEN_CENTER_Y })
}

/// Arithmetic right shifts of a 16-bit value are floor divisions.
proof fn lemma_shr_is_div(x: i16)
    ensures
        (x >> 2) as int == x as int / 4,
        (x >> 6) as int == x as int / 64,
{
    assert(x >> 2 == x / 4) by (bit_vector);
    assert(x >> 6 == x / 64) by (bit_vector);
}

/// 16-bit division rounding toward zero, on a divisor that the caller has
/// shown to be valid for this dividend.
fn fixed_div(x: i16, d: i16) -> (r: i16)
    requires
        d != 0,
        fits_fixed(div_toward_zero(x as int, d as int)),
    ensures
        r == div_toward_zero(x as int, d as int),
{
    match x.checked_div(d) {
        Some(q) => q,
        None => vstd::pervasive::unreached(),
    }
}

/// Transform one model-space vertex into screen space: rotate it about the
/// vertical axis, move it by the location, divide by the perspective divisor
/// and place the origin at the screen center.
pub fn transform_vertex(v: Vec3, rotation: Vec2, location: Vec2) -> (r: Vec2)
    requires
        transform_defined(v, rotation, location),
    ensures
        r == transform_spec(v, rotation, location),
{
    let moved = Vec2 { x: v.x, y: v.z }.rotate(rotation) + location.swap();
    let lifted = v.y.wrapping_add(location.x >> 2);
    let z_prime: IFixed = moved.y.wrapping_add(MESH_DEPTH) >> 6;
    proof {
        lemma_shr_is_div(location.x);
        lemma_shr_is_div(moved.y.wrapping_add(MESH_DEPTH));
    }
    let projected = Vec2 { x: fixed_div(moved.x, z_prime), y: fixed_div(lifted, z_prime) };
    projected + Vec2 { x: SCREEN_CENTER_X, y: SCREEN_CENTER_Y }
}

} // verus!
