use vstd::prelude::*;

use crate::frame::{advance_spec, lemma_state_bounds, location_norm_bound, rotation_norm_bound, FrameState};
use crate::mesh::{mesh_edges, mesh_indices, mesh_vertices, mesh_verts, NUM_LINES, NUM_VERTS};
use crate::raster::{draw_line, line_pixels, SCREEN_HEIGHT, SCREEN_WIDTH};
use crate::transform::{
    depth_divisor, div_toward_zero, fits_fixed, lifted_spec, moved_spec, transform_defined,
    transform_spec, transform_vertex, MESH_DEPTH,
};
use crate::vec::{
    cross_im, cross_re, lemma_abs_from_square, lemma_norm_nonneg, lemma_product_norm, norm2,
    Vec2, Vec3,
};

verus! {

/// The vertex lies within 1.25 of the vertical axis, the reach of the
/// model's farthest vertex.
pub open spec fn vertex_in_reach(v: Vec3) -> bool {
    v.x * v.x + v.z * v.z <= 5120 * 5120
}

/// Every mesh vertex is in reach and every edge joins two mesh vertices.
pub proof fn lemma_mesh_valid()
    ensures
        mesh_verts().len() == NUM_VERTS,
        mesh_edges().len() == NUM_LINES,
        forall|i: int| 0 <= i < NUM_VERTS ==> vertex_in_reach(#[trigger] mesh_verts()[i]),
        forall|i: int|
            0 <= i < NUM_LINES ==> (#[trigger] mesh_edges()[i]).0 < NUM_VERTS && mesh_edges()[i].1
                < NUM_VERTS,
{
    assert forall|i: int| 0 <= i < NUM_VERTS implies vertex_in_reach(#[trigger] mesh_verts()[i]) by {
        assert(vertex_in_reach(mesh_verts()[i])) by (nonlinear_arith)
            requires
                0 <= i < NUM_VERTS,
        ;
    }
}

/// Floor or truncating division by a positive divisor never moves a value
/// away from zero.
proof fn lemma_div_shrinks(n: int, d: int)
    requires
        n >= 0,
        d >= 1,
    ensures
        0 <= n / d <= n,
{
    vstd::arithmetic::div_mod::lemma_div_pos_is_pos(n, d);
    vstd::arithmetic::div_mod::lemma_div_is_ordered_by_denominator(n, 1, d);
}

/// For a vertex in reach and states within their drift bounds, the
/// perspective divisor is at least 8: the depth offset keeps the whole mesh
/// in front of the viewer, so the projection is always defined.
pub proof fn lemma_projection_defined(v: Vec3, rotation: Vec2, location: Vec2)
    requires
        vertex_in_reach(v),
        norm2(rotation) <= rotation_norm_bound(),
        norm2(location) <= location_norm_bound(),
    ensures
        depth_divisor(v, rotation, location) >= 8,
        transform_defined(v, rotation, location),
{
    let w = Vec2 { x: v.x, y: v.z };
    let re = cross_re(w, rotation);
    let im = cross_im(w, rotation);
    lemma_product_norm(w, rotation);
    lemma_norm_nonneg(w);
    lemma_norm_nonneg(rotation);
    lemma_norm_nonneg(location);
    let m: int = 5120int * 4334;
    assert(im * im <= m * m) by (nonlinear_arith)
        requires
            re * re + im * im == norm2(w) * norm2(rotation),
            0 <= norm2(w) <= 5120 * 5120,
            0 <= norm2(rotation) <= 4334 * 4334,
            m == 5120 * 4334,
    ;
    lemma_abs_from_square(im, m);
    assert(location.x * location.x <= 4814 * 4814) by (nonlinear_arith)
        requires
            location.x * location.x + location.y * location.y <= 4814 * 4814,
    ;
    lemma_abs_from_square(location.x as int, 4814);
    let moved = moved_spec(v, rotation, location);
    assert(-10232 <= moved.y <= 10231);
    assert(moved.y.wrapping_add(MESH_DEPTH) == moved.y + 0x2a00);
    let d = depth_divisor(v, rotation, location);
    assert(d >= 8);
    let x = moved.x as int;
    let y = lifted_spec(v, location) as int;
    if x > 0 {
        lemma_div_shrinks(x, d);
    } else if x < 0 {
        lemma_div_shrinks(-x, d);
    }
    if y > 0 {
        lemma_div_shrinks(y, d);
    } else if y < 0 {
        lemma_div_shrinks(-y, d);
    }
    assert(fits_fixed(div_toward_zero(x, d)));
    assert(fits_fixed(div_toward_zero(y, d)));
}

/// The screen-space vertex buffer of a frame state.
pub open spec fn screen_spec(s: FrameState) -> Seq<Vec2> {
    Seq::new(NUM_VERTS as nat, |i: int| transform_spec(mesh_verts()[i], s.rotation, s.location))
}

/// Transform every mesh vertex into screen space with the state's rotation
/// and location.
pub fn transform_mesh(state: &FrameState) -> (r: Vec<Vec2>)
    requires
        state.wf(),
    ensures
        r@ == screen_spec(*state),
{
    let verts = mesh_vertices();
    let mut screen: Vec<Vec2> = Vec::with_capacity(NUM_VERTS);
    proof {
        lemma_state_bounds(*state);
        lemma_mesh_valid();
    }
    let mut i: usize = 0;
    while i < NUM_VERTS
        invariant
            i <= NUM_VERTS,
            verts@ == mesh_verts(),
            norm2(state.rotation) <= rotation_norm_bound(),
            norm2(state.location) <= location_norm_bound(),
            forall|j: int| 0 <= j < NUM_VERTS ==> vertex_in_reach(#[trigger] mesh_verts()[j]),
            screen@.len() == i,
            forall|j: int|
                0 <= j < i ==> #[trigger] screen@[j] == transform_spec(
                    mesh_verts()[j],
                    state.rotation,
                    state.location,
                ),
        decreases NUM_VERTS - i,
    {
        proof {
            lemma_projection_defined(verts[i as int], state.rotation, state.location);
        }
        screen.push(transform_vertex(verts[i], state.rotation, state.location));
        i = i + 1;
    }
    assert(screen@ =~= screen_spec(*state));
    screen
}

/// The pixels of the first `n` edges, edge after edge.
pub open spec fn edge_pixels(screen: Seq<Vec2>, edges: Seq<(u8, u8)>, n: nat) -> Seq<(u32, u32)>
    decreases n,
{
    if n == 0 {
        seq![]
    } else {
        let e = edges[n - 1];
        edge_pixels(screen, edges, (n - 1) as nat) + line_pixels(screen[e.0 as int], screen[e.1 as int])
    }
}

/// The pixels of every mesh edge drawn between the given screen vertices.
pub open spec fn mesh_pixels(screen: Seq<Vec2>) -> Seq<(u32, u32)> {
    edge_pixels(screen, mesh_edges(), NUM_LINES as nat)
}

/// Rasterize every mesh edge between the given screen-space vertices.
pub fn rasterize_mesh(screen: &Vec<Vec2>) -> (r: Vec<(u32, u32)>)
    requires
        screen@.len() == NUM_VERTS,
    ensures
        r@ == mesh_pixels(screen@),
        forall|j: int|
            0 <= j < r@.len() ==> (#[trigger] r@[j]).0 < SCREEN_WIDTH && r@[j].1 < SCREEN_HEIGHT,
{
    let edges = mesh_indices();
    let mut pixels: Vec<(u32, u32)> = Vec::new();
    proof {
        lemma_mesh_valid();
    }
    let mut k: usize = 0;
    while k < NUM_LINES
        invariant
            k <= NUM_LINES,
            screen@.len() == NUM_VERTS,
            edges@ == mesh_edges(),
            forall|i: int|
                0 <= i < NUM_LINES ==> (#[trigger] mesh_edges()[i]).0 < NUM_VERTS
                    && mesh_edges()[i].1 < NUM_VERTS,
            pixels@ == edge_pixels(screen@, mesh_edges(), k as nat),
            forall|j: int|
                0 <= j < pixels@.len() ==> (#[trigger] pixels@[j]).0 < SCREEN_WIDTH
                    && pixels@[j].1 < SCREEN_HEIGHT,
        decreases NUM_LINES - k,
    {
        let e = edges[k];
        assert(e == mesh_edges()[k as int]);
        draw_line(&mut pixels, screen[e.0 as usize], screen[e.1 as usize]);
        k = k + 1;
    }
    pixels
}

/// The pixels a frame state displays.
pub open spec fn frame_pixels(s: FrameState) -> Seq<(u32, u32)> {
    mesh_pixels(screen_spec(s))
}

/// One iteration of the main loop: advance the state by one frame, then
/// return the pixels to set on the cleared display, each on the display.
pub fn render_frame(state: &mut FrameState) -> (r: Vec<(u32, u32)>)
    requires
        old(state).wf(),
    ensures
        *final(state) == advance_spec(*old(state)),
        final(state).wf(),
        r@ == frame_pixels(*final(state)),
        forall|j: int|
            0 <= j < r@.len() ==> (#[trigger] r@[j]).0 < SCREEN_WIDTH && r@[j].1 < SCREEN_HEIGHT,
{
    state.advance();
    let screen = transform_mesh(state);
    rasterize_mesh(&screen)
}

} // verus!
