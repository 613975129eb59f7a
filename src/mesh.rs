use vstd::prelude::*;

use crate::vec::Vec3;

verus! {

/// Number of mesh vertices.
pub const NUM_VERTS: usize = 57;

/// Number of mesh edges.
pub const NUM_LINES: usize = 68;

/// A vertex from integer coordinates, each within the 16-bit range.
pub open spec fn vertex(x: int, y: int, z: int) -> Vec3 {
    Vec3 { x: x as i16, y: y as i16, z: z as i16 }
}

/// The model: a house with a door, two windows, a car, a tree, a fence and a
/// welcome mat.
pub open spec fn mesh_verts() -> Seq<Vec3> {
    seq![
        // Cube
        vertex(0x800, 0x800, 0x800),
        vertex(-0x800, 0x800, 0x800),
        vertex(-0x800, -0x800, 0x800),
        vertex(0x800, -0x800, 0x800),
        vertex(0x800, 0x800, -0x800),
        vertex(-0x800, 0x800, -0x800),
        vertex(-0x800, -0x800, -0x800),
        vertex(0x800, -0x800, -0x800),
        // Roof
        vertex(0x000, -0x1400, 0x000),
        // Door
        vertex(-0x100, 0x800, -0x800),
        vertex(-0x600, 0x800, -0x800),
        vertex(-0x600, 0x200, -0x800),
        vertex(-0x100, 0x200, -0x800),
        // Front window
        vertex(0x500, -0x200, -0x800),
        vertex(0x200, -0x200, -0x800),
        vertex(0x200, -0x500, -0x800),
        vertex(0x500, -0x500, -0x800),
        // Left window
        vertex(-0x800, 0x500, 0x200),
        vertex(-0x800, 0x500, 0x500),
        vertex(-0x800, 0x200, 0x500),
        vertex(-0x800, 0x200, 0x200),
        // Car
        vertex(-0x800, 0x800, 0xb00),
        vertex(0x800, 0x800, 0xb00),
        vertex(0x800, 0x500, 0xb00),
        vertex(0x400, 0x500, 0xb00),
        vertex(0x200, 0x200, 0xb00),
        vertex(-0x600, 0x200, 0xb00),
        vertex(-0x800, 0x500, 0xb00),
        vertex(-0x800, 0x800, 0x1200),
        vertex(0x800, 0x800, 0x1200),
        vertex(0x800, 0x500, 0x1200),
        vertex(0x400, 0x500, 0x1200),
        vertex(0x200, 0x200, 0x1200),
        vertex(-0x600, 0x200, 0x1200),
        vertex(-0x800, 0x500, 0x1200),
        // Tree
        vertex(0x1000, 0x800, 0x000),
        vertex(0x1000, -0x1400, 0x000),
        vertex(0x1000, 0x200, 0x000),
        vertex(0x1400, -0x1000, 0x000),
        vertex(0xc00, -0x1000, 0x000),
        vertex(0x1000, -0x1000, 0x400),
        vertex(0x1000, -0x1000, -0x400),
        // Fence
        vertex(-0x800, 0x800, 0x000),
        vertex(-0x1400, 0x800, 0x000),
        vertex(-0x1400, 0x200, 0x000),
        vertex(-0x1200, 0x000, 0x000),
        vertex(-0x1000, 0x200, 0x000),
        vertex(-0xe00, 0x000, 0x000),
        vertex(-0xc00, 0x200, 0x000),
        vertex(-0xa00, 0x000, 0x000),
        vertex(-0x800, 0x200, 0x000),
        vertex(-0x1000, 0x800, 0x000),
        vertex(-0xc00, 0x800, 0x000),
        // Welcome mat
        vertex(-0x100, 0x800, -0x900),
        vertex(-0x600, 0x800, -0x900),
        vertex(-0x600, 0x800, -0xc00),
        vertex(-0x100, 0x800, -0xc00),
        // / Line segments as indices into [`MESH_VERTS`]
    ]
}

/// Edges of the model as pairs of indices into [`mesh_verts`].
pub open spec fn mesh_edges() -> Seq<(u8, u8)> {
    seq![
        (0, 1), (1, 2), (2, 3), (3, 0),
        (4, 5), (5, 6), (6, 7), (7, 4),
        (0, 4), (1, 5), (2, 6), (3, 7),
        (2, 8), (3, 8), (6, 8), (7, 8),  // Roof
        (10, 11), (11, 12), (12, 9),  // Door
        (13, 14), (14, 15), (15, 16), (16, 13),  // Front window
        (17, 18), (18, 19), (19, 20), (20, 17),  // Left window
        (21, 22), (22, 23), (23, 24), (24, 25), (25, 26), (26, 27), (27, 21),  // Car inner side
        (28, 29), (29, 30), (30, 31), (31, 32), (32, 33), (33, 34), (34, 28),  // Car outer side
        (21, 28), (22, 29), (23, 30), (24, 31), (25, 32), (26, 33), (27, 34),  // Car body
        (35, 36), (37, 38), (37, 39), (37, 40), (37, 41),  // Tree
        (42, 43), (43, 44), (44, 45), (45, 46), (46, 47), (47, 48), (48, 49), (49, 50), (50, 42), (46, 51), (48, 52),  // Fence
        (53, 54), (54, 55), (55, 56), (56, 53),  // Welcome mat
    ]
}

/// The mesh vertices, model space.
pub fn mesh_vertices() -> (r: [Vec3; NUM_VERTS])
    ensures
        r@ == mesh_verts(),
{
    [
        // Cube
        Vec3 { x: 0x800, y: 0x800, z: 0x800 },
        Vec3 { x: -0x800, y: 0x800, z: 0x800 },
        Vec3 { x: -0x800, y: -0x800, z: 0x800 },
        Vec3 { x: 0x800, y: -0x800, z: 0x800 },
        Vec3 { x: 0x800, y: 0x800, z: -0x800 },
        Vec3 { x: -0x800, y: 0x800, z: -0x800 },
        Vec3 { x: -0x800, y: -0x800, z: -0x800 },
        Vec3 { x: 0x800, y: -0x800, z: -0x800 },
        // Roof
        Vec3 { x: 0x000, y: -0x1400, z: 0x000 },
        // Door
        Vec3 { x: -0x100, y: 0x800, z: -0x800 },
        Vec3 { x: -0x600, y: 0x800, z: -0x800 },
        Vec3 { x: -0x600, y: 0x200, z: -0x800 },
        Vec3 { x: -0x100, y: 0x200, z: -0x800 },
        // Front window
        Vec3 { x: 0x500, y: -0x200, z: -0x800 },
        Vec3 { x: 0x200, y: -0x200, z: -0x800 },
        Vec3 { x: 0x200, y: -0x500, z: -0x800 },
        Vec3 { x: 0x500, y: -0x500, z: -0x800 },
        // Left window
        Vec3 { x: -0x800, y: 0x500, z: 0x200 },
        Vec3 { x: -0x800, y: 0x500, z: 0x500 },
        Vec3 { x: -0x800, y: 0x200, z: 0x500 },
        Vec3 { x: -0x800, y: 0x200, z: 0x200 },
        // Car
        Vec3 { x: -0x800, y: 0x800, z: 0xb00 },
        Vec3 { x: 0x800, y: 0x800, z: 0xb00 },
        Vec3 { x: 0x800, y: 0x500, z: 0xb00 },
        Vec3 { x: 0x400, y: 0x500, z: 0xb00 },
        Vec3 { x: 0x200, y: 0x200, z: 0xb00 },
        Vec3 { x: -0x600, y: 0x200, z: 0xb00 },
        Vec3 { x: -0x800, y: 0x500, z: 0xb00 },
        Vec3 { x: -0x800, y: 0x800, z: 0x1200 },
        Vec3 { x: 0x800, y: 0x800, z: 0x1200 },
        Vec3 { x: 0x800, y: 0x500, z: 0x1200 },
        Vec3 { x: 0x400, y: 0x500, z: 0x1200 },
        Vec3 { x: 0x200, y: 0x200, z: 0x1200 },
        Vec3 { x: -0x600, y: 0x200, z: 0x1200 },
        Vec3 { x: -0x800, y: 0x500, z: 0x1200 },
        // Tree
        Vec3 { x: 0x1000, y: 0x800, z: 0x000 },
        Vec3 { x: 0x1000, y: -0x1400, z: 0x000 },
        Vec3 { x: 0x1000, y: 0x200, z: 0x000 },
        Vec3 { x: 0x1400, y: -0x1000, z: 0x000 },
        Vec3 { x: 0xc00, y: -0x1000, z: 0x000 },
        Vec3 { x: 0x1000, y: -0x1000, z: 0x400 },
        Vec3 { x: 0x1000, y: -0x1000, z: -0x400 },
        // Fence
        Vec3 { x: -0x800, y: 0x800, z: 0x000 },
        Vec3 { x: -0x1400, y: 0x800, z: 0x000 },
        Vec3 { x: -0x1400, y: 0x200, z: 0x000 },
        Vec3 { x: -0x1200, y: 0x000, z: 0x000 },
        Vec3 { x: -0x1000, y: 0x200, z: 0x000 },
        Vec3 { x: -0xe00, y: 0x000, z: 0x000 },
        Vec3 { x: -0xc00, y: 0x200, z: 0x000 },
        Vec3 { x: -0xa00, y: 0x000, z: 0x000 },
        Vec3 { x: -0x800, y: 0x200, z: 0x000 },
        Vec3 { x: -0x1000, y: 0x800, z: 0x000 },
        Vec3 { x: -0xc00, y: 0x800, z: 0x000 },
        // Welcome mat
        Vec3 { x: -0x100, y: 0x800, z: -0x900 },
        Vec3 { x: -0x600, y: 0x800, z: -0x900 },
        Vec3 { x: -0x600, y: 0x800, z: -0xc00 },
        Vec3 { x: -0x100, y: 0x800, z: -0xc00 },
        // / Line segments as indices into [`MESH_VERTS`]
    ]
}

/// The mesh edges as vertex index pairs.
pub fn mesh_indices() -> (r: [(u8, u8); NUM_LINES])
    ensures
        r@ == mesh_edges(),
{
    [
        (0, 1), (1, 2), (2, 3), (3, 0),
        (4, 5), (5, 6), (6, 7), (7, 4),
        (0, 4), (1, 5), (2, 6), (3, 7),
        (2, 8), (3, 8), (6, 8), (7, 8),  // Roof
        (10, 11), (11, 12), (12, 9),  // Door
        (13, 14), (14, 15), (15, 16), (16, 13),  // Front window
        (17, 18), (18, 19), (19, 20), (20, 17),  // Left window
        (21, 22), (22, 23), (23, 24), (24, 25), (25, 26), (26, 27), (27, 21),  // Car inner side
        (28, 29), (29, 30), (30, 31), (31, 32), (32, 33), (33, 34), (34, 28),  // Car outer side
        (21, 28), (22, 29), (23, 30), (24, 31), (25, 32), (26, 33), (27, 34),  // Car body
        (35, 36), (37, 38), (37, 39), (37, 40), (37, 41),  // Tree
        (42, 43), (43, 44), (44, 45), (45, 46), (46, 47), (47, 48), (48, 49), (49, 50), (50, 42), (46, 51), (48, 52),  // Fence
        (53, 54), (54, 55), (55, 56), (56, 53),  // Welcome mat
    ]
}

} // verus!
