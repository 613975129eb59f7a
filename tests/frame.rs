use uhouse::frame::{FrameState, LOCATION_PERIOD};
use uhouse::mesh::{mesh_indices, mesh_vertices, NUM_LINES, NUM_VERTS};
use uhouse::raster::{SCREEN_HEIGHT, SCREEN_WIDTH};
use uhouse::render::{rasterize_mesh, render_frame, transform_mesh};
use uhouse::transform::transform_vertex;
use uhouse::vec::{Vec2, Vec3};

const UNIT: Vec2 = Vec2 { x: 0x1000, y: 0 };

#[test]
fn new_state_is_canonical() {
    let s = FrameState::new();
    assert_eq!(s.rotation, UNIT);
    assert_eq!(s.location, UNIT);
    assert_eq!(s.rotation_counter, 0);
    assert_eq!(s.location_counter, 0);
}

#[test]
fn advance_once_applies_both_deltas() {
    let mut s = FrameState::new();
    s.advance();
    assert_eq!(s.rotation, Vec2 { x: 4090, y: 214 });
    assert_eq!(s.location, Vec2 { x: 4095, y: 71 });
    assert_eq!(s.rotation_counter, 1);
    assert_eq!(s.location_counter, 1);
}

#[test]
fn rotation_resets_after_one_revolution() {
    let mut s = FrameState::new();
    for _ in 0..119 {
        s.advance();
    }
    assert_eq!(s.rotation, Vec2 { x: 4033, y: -253 });
    assert_eq!(s.rotation_counter, 119);
    s.advance();
    assert_eq!(s.rotation, UNIT);
    assert_eq!(s.rotation_counter, 0);
    assert_eq!(s.location_counter, 120);
}

#[test]
fn location_resets_after_one_revolution() {
    let mut s = FrameState::new();
    for _ in 0..359 {
        s.advance();
    }
    assert_eq!(s.location, Vec2 { x: 3962, y: -242 });
    s.advance();
    assert_eq!(s.location, UNIT);
    assert_eq!(s.location_counter, 0);
    assert_eq!(s.rotation_counter, 0);
}

#[test]
fn states_repeat_every_revolution() {
    let mut s = FrameState::new();
    for _ in 0..7 {
        s.advance();
    }
    let start = s;
    // 360 frames are three rotation revolutions and one location revolution.
    for _ in 0..LOCATION_PERIOD {
        s.advance();
    }
    assert_eq!(s, start);
}

#[test]
fn mesh_tables_have_fixed_sizes() {
    let verts = mesh_vertices();
    let edges = mesh_indices();
    assert_eq!(verts.len(), NUM_VERTS);
    assert_eq!(edges.len(), NUM_LINES);
    assert_eq!(verts[8], Vec3 { x: 0, y: -0x1400, z: 0 });
    assert_eq!(edges[18], (12, 9));
    assert!(edges.iter().all(|e| (e.0 as usize) < NUM_VERTS && (e.1 as usize) < NUM_VERTS));
}

#[test]
fn transform_vertex_origin_at_canonical_state() {
    let r = transform_vertex(Vec3 { x: 0, y: 0, z: 0 }, UNIT, UNIT);
    assert_eq!(r, Vec2 { x: 64, y: 36 });
}

#[test]
fn transform_vertex_truncates_toward_zero() {
    let r = transform_vertex(Vec3 { x: -0x800, y: 0x800, z: 0x800 }, UNIT, UNIT);
    assert_eq!(r, Vec2 { x: 57, y: 43 });
}

#[test]
fn first_frame_screen_vertices_golden() {
    let mut s = FrameState::new();
    s.advance();
    let screen = transform_mesh(&s);
    let expected = vec![
        Vec2 { x: 71, y: 43 },
        Vec2 { x: 57, y: 43 },
        Vec2 { x: 57, y: 29 },
        Vec2 { x: 71, y: 29 },
        Vec2 { x: 75, y: 47 },
        Vec2 { x: 55, y: 47 },
        Vec2 { x: 55, y: 27 },
        Vec2 { x: 75, y: 27 },
        Vec2 { x: 64, y: 15 },
        Vec2 { x: 64, y: 47 },
        Vec2 { x: 58, y: 47 },
        Vec2 { x: 58, y: 39 },
        Vec2 { x: 64, y: 39 },
        Vec2 { x: 71, y: 34 },
        Vec2 { x: 67, y: 34 },
        Vec2 { x: 67, y: 31 },
        Vec2 { x: 71, y: 31 },
        Vec2 { x: 56, y: 41 },
        Vec2 { x: 56, y: 41 },
        Vec2 { x: 56, y: 38 },
        Vec2 { x: 56, y: 38 },
        Vec2 { x: 57, y: 43 },
        Vec2 { x: 71, y: 43 },
        Vec2 { x: 71, y: 40 },
        Vec2 { x: 67, y: 40 },
        Vec2 { x: 65, y: 37 },
        Vec2 { x: 59, y: 37 },
        Vec2 { x: 57, y: 40 },
        Vec2 { x: 57, y: 42 },
        Vec2 { x: 70, y: 42 },
        Vec2 { x: 70, y: 39 },
        Vec2 { x: 66, y: 39 },
        Vec2 { x: 65, y: 37 },
        Vec2 { x: 59, y: 37 },
        Vec2 { x: 57, y: 39 },
        Vec2 { x: 81, y: 45 },
        Vec2 { x: 81, y: 15 },
        Vec2 { x: 81, y: 38 },
        Vec2 { x: 85, y: 19 },
        Vec2 { x: 77, y: 19 },
        Vec2 { x: 80, y: 20 },
        Vec2 { x: 83, y: 18 },
        Vec2 { x: 56, y: 45 },
        Vec2 { x: 42, y: 45 },
        Vec2 { x: 42, y: 38 },
        Vec2 { x: 45, y: 36 },
        Vec2 { x: 47, y: 38 },
        Vec2 { x: 49, y: 36 },
        Vec2 { x: 51, y: 38 },
        Vec2 { x: 54, y: 36 },
        Vec2 { x: 56, y: 38 },
        Vec2 { x: 47, y: 45 },
        Vec2 { x: 51, y: 45 },
        Vec2 { x: 64, y: 47 },
        Vec2 { x: 58, y: 47 },
        Vec2 { x: 57, y: 48 },
        Vec2 { x: 64, y: 48 },
    ];
    assert_eq!(screen, expected);
}

#[test]
fn first_frame_pixels_golden() {
    let mut s = FrameState::new();
    let pixels = render_frame(&mut s);
    assert_eq!(s.rotation_counter, 1);
    assert_eq!(pixels.len(), 563);
    assert_eq!(&pixels[..4], &[(57, 43), (58, 43), (59, 43), (60, 43)]);
    assert_eq!(pixels[pixels.len() - 1], (64, 48));
    let again = rasterize_mesh(&transform_mesh(&s));
    assert_eq!(pixels, again);
    assert!(pixels.iter().all(|p| p.0 < SCREEN_WIDTH as u32 && p.1 < SCREEN_HEIGHT as u32));
}

#[test]
fn frames_stay_on_screen_for_a_full_revolution() {
    let mut s = FrameState::new();
    for _ in 0..LOCATION_PERIOD {
        let pixels = render_frame(&mut s);
        assert!(!pixels.is_empty());
        assert!(pixels.iter().all(|p| p.0 < SCREEN_WIDTH as u32 && p.1 < SCREEN_HEIGHT as u32));
    }
    assert_eq!(s, FrameState::new());
}
