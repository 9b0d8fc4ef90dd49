//! Rows of rectangles, generated and encoded with single-precision kernels.

use std::f32::consts::PI;

use wavy_rects::geometry::{encode_geometry, Triangle, MAX_RECTS, VERTICES_PER_RECT};
use wavy_rects::layout::{make_rects, RectSlot};
use wavy_rects::vertex::Vertex;

#[derive(Clone, Copy, Debug, PartialEq)]
struct OrientedRect {
    center: [f32; 2],
    half_size: [f32; 2],
    rotation_radians: f32,
}

/// A corner before it is stored: position and texture coordinate as numbers.
#[derive(Clone, Copy, Debug, PartialEq)]
struct Corner {
    position: [f32; 3],
    uv: [f32; 2],
}

impl Corner {
    fn stored(self) -> Vertex {
        Vertex { xyz: self.position.map(f32::to_bits), uv: self.uv.map(f32::to_bits) }
    }

    fn read(vertex: &Vertex) -> Corner {
        Corner { position: vertex.xyz.map(f32::from_bits), uv: vertex.uv.map(f32::from_bits) }
    }
}

#[derive(Clone, Copy)]
struct Frame {
    time_seconds: f32,
    scale: f32,
    x0: f32,
    x1: f32,
    y0: f32,
    y1: f32,
}

fn place(slot: RectSlot, frame: Frame) -> OrientedRect {
    let divisions = slot.divisions() as f32;
    let dx = (frame.x1 - frame.x0) / divisions;
    let dy = frame.y1 - frame.y0;
    let sz = dx.max(0.1);
    let i = slot.index as f32;
    let phase = 2.0 * PI * i / divisions;
    let turn = 2.0 * PI * frame.time_seconds / 7.0;
    OrientedRect {
        center: [
            frame.x0 + dx * (i + 0.5),
            frame.y0 + 0.5 * dy * (1.0 + (phase + turn).cos()),
        ],
        half_size: [frame.scale * sz, frame.scale * sz],
        rotation_radians: turn * f32::from(slot.spin()),
    }
}

fn generate(
    time_seconds: f32,
    scale: f32,
    count: u32,
    x0: f32,
    x1: f32,
    y0: f32,
    y1: f32,
) -> Vec<OrientedRect> {
    let frame = Frame { time_seconds, scale, x0, x1, y0, y1 };
    make_rects(count, |slot| place(slot, frame))
}

fn mk_vertices(rect: &OrientedRect) -> Triangle<Vertex> {
    let [cx, cy] = rect.center;
    let [hw, hh] = rect.half_size;
    let side = hw + hh;
    let (s, c) = rect.rotation_radians.sin_cos();
    let local = Triangle {
        a: Corner { position: [-hw, -hh, 0.0], uv: [-0.5, -0.5] },
        b: Corner { position: [2.0 * hh - hw, -hh, 0.0], uv: [-0.5 + side / hh, -0.5] },
        c: Corner { position: [-hw, 2.0 * hw - hh, 0.0], uv: [-0.5, -0.5 + side / hw] },
    };
    local.map(|mut v: Corner| {
        let x = v.position[0] + hw * 0.5;
        let y = v.position[1] + hh * 0.5;
        v.position[0] = x * c - y * s + cx;
        v.position[1] = x * s + y * c + cy;
        v.stored()
    })
}

fn encode(rects: &[OrientedRect]) -> (Vec<Corner>, Vec<u32>) {
    let (vertices, indices) = encode_geometry(rects, mk_vertices);
    (vertices.iter().map(Corner::read).collect(), indices)
}

fn close(a: f32, b: f32, tolerance: f32) -> bool {
    (a - b).abs() <= tolerance
}

/// The point of the encoded triangle whose texture coordinate is `(0, 0)`.
fn uv_origin(a: &Corner, b: &Corner, c: &Corner) -> [f32; 2] {
    let s = (0.0 - a.uv[0]) / (b.uv[0] - a.uv[0]);
    let t = (0.0 - a.uv[1]) / (c.uv[1] - a.uv[1]);
    [
        a.position[0] + s * (b.position[0] - a.position[0]) + t * (c.position[0] - a.position[0]),
        a.position[1] + s * (b.position[1] - a.position[1]) + t * (c.position[1] - a.position[1]),
    ]
}

#[test]
fn generate_returns_count_rectangles() {
    for count in [0u32, 1, 2, 3, 20, 100, 257] {
        let rects = generate(1.25, 5.0, count, -0.9, 0.9, -0.9, 0.9);
        assert_eq!(rects.len(), count as usize);
    }
}

#[test]
fn make_rects_visits_slots_in_order() {
    let slots = make_rects(4, |slot| (slot.index, slot.count));
    assert_eq!(slots, vec![(0, 4), (1, 4), (2, 4), (3, 4)]);
}

#[test]
fn slot_divisions_is_count_plus_one() {
    assert_eq!(RectSlot { index: 0, count: 0 }.divisions(), 1);
    assert_eq!(RectSlot { index: 2, count: 4 }.divisions(), 5);
    assert_eq!(
        RectSlot { index: 7, count: u32::MAX }.divisions(),
        4_294_967_296
    );
}

#[test]
fn slot_spin_follows_parity() {
    assert_eq!(RectSlot { index: 0, count: 9 }.spin(), -1);
    assert_eq!(RectSlot { index: 1, count: 9 }.spin(), 1);
    assert_eq!(RectSlot { index: 2, count: 9 }.spin(), -1);
    assert_eq!(RectSlot { index: 7, count: 9 }.spin(), 1);
    assert_eq!(RectSlot { index: u32::MAX, count: u32::MAX }.spin(), 1);
    assert_eq!(RectSlot { index: u32::MAX - 1, count: u32::MAX }.spin(), -1);
}

#[test]
fn neighbouring_spins_cancel() {
    for index in 0u32..64 {
        let here = RectSlot { index, count: 65 }.spin();
        let next = RectSlot { index: index + 1, count: 65 }.spin();
        assert_eq!(here + next, 0);
    }
}

#[test]
fn half_sizes_are_square_and_scaled() {
    let (x0, x1) = (-0.9f32, 0.9f32);
    for (count, scale) in [(1u32, 3.0f32), (7, 5.0), (20, 5.0), (100, 0.5)] {
        let dx = (x1 - x0) / (count + 1) as f32;
        let expected = scale * dx.max(0.1);
        for rect in generate(2.5, scale, count, x0, x1, -0.9, 0.9) {
            assert_eq!(rect.half_size[0], expected);
            assert_eq!(rect.half_size[1], expected);
        }
    }
}

#[test]
fn half_size_has_a_floor() {
    // 100 rectangles over a width of 1.8: dx is below 0.1, so the floor applies.
    let rects = generate(0.0, 5.0, 100, -0.9, 0.9, -0.9, 0.9);
    assert_eq!(rects[0].half_size, [0.5, 0.5]);
    // A box without width still gives rectangles of the floor size.
    let rects = generate(0.0, 2.0, 3, 0.25, 0.25, 0.5, 0.5);
    assert_eq!(rects.len(), 3);
    for rect in rects {
        assert_eq!(rect.half_size, [0.2, 0.2]);
        assert_eq!(rect.center, [0.25, 0.5]);
    }
}

#[test]
fn rotation_alternates_with_index_parity() {
    let rects = generate(1.5, 5.0, 12, -0.9, 0.9, -0.9, 0.9);
    let turn = 2.0 * PI * 1.5 / 7.0;
    for (i, rect) in rects.iter().enumerate() {
        let expected = if i % 2 == 1 { turn } else { -turn };
        assert_eq!(rect.rotation_radians, expected);
    }
    for pair in rects.windows(2) {
        assert!(pair[0].rotation_radians != 0.0 && pair[1].rotation_radians != 0.0);
        assert!(pair[0].rotation_radians * pair[1].rotation_radians <= 0.0);
    }
}

#[test]
fn column_centres_lie_strictly_inside_the_box() {
    let (x0, x1) = (-0.9f32, 0.9f32);
    for count in [1u32, 2, 5, 20, 100] {
        let rects = generate(0.75, 5.0, count, x0, x1, -0.9, 0.9);
        let mut last = x0;
        for rect in rects {
            assert!(last < rect.center[0] && rect.center[0] < x1);
            assert!(-0.9 - 1e-6 <= rect.center[1] && rect.center[1] <= 0.9 + 1e-6);
            last = rect.center[0];
        }
    }
}

#[test]
fn single_rectangle_at_time_zero() {
    let rects = generate(0.0, 3.0, 1, -0.9, 0.9, -0.9, 0.9);
    assert_eq!(rects.len(), 1);
    let rect = rects[0];
    // dx = 1.8 / 2 = 0.9, so the only column centre is at -0.9 + 0.9 * 0.5.
    assert!(close(rect.center[0], -0.45, 1e-6));
    // -0.9 + 0.5 * 1.8 * (1 + cos 0)
    assert!(close(rect.center[1], 0.9, 1e-6));
    assert!(close(rect.half_size[0], 2.7, 1e-6));
    assert!(close(rect.half_size[1], 2.7, 1e-6));
    assert!(close(rect.rotation_radians, 0.0, 1e-6));
}

#[test]
fn empty_row_gives_empty_geometry() {
    let rects = generate(3.0, 5.0, 0, -0.9, 0.9, -0.9, 0.9);
    assert!(rects.is_empty());
    let (vertices, indices) = encode(&rects);
    assert!(vertices.is_empty());
    assert!(indices.is_empty());
}

#[test]
fn encode_emits_three_vertices_and_identity_indices() {
    for count in [1u32, 2, 9, 100] {
        let rects = generate(0.5, 5.0, count, -0.9, 0.9, -0.9, 0.9);
        let (vertices, indices) = encode(&rects);
        assert_eq!(vertices.len(), VERTICES_PER_RECT * rects.len());
        assert_eq!(indices.len(), vertices.len());
        let expected: Vec<u32> = (0..3 * count).collect();
        assert_eq!(indices, expected);
    }
}

#[test]
fn encode_keeps_rectangle_and_corner_order() {
    let rects: Vec<u32> = vec![10, 20, 30];
    let (vertices, indices) =
        encode_geometry(&rects, |r: &u32| Triangle { a: *r, b: *r + 1, c: *r + 2 });
    assert_eq!(vertices, vec![10, 11, 12, 20, 21, 22, 30, 31, 32]);
    assert_eq!(indices, vec![0, 1, 2, 3, 4, 5, 6, 7, 8]);
}

#[test]
fn triangle_map_transforms_each_corner() {
    let moved = Triangle { a: 1u32, b: 2, c: 3 }.map(|v| v * 10);
    assert_eq!((moved.a, moved.b, moved.c), (10, 20, 30));
}

#[test]
fn max_rects_is_the_last_row_that_32_bit_indices_reach() {
    assert!(3 * MAX_RECTS as u64 <= u32::MAX as u64);
    assert!(3 * (MAX_RECTS as u64 + 1) > u32::MAX as u64);
}

#[test]
fn unrotated_triangle_has_the_documented_corners() {
    let rect = OrientedRect { center: [0.0, 0.0], half_size: [2.0, 4.0], rotation_radians: 0.0 };
    let (vertices, _) = encode(&[rect]);
    // Local corners (-hw, -hh), (2hh - hw, -hh), (-hw, 2hw - hh), moved by (hw / 2, hh / 2).
    assert_eq!(vertices[0].position, [-1.0, -2.0, 0.0]);
    assert_eq!(vertices[1].position, [7.0, -2.0, 0.0]);
    assert_eq!(vertices[2].position, [-1.0, 2.0, 0.0]);
    assert_eq!(vertices[0].uv, [-0.5, -0.5]);
    assert_eq!(vertices[1].uv, [1.0, -0.5]);
    assert_eq!(vertices[2].uv, [-0.5, 2.5]);
}

#[test]
fn quarter_turn_rotates_about_the_centre() {
    let rect = OrientedRect {
        center: [10.0, 20.0],
        half_size: [2.0, 2.0],
        rotation_radians: PI / 2.0,
    };
    let (vertices, _) = encode(&[rect]);
    // Recentred corners (-1, -1), (3, -1), (-1, 3) turn to (1, -1), (1, 3), (-3, -1).
    let expected = [[11.0, 19.0], [11.0, 23.0], [7.0, 19.0]];
    for (vertex, want) in vertices.iter().zip(expected) {
        assert!(close(vertex.position[0], want[0], 1e-5));
        assert!(close(vertex.position[1], want[1], 1e-5));
        assert_eq!(vertex.position[2], 0.0);
    }
}

#[test]
fn uv_origin_maps_to_rect_center() {
    for time in [0.0f32, 0.4, 1.75, 3.5, 6.9] {
        let rects = generate(time, 5.0, 20, -0.9, 0.9, -0.9, 0.9);
        let (vertices, _) = encode(&rects);
        for (rect, corners) in rects.iter().zip(vertices.chunks(3)) {
            let found = uv_origin(&corners[0], &corners[1], &corners[2]);
            assert!(close(found[0], rect.center[0], 1e-5));
            assert!(close(found[1], rect.center[1], 1e-5));
        }
    }
}

#[test]
fn centres_follow_the_travelling_wave() {
    // Three rectangles over four divisions, a quarter of the period in.
    let rects = generate(1.75, 1.0, 3, 0.0, 4.0, -1.0, 1.0);
    let expected_x = [0.5f32, 1.5, 2.5];
    // Angles pi / 2, pi and 3 pi / 2: cosines 0, -1 and 0.
    let expected_y = [0.0f32, -1.0, 0.0];
    for ((rect, x), y) in rects.iter().zip(expected_x).zip(expected_y) {
        assert_eq!(rect.center[0], x);
        assert!(close(rect.center[1], y, 1e-6));
        assert_eq!(rect.half_size, [1.0, 1.0]);
    }
    let quarter = 2.0 * PI * 1.75 / 7.0;
    assert_eq!(rects[0].rotation_radians, -quarter);
    assert_eq!(rects[1].rotation_radians, quarter);
    assert_eq!(rects[2].rotation_radians, -quarter);
}

#[test]
fn animation_repeats_after_seven_time_units() {
    let early = generate(0.5, 5.0, 9, -0.9, 0.9, -0.9, 0.9);
    let late = generate(7.5, 5.0, 9, -0.9, 0.9, -0.9, 0.9);
    for (a, b) in early.iter().zip(&late) {
        assert_eq!(a.center[0], b.center[0]);
        assert!(close(a.center[1], b.center[1], 1e-5));
        assert_eq!(a.half_size, b.half_size);
    }
}

#[test]
fn generate_is_deterministic() {
    let once = generate(2.25, 5.0, 33, -0.9, 0.9, -0.9, 0.9);
    let again = generate(2.25, 5.0, 33, -0.9, 0.9, -0.9, 0.9);
    assert_eq!(once, again);
    assert_eq!(encode(&once), encode(&again));
}

#[test]
fn triangles_of_different_rectangles_share_no_index() {
    let rects = generate(0.0, 5.0, 50, -0.9, 0.9, -0.9, 0.9);
    let (_, indices) = encode(&rects);
    for (k, triangle) in indices.chunks(3).enumerate() {
        let first = 3 * k as u32;
        assert_eq!(triangle, [first, first + 1, first + 2]);
    }
}
