//! Behaviour of the renderer's frame state: dirty tracking, capacity
//! truncation, resize determinism and uniform freshness, on concrete values.

use egui_gpu_plot::{PlotBounds, PlotState, Uniform, Vertex, MAX_POINTS};

fn sample_vertex(seed: u32) -> Vertex {
    Vertex {
        position: (seed, seed.wrapping_add(1)),
        normal: (seed.wrapping_add(2), seed.wrapping_add(3)),
        color: (
            seed.wrapping_add(4),
            seed.wrapping_add(5),
            seed.wrapping_add(6),
            seed.wrapping_add(7),
        ),
    }
}

fn sample_points(n: u32) -> Vec<Vertex> {
    let mut points = Vec::new();
    let mut i: u32 = 0;
    while i < n {
        points.push(sample_vertex(i.wrapping_mul(97)));
        i += 1;
    }
    points
}

#[test]
fn initial_state_is_default_sized_and_empty() {
    let s = PlotState::initial();
    assert_eq!(s.width, 1);
    assert_eq!(s.height, 1);
    assert_eq!(s.vertex_count, 0);
    assert_eq!(s.uniform, Uniform::initial());
}

#[test]
fn initial_uniform_spans_minus_one_to_one() {
    let u = Uniform::initial();
    assert_eq!(u.x_bounds, (0xBF80_0000, 0x3F80_0000));
    assert_eq!(u.y_bounds, (0xBF80_0000, 0x3F80_0000));
}

#[test]
fn resize_records_requested_size() {
    let mut s = PlotState::initial();
    let realloc = s.resize(640, 480);
    assert!(realloc);
    assert_eq!(s.width, 640);
    assert_eq!(s.height, 480);
}

#[test]
fn resize_same_size_twice_reallocates_at_most_once() {
    let mut s = PlotState::initial();
    let first = s.resize(800, 600);
    let second = s.resize(800, 600);
    assert!(first);
    assert!(!second);
    assert_eq!(s.width, 800);
    assert_eq!(s.height, 600);
}

#[test]
fn resize_clamps_zero_dimensions_to_one() {
    let mut s = PlotState::initial();
    s.resize(0, 7);
    assert_eq!(s.width, 1);
    assert_eq!(s.height, 7);
    s.resize(0, 0);
    assert_eq!(s.width, 1);
    assert_eq!(s.height, 1);
}

#[test]
fn resize_to_current_size_is_a_noop_even_when_clamped() {
    let mut s = PlotState::initial();
    // The initial size is one by one; a degenerate viewport clamps to the
    // same size, so nothing must be reallocated.
    let realloc = s.resize(0, 0);
    assert!(!realloc);
}

#[test]
fn dirty_upload_records_count() {
    let mut s = PlotState::initial();
    let points = sample_points(6);
    let upload = s.set_vertices(&points, true);
    assert_eq!(upload, Some(6));
    assert_eq!(s.vertex_count, 6);
}

#[test]
fn clean_upload_changes_nothing_any_number_of_times() {
    let mut s = PlotState::initial();
    let points = sample_points(6);
    s.set_vertices(&points, true);
    let other = sample_points(250);
    for _ in 0..5 {
        let upload = s.set_vertices(&other, false);
        assert_eq!(upload, None);
        assert_eq!(s.vertex_count, 6);
    }
}

#[test]
fn empty_dirty_upload_clears_the_count() {
    let mut s = PlotState::initial();
    let points = sample_points(6);
    s.set_vertices(&points, true);
    let upload = s.set_vertices(&[], true);
    assert_eq!(upload, Some(0));
    assert_eq!(s.vertex_count, 0);
}

#[test]
fn upload_at_exact_capacity_keeps_every_vertex() {
    let mut s = PlotState::initial();
    let points = vec![Vertex::default(); MAX_POINTS];
    let upload = s.set_vertices(&points, true);
    assert_eq!(upload, Some(MAX_POINTS));
    assert_eq!(s.vertex_count as usize, MAX_POINTS);
}

#[test]
fn upload_past_capacity_truncates_to_capacity() {
    let mut s = PlotState::initial();
    let points = vec![Vertex::default(); MAX_POINTS + 1];
    let upload = s.set_vertices(&points, true);
    assert_eq!(upload, Some(MAX_POINTS));
    assert_eq!(s.vertex_count as usize, MAX_POINTS);
}

#[test]
fn uniform_follows_bounds_of_every_frame() {
    let mut s = PlotState::initial();
    let points = sample_points(4);
    s.set_vertices(&points, true);
    let first = PlotBounds { min: (10, 20), max: (30, 40) };
    let second = PlotBounds { min: (11, 21), max: (31, 41) };
    s.set_bounds(&first);
    assert_eq!(s.uniform, Uniform { x_bounds: (10, 30), y_bounds: (20, 40) });
    // A camera-only frame: bounds change, data does not.
    s.set_bounds(&second);
    s.set_vertices(&points, false);
    assert_eq!(s.uniform, Uniform { x_bounds: (11, 31), y_bounds: (21, 41) });
    assert_eq!(s.vertex_count, 4);
}
