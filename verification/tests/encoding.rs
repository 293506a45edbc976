//! The byte images uploaded to the GPU, checked against byte strings
//! computed independently with the standard library's float and integer
//! conversions, and the end-to-end frame scenario.

use egui_gpu_plot::encode::{uniform_bytes, vertices_bytes, UNIFORM_BYTES, VERTEX_BYTES};
use egui_gpu_plot::{PlotBounds, PlotState, Uniform, Vertex};

/// A vertex from plain float data, as a host-side data producer builds one.
fn vertex_from_floats(position: [f32; 2], normal: [f32; 2], color: [f32; 4]) -> Vertex {
    Vertex {
        position: (position[0].to_bits(), position[1].to_bits()),
        normal: (normal[0].to_bits(), normal[1].to_bits()),
        color: (
            color[0].to_bits(),
            color[1].to_bits(),
            color[2].to_bits(),
            color[3].to_bits(),
        ),
    }
}

/// The byte image that a packed struct of the same floats would have.
fn float_bytes(floats: &[f32]) -> Vec<u8> {
    let mut out = Vec::new();
    for f in floats {
        out.extend_from_slice(&f.to_le_bytes());
    }
    out
}

#[test]
fn uniform_encoding_is_sixteen_bytes_little_endian() {
    let u = Uniform { x_bounds: (0x0403_0201, 0x0807_0605), y_bounds: (0x0C0B_0A09, 0x100F_0E0D) };
    let bytes = uniform_bytes(&u);
    assert_eq!(bytes.len(), UNIFORM_BYTES);
    assert_eq!(
        bytes,
        vec![1, 2, 3, 4, 5, 6, 7, 8, 9, 10, 11, 12, 13, 14, 15, 16]
    );
}

#[test]
fn initial_uniform_encodes_the_unit_rectangle() {
    let bytes = uniform_bytes(&Uniform::initial());
    let expected = float_bytes(&[-1.0f32, 1.0, -1.0, 1.0]);
    assert_eq!(bytes, expected);
}

#[test]
fn vertex_encoding_matches_packed_float_layout() {
    let v = vertex_from_floats([1.5, -2.25], [0.5, -0.5], [0.25, 0.75, 1.0, 0.125]);
    let bytes = vertices_bytes(&[v], 1);
    let expected = float_bytes(&[1.5, -2.25, 0.5, -0.5, 0.25, 0.75, 1.0, 0.125]);
    assert_eq!(bytes.len(), VERTEX_BYTES);
    assert_eq!(bytes, expected);
}

#[test]
fn vertex_records_are_packed_back_to_back() {
    let a = vertex_from_floats([0.0, 1.0], [2.0, 3.0], [4.0, 5.0, 6.0, 7.0]);
    let b = vertex_from_floats([8.0, 9.0], [10.0, 11.0], [12.0, 13.0, 14.0, 15.0]);
    let bytes = vertices_bytes(&[a, b], 2);
    let mut expected = float_bytes(&[0.0, 1.0, 2.0, 3.0, 4.0, 5.0, 6.0, 7.0]);
    expected.extend_from_slice(&float_bytes(&[8.0, 9.0, 10.0, 11.0, 12.0, 13.0, 14.0, 15.0]));
    assert_eq!(bytes.len(), 2 * VERTEX_BYTES);
    assert_eq!(bytes, expected);
}

#[test]
fn encoding_covers_only_the_requested_prefix() {
    let a = vertex_from_floats([1.0, 2.0], [3.0, 4.0], [5.0, 6.0, 7.0, 8.0]);
    let b = vertex_from_floats([9.0, 10.0], [11.0, 12.0], [13.0, 14.0, 15.0, 16.0]);
    let bytes = vertices_bytes(&[a, b], 1);
    assert_eq!(bytes, float_bytes(&[1.0, 2.0, 3.0, 4.0, 5.0, 6.0, 7.0, 8.0]));
}

#[test]
fn encoding_of_nothing_is_empty() {
    let bytes = vertices_bytes(&[], 0);
    assert!(bytes.is_empty());
}

#[test]
fn default_vertex_encodes_to_zero_bytes() {
    let bytes = vertices_bytes(&[Vertex::default()], 1);
    assert_eq!(bytes, vec![0u8; VERTEX_BYTES]);
}

/// Three logical samples, each duplicated with opposite normals into two
/// vertices, as the triangle-strip ribbon encoding asks.
fn ribbon_samples() -> Vec<Vertex> {
    let samples: [([f32; 2], [f32; 2], [f32; 4]); 3] = [
        ([-0.5, 0.0], [0.0, 1.0], [1.0, 0.0, 0.0, 1.0]),
        ([0.0, 0.25], [0.6, 0.8], [0.0, 1.0, 0.0, 1.0]),
        ([0.5, -0.25], [0.8, -0.6], [0.0, 0.0, 1.0, 1.0]),
    ];
    let mut points = Vec::new();
    for (position, normal, color) in samples {
        points.push(vertex_from_floats(position, normal, color));
        points.push(vertex_from_floats(position, [-normal[0], -normal[1]], color));
    }
    points
}

#[test]
fn end_to_end_frame_pair_is_byte_identical() {
    let bounds = PlotBounds {
        min: ((-1.0f32).to_bits(), (-1.0f32).to_bits()),
        max: (1.0f32.to_bits(), 1.0f32.to_bits()),
    };
    let points = ribbon_samples();
    assert_eq!(points.len(), 6);

    // First frame: a one-by-one (or larger) target, fresh bounds, dirty data.
    let mut s = PlotState::initial();
    let realloc = s.resize(1, 1);
    assert!(!realloc);
    s.set_bounds(&bounds);
    let upload = s.set_vertices(&points, true);
    assert_eq!(upload, Some(6));
    // The one draw command of the frame spans exactly the six vertices.
    assert_eq!(s.vertex_count, 6);
    let first_uniform = uniform_bytes(&s.uniform);
    let first_vertices = vertices_bytes(&points, 6);

    // Second frame: unchanged bounds, clean data.
    s.resize(1, 1);
    s.set_bounds(&bounds);
    let upload = s.set_vertices(&points, false);
    assert_eq!(upload, None);
    assert_eq!(s.vertex_count, 6);
    let second_uniform = uniform_bytes(&s.uniform);

    // The uniform is byte-identical, and no new vertex bytes were uploaded,
    // so the buffer still holds exactly the first frame's image.
    assert_eq!(first_uniform, second_uniform);
    assert_eq!(first_vertices, vertices_bytes(&points, 6));
}
