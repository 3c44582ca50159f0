//! End-to-end tangent generation: the library's mesh and pipeline around
//! the mikktspace generator, as the host binding drives them.

use tangent_gen::TangentError;
use tangent_gen::finish_generation;
use tangent_gen::mesh::Mesh;

/// Drives the mikktspace generator from the library's word-buffer mesh,
/// decoding words to scalars on reads and encoding them back on writes.
struct Adapter {
    mesh: Mesh,
}

impl mikktspace::Geometry for Adapter {
    fn num_faces(&self) -> usize {
        self.mesh.num_faces()
    }

    fn num_vertices_of_face(&self, face: usize) -> usize {
        self.mesh.num_vertices_of_face(face)
    }

    fn position(&self, face: usize, vert: usize) -> [f32; 3] {
        let w = self.mesh.position(face, vert);
        [f32::from_bits(w[0]), f32::from_bits(w[1]), f32::from_bits(w[2])]
    }

    fn normal(&self, face: usize, vert: usize) -> [f32; 3] {
        let w = self.mesh.normal(face, vert);
        [f32::from_bits(w[0]), f32::from_bits(w[1]), f32::from_bits(w[2])]
    }

    fn tex_coord(&self, face: usize, vert: usize) -> [f32; 2] {
        let w = self.mesh.tex_coord(face, vert);
        [f32::from_bits(w[0]), f32::from_bits(w[1])]
    }

    fn set_tangent_encoded(&mut self, tangent: [f32; 4], face: usize, vert: usize) {
        let words = [
            tangent[0].to_bits(),
            tangent[1].to_bits(),
            tangent[2].to_bits(),
            tangent[3].to_bits(),
        ];
        self.mesh.set_tangent_encoded(words, face, vert);
    }
}

fn generate_words(
    position: &[f32],
    normal: &[f32],
    texcoord: &[f32],
) -> Result<Vec<u32>, TangentError> {
    let p: Vec<u32> = position.iter().map(|v| v.to_bits()).collect();
    let n: Vec<u32> = normal.iter().map(|v| v.to_bits()).collect();
    let t: Vec<u32> = texcoord.iter().map(|v| v.to_bits()).collect();
    let mesh = Mesh::new(p, n, t)?;
    let mut adapter = Adapter { mesh };
    let generated = mikktspace::generate_tangents(&mut adapter);
    finish_generation(adapter.mesh, generated)
}

fn generate(position: &[f32], normal: &[f32], texcoord: &[f32]) -> Result<Vec<f32>, TangentError> {
    generate_words(position, normal, texcoord)
        .map(|words| words.into_iter().map(f32::from_bits).collect())
}

/// A planar quad in the XY plane split into two triangles, normals +Z,
/// UVs axis-aligned: u grows along +X and v along +Y.
const QUAD_POSITION: [f32; 18] = [
    0.0, 0.0, 0.0, 1.0, 0.0, 0.0, 1.0, 1.0, 0.0, // first triangle
    0.0, 0.0, 0.0, 1.0, 1.0, 0.0, 0.0, 1.0, 0.0, // second triangle
];
const QUAD_NORMAL: [f32; 18] = [
    0.0, 0.0, 1.0, 0.0, 0.0, 1.0, 0.0, 0.0, 1.0, //
    0.0, 0.0, 1.0, 0.0, 0.0, 1.0, 0.0, 0.0, 1.0,
];
const QUAD_TEXCOORD: [f32; 12] = [
    0.0, 0.0, 1.0, 0.0, 1.0, 1.0, //
    0.0, 0.0, 1.0, 1.0, 0.0, 1.0,
];

fn tangent_of(output: &[f32], instance: usize) -> [f32; 4] {
    [
        output[4 * instance],
        output[4 * instance + 1],
        output[4 * instance + 2],
        output[4 * instance + 3],
    ]
}

fn magnitude(t: &[f32; 4]) -> f32 {
    (t[0] * t[0] + t[1] * t[1] + t[2] * t[2]).sqrt()
}

#[test]
fn output_has_four_components_per_vertex_instance() {
    let output = generate(&QUAD_POSITION, &QUAD_NORMAL, &QUAD_TEXCOORD).unwrap();
    assert_eq!(output.len(), 4 * (QUAD_POSITION.len() / 3));
}

#[test]
fn every_output_tangent_is_unit_length() {
    let output = generate(&QUAD_POSITION, &QUAD_NORMAL, &QUAD_TEXCOORD).unwrap();
    for instance in 0..output.len() / 4 {
        let t = tangent_of(&output, instance);
        assert!((magnitude(&t) - 1.0).abs() < 1e-4);
        assert!(t[3] == 1.0 || t[3] == -1.0);
    }
}

#[test]
fn quad_tangent_follows_the_u_direction() {
    let output = generate(&QUAD_POSITION, &QUAD_NORMAL, &QUAD_TEXCOORD).unwrap();
    for instance in 0..output.len() / 4 {
        let t = tangent_of(&output, instance);
        // u grows along +X, so the tangent is the +X axis.
        assert!((t[0] - 1.0).abs() < 1e-4);
        assert!(t[1].abs() < 1e-4);
        assert!(t[2].abs() < 1e-4);
        // v grows along +Y, and cross(+Z, +X) == +Y: the bitangent keeps
        // its orientation, so the encoded sign is +1.
        assert_eq!(t[3], 1.0);
    }
}

#[test]
fn smooth_shared_vertices_receive_identical_tangents() {
    let output = generate_words(&QUAD_POSITION, &QUAD_NORMAL, &QUAD_TEXCOORD).unwrap();
    // Instances 0 and 3 are the same corner of the quad, as are 2 and 4:
    // same position, same normal, continuous UVs.
    for (left, right) in [(0usize, 3usize), (2, 4)] {
        assert_eq!(output[4 * left..4 * left + 4], output[4 * right..4 * right + 4]);
    }
}

#[test]
fn hard_edge_vertices_receive_independent_tangents() {
    // Two triangles share the positions of an edge but meet at a right
    // angle, and their UV charts run along different axes.
    let position: [f32; 18] = [
        0.0, 0.0, 0.0, 1.0, 0.0, 0.0, 0.0, 1.0, 0.0, // in the XY plane
        0.0, 0.0, 0.0, 0.0, 0.0, 1.0, 1.0, 0.0, 0.0, // in the XZ plane
    ];
    let normal: [f32; 18] = [
        0.0, 0.0, 1.0, 0.0, 0.0, 1.0, 0.0, 0.0, 1.0, //
        0.0, -1.0, 0.0, 0.0, -1.0, 0.0, 0.0, -1.0, 0.0,
    ];
    let texcoord: [f32; 12] = [
        0.0, 0.0, 1.0, 0.0, 0.0, 1.0, //
        0.0, 0.0, 1.0, 0.0, 0.0, 1.0,
    ];
    let output = generate(&position, &normal, &texcoord).unwrap();
    // Instance 0 and instance 3 share a position but not a normal.
    let first = tangent_of(&output, 0);
    let second = tangent_of(&output, 3);
    // The first chart's u runs along +X, the second chart's u along +Z.
    assert!((first[0] - 1.0).abs() < 1e-4);
    assert!((second[2] - 1.0).abs() < 1e-4);
    let dot = first[0] * second[0] + first[1] * second[1] + first[2] * second[2];
    assert!(dot.abs() < 1e-4);
}

#[test]
fn cube_tangents_are_unit_and_signed() {
    // A unit cube: six quads, each split into two triangles, with an
    // axis-aligned UV chart per face.
    let quads: [([f32; 12], [f32; 3]); 6] = [
        ([0., 0., 1., 1., 0., 1., 1., 1., 1., 0., 1., 1.], [0., 0., 1.]),
        ([1., 0., 0., 0., 0., 0., 0., 1., 0., 1., 1., 0.], [0., 0., -1.]),
        ([1., 0., 1., 1., 0., 0., 1., 1., 0., 1., 1., 1.], [1., 0., 0.]),
        ([0., 0., 0., 0., 0., 1., 0., 1., 1., 0., 1., 0.], [-1., 0., 0.]),
        ([0., 1., 1., 1., 1., 1., 1., 1., 0., 0., 1., 0.], [0., 1., 0.]),
        ([0., 0., 0., 1., 0., 0., 1., 0., 1., 0., 0., 1.], [0., -1., 0.]),
    ];
    let quad_uv: [[f32; 2]; 4] = [[0., 0.], [1., 0.], [1., 1.], [0., 1.]];
    let mut position: Vec<f32> = Vec::new();
    let mut normal: Vec<f32> = Vec::new();
    let mut texcoord: Vec<f32> = Vec::new();
    for (corners, n) in &quads {
        for corner in [0usize, 1, 2, 0, 2, 3] {
            position.extend_from_slice(&corners[3 * corner..3 * corner + 3]);
            normal.extend_from_slice(n);
            texcoord.extend_from_slice(&quad_uv[corner]);
        }
    }
    let output = generate(&position, &normal, &texcoord).unwrap();
    assert_eq!(output.len(), 4 * (position.len() / 3));
    for instance in 0..output.len() / 4 {
        let t = tangent_of(&output, instance);
        assert!((magnitude(&t) - 1.0).abs() < 1e-4);
        assert!(t[3] == 1.0 || t[3] == -1.0);
        assert!(!t[0].is_nan() && !t[1].is_nan() && !t[2].is_nan());
    }
}

#[test]
fn generation_is_idempotent_bit_for_bit() {
    let first = generate_words(&QUAD_POSITION, &QUAD_NORMAL, &QUAD_TEXCOORD).unwrap();
    let second = generate_words(&QUAD_POSITION, &QUAD_NORMAL, &QUAD_TEXCOORD).unwrap();
    assert_eq!(first, second);
}

#[test]
fn zero_faces_yield_empty_output_without_error() {
    let output = generate(&[], &[], &[]).unwrap();
    assert!(output.is_empty());
}

#[test]
fn mismatched_buffers_fail_fast() {
    let position = [0.0f32; 9];
    let normal = [0.0f32; 9];
    let texcoord = [0.0f32; 4];
    match generate(&position, &normal, &texcoord) {
        Ok(_) => panic!("mismatched buffers were accepted"),
        Err(e) => assert_eq!(e, TangentError::BufferLengthMismatch),
    }
}

#[test]
fn degenerate_uv_triangle_does_not_spread_nan() {
    // The first triangle has a sound UV chart; the second shares its first
    // corner (same position, normal and UV) but maps all three corners to
    // one UV point, so its own basis is degenerate.
    let position: [f32; 18] = [
        0.0, 0.0, 0.0, 1.0, 0.0, 0.0, 1.0, 1.0, 0.0, //
        0.0, 0.0, 0.0, 0.0, 1.0, 0.0, -1.0, 0.0, 0.0,
    ];
    let normal: [f32; 18] = [
        0.0, 0.0, 1.0, 0.0, 0.0, 1.0, 0.0, 0.0, 1.0, //
        0.0, 0.0, 1.0, 0.0, 0.0, 1.0, 0.0, 0.0, 1.0,
    ];
    let texcoord: [f32; 12] = [
        0.0, 0.0, 1.0, 0.0, 1.0, 1.0, //
        0.0, 0.0, 0.0, 0.0, 0.0, 0.0,
    ];
    let output = generate(&position, &normal, &texcoord).unwrap();
    for value in &output {
        assert!(!value.is_nan());
    }
    // The corner shared with the sound triangle still gets its unit
    // tangent from that triangle's contribution.
    let shared = tangent_of(&output, 3);
    assert!((magnitude(&shared) - 1.0).abs() < 1e-4);
}
