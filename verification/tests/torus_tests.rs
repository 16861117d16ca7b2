use torus_cam::fx::SCALE;
use torus_cam::torus::GeometryBuffer;
use torus_cam::torus::GridVertex;
use torus_cam::torus::TessellationError;
use torus_cam::torus::TorusDescriptor;
use torus_cam::torus::tessellate;

fn descriptor(segments: usize, sides: usize) -> TorusDescriptor {
    TorusDescriptor { radius: SCALE, ring_radius: SCALE / 2, segments, sides }
}

#[test]
fn counts_for_concrete_case() {
    let g = tessellate(&descriptor(4, 4)).unwrap();
    assert_eq!(g.vertices.len(), 25);
    assert_eq!(g.indices.len(), 96);
    assert_eq!(g.indices.len() % 3, 0);
    assert_eq!(g.indices.len() / 3, 32);
}

#[test]
fn counts_follow_formulas() {
    for (s, t) in [(3, 3), (5, 7), (32, 24), (10, 3)] {
        let g = tessellate(&descriptor(s, t)).unwrap();
        assert_eq!(g.vertices.len(), (s + 1) * (t + 1));
        assert_eq!(g.indices.len(), 6 * s * t);
    }
}

#[test]
fn vertices_in_grid_order() {
    let g = tessellate(&descriptor(5, 7)).unwrap();
    for (k, v) in g.vertices.iter().enumerate() {
        assert_eq!(*v, GridVertex { segment: k / 8, side: k % 8 });
    }
}

#[test]
fn winding_of_first_cell() {
    // stride is sides + 1 = 5: lt = 0, rt = 1, lb = 5, rb = 6.
    let g = tessellate(&descriptor(4, 4)).unwrap();
    assert_eq!(&g.indices[0..6], &[0, 1, 5, 1, 6, 5]);
}

#[test]
fn winding_pattern_everywhere() {
    let (s, t) = (5usize, 7usize);
    let g = tessellate(&descriptor(s, t)).unwrap();
    let stride = t + 1;
    let mut expected: Vec<u32> = Vec::new();
    for seg in 0..s {
        for side in 0..t {
            let lt = (side + seg * stride) as u32;
            let rt = lt + 1;
            let lb = lt + stride as u32;
            let rb = lb + 1;
            expected.extend_from_slice(&[lt, rt, lb, rt, rb, lb]);
        }
    }
    assert_eq!(g.indices, expected);
}

#[test]
fn indices_reference_valid_vertices() {
    let g = tessellate(&descriptor(6, 5)).unwrap();
    for i in &g.indices {
        assert!((*i as usize) < g.vertices.len());
    }
}

#[test]
fn tessellation_is_deterministic() {
    let d = descriptor(9, 11);
    let g1 = tessellate(&d).unwrap();
    let g2 = tessellate(&d).unwrap();
    assert_eq!(g1.vertices, g2.vertices);
    assert_eq!(g1.indices, g2.indices);
}

#[test]
fn invalid_descriptors_are_refused() {
    let bad = [
        TorusDescriptor { radius: 0, ring_radius: SCALE / 2, segments: 4, sides: 4 },
        TorusDescriptor { radius: -SCALE, ring_radius: SCALE / 2, segments: 4, sides: 4 },
        TorusDescriptor { radius: SCALE, ring_radius: 0, segments: 4, sides: 4 },
        TorusDescriptor { radius: SCALE, ring_radius: SCALE, segments: 2, sides: 4 },
        TorusDescriptor { radius: SCALE, ring_radius: SCALE, segments: 4, sides: 2 },
    ];
    for d in bad {
        assert_eq!(tessellate(&d).unwrap_err(), TessellationError::InvalidDescriptor);
    }
}

#[test]
fn default_descriptor_matches_documented_values() {
    let d = TorusDescriptor::default();
    assert_eq!(d.radius, SCALE);
    assert_eq!(d.ring_radius, SCALE / 2);
    assert_eq!(d.segments, 32);
    assert_eq!(d.sides, 24);
    assert!(tessellate(&d).is_ok());
}

/// Evaluate the torus parametrization in floating point from the grid
/// coordinates, as the engine boundary does before uploading a mesh.
fn float_attributes(d: &TorusDescriptor, g: &GeometryBuffer) -> Vec<([f32; 3], [f32; 3], [f32; 2])> {
    let radius = d.radius as f32 / SCALE as f32;
    let ring = d.ring_radius as f32 / SCALE as f32;
    let tau = std::f32::consts::TAU;
    g.vertices
        .iter()
        .map(|v| {
            let theta = v.segment as f32 * tau / d.segments as f32;
            let phi = v.side as f32 * tau / d.sides as f32;
            let position = [
                (radius + ring * phi.cos()) * theta.cos(),
                ring * phi.sin(),
                (radius + ring * phi.cos()) * theta.sin(),
            ];
            let ring_center = [radius * theta.cos(), 0.0, radius * theta.sin()];
            let n = [
                position[0] - ring_center[0],
                position[1] - ring_center[1],
                position[2] - ring_center[2],
            ];
            let len = (n[0] * n[0] + n[1] * n[1] + n[2] * n[2]).sqrt();
            let normal = [n[0] / len, n[1] / len, n[2] / len];
            let uv = [v.segment as f32 / d.segments as f32, v.side as f32 / d.sides as f32];
            (position, normal, uv)
        })
        .collect()
}

#[test]
fn normals_are_unit_and_uvs_in_range() {
    let d = TorusDescriptor::default();
    let g = tessellate(&d).unwrap();
    for (_, normal, uv) in float_attributes(&d, &g) {
        let len = (normal[0] * normal[0] + normal[1] * normal[1] + normal[2] * normal[2]).sqrt();
        assert!((len - 1.0).abs() < 1e-4);
        assert!((0.0..=1.0).contains(&uv[0]));
        assert!((0.0..=1.0).contains(&uv[1]));
    }
}
