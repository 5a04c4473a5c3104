use engine_core::fixed::{Vec3Fx, FX_ONE};
use engine_core::model::{build_mesh_vertices, GeometryError, Vec2Fx};

/// A unit quad in the xy plane whose texture coordinates equal its x/y
/// position: the u texture axis maps to the object-space x axis.
fn quad() -> (Vec<i64>, Vec<i64>, Vec<i64>, Vec<u32>) {
    let o = FX_ONE;
    // vertices: (0,0) (1,0) (0,1) (1,1), all at z = 0
    let positions = vec![0, 0, 0, o, 0, 0, 0, o, 0, o, o, 0];
    let texcoords = vec![0, 0, o, 0, 0, o, o, o];
    let normals = vec![0, 0, o, 0, 0, o, 0, 0, o, 0, 0, o];
    // both triangles lead with an edge along +x
    let indices = vec![0, 1, 2, 2, 3, 1];
    (positions, texcoords, normals, indices)
}

// For a planar quad split into two triangles with axis-aligned texture
// coordinates, every vertex's computed tangent is parallel to the u-axis
// direction in object space — here exactly (1, 0, 0).
#[test]
fn quad_tangents_follow_the_u_axis() {
    let (positions, texcoords, normals, indices) = quad();
    let mesh = build_mesh_vertices(&positions, &texcoords, &normals, &indices).unwrap();
    assert_eq!(mesh.degenerate_triangles, 0);
    assert_eq!(mesh.vertices.len(), 4);
    for v in &mesh.vertices {
        assert_eq!(v.tangent, Vec3Fx { x: FX_ONE, y: 0, z: 0 });
        assert_eq!(v.bitangent, Vec3Fx { x: 0, y: -FX_ONE, z: 0 });
    }
}

// The same quad split along its other diagonal: the leading edges are no
// longer axis-aligned, but the tangents still follow the u axis exactly.
#[test]
fn quad_tangents_follow_the_u_axis_under_the_other_split() {
    let (positions, texcoords, normals, _) = quad();
    let indices = vec![0, 1, 3, 0, 3, 2];
    let mesh = build_mesh_vertices(&positions, &texcoords, &normals, &indices).unwrap();
    assert_eq!(mesh.degenerate_triangles, 0);
    for v in &mesh.vertices {
        assert_eq!(v.tangent.y, 0);
        assert_eq!(v.tangent.z, 0);
        assert!(v.tangent.x > 0);
    }
}

#[test]
fn base_attributes_carry_over_per_vertex() {
    let (positions, texcoords, normals, indices) = quad();
    let mesh = build_mesh_vertices(&positions, &texcoords, &normals, &indices).unwrap();
    let v1 = mesh.vertices[1];
    assert_eq!(v1.position, Vec3Fx { x: FX_ONE, y: 0, z: 0 });
    assert_eq!(v1.tex_coords, Vec2Fx { x: FX_ONE, y: 0 });
    assert_eq!(v1.normal, Vec3Fx { x: 0, y: 0, z: FX_ONE });
}

// A triangle whose texture coordinates collapse has a zero UV determinant;
// its tangent cannot be solved, so it is skipped and counted, and the
// vertices it alone touches keep a zero basis.
#[test]
fn degenerate_uv_triangles_are_skipped_and_counted() {
    let o = FX_ONE;
    let positions = vec![0, 0, 0, o, 0, 0, 0, o, 0];
    // every corner maps to the same texture point
    let texcoords = vec![0, 0, 0, 0, 0, 0];
    let normals = vec![0, 0, o, 0, 0, o, 0, 0, o];
    let indices = vec![0, 1, 2];
    let mesh = build_mesh_vertices(&positions, &texcoords, &normals, &indices).unwrap();
    assert_eq!(mesh.degenerate_triangles, 1);
    for v in &mesh.vertices {
        assert_eq!(v.tangent, Vec3Fx { x: 0, y: 0, z: 0 });
        assert_eq!(v.bitangent, Vec3Fx { x: 0, y: 0, z: 0 });
    }
}

#[test]
fn tangents_average_over_adjacent_triangles() {
    let o = FX_ONE;
    // two triangles sharing vertices 0 and 2; the second covers the same
    // texture span with a doubled object-space edge, so its tangent is
    // (2,0,0) where the first contributes (1,0,0)
    let positions = vec![0, 0, 0, o, 0, 0, 0, o, 0, 2 * o, 0, 0];
    let texcoords = vec![0, 0, o, 0, 0, o, o, 0];
    let normals = vec![0, 0, o, 0, 0, o, 0, 0, o, 0, 0, o];
    let indices = vec![0, 1, 2, 0, 3, 2];
    let mesh = build_mesh_vertices(&positions, &texcoords, &normals, &indices).unwrap();
    assert_eq!(mesh.degenerate_triangles, 0);
    // the shared vertices average 1 and 2 units; the others keep their own
    assert_eq!(mesh.vertices[0].tangent, Vec3Fx { x: o + o / 2, y: 0, z: 0 });
    assert_eq!(mesh.vertices[2].tangent, Vec3Fx { x: o + o / 2, y: 0, z: 0 });
    assert_eq!(mesh.vertices[1].tangent, Vec3Fx { x: o, y: 0, z: 0 });
    assert_eq!(mesh.vertices[3].tangent, Vec3Fx { x: 2 * o, y: 0, z: 0 });
    // every bitangent is the same unit -y
    for v in &mesh.vertices {
        if v.bitangent != (Vec3Fx { x: 0, y: 0, z: 0 }) {
            assert_eq!(v.bitangent, Vec3Fx { x: 0, y: -o, z: 0 });
        }
    }
}

#[test]
fn structural_faults_are_reported_exactly() {
    let o = FX_ONE;
    let positions = vec![0, 0, 0, o, 0, 0, 0, o, 0];
    let normals = vec![0, 0, o, 0, 0, o, 0, 0, o];
    let good_uv = vec![0, 0, o, 0, 0, o];
    // too few texture coordinates for three vertices
    let short_uv = vec![0, 0, o, 0];
    assert_eq!(
        build_mesh_vertices(&positions, &short_uv, &normals, &vec![0, 1, 2]).unwrap_err(),
        GeometryError::Attributes
    );
    // too few normals
    assert_eq!(
        build_mesh_vertices(&positions, &good_uv, &vec![0, 0, o], &vec![0, 1, 2]).unwrap_err(),
        GeometryError::Attributes
    );
    // a dangling pair of indices is not a triangle
    assert_eq!(
        build_mesh_vertices(&positions, &good_uv, &normals, &vec![0, 1]).unwrap_err(),
        GeometryError::IndexCount
    );
    // an index past the vertex list
    assert_eq!(
        build_mesh_vertices(&positions, &good_uv, &normals, &vec![0, 1, 7]).unwrap_err(),
        GeometryError::IndexRange
    );
    // an empty index list builds plain vertices with a zero basis
    let mesh = build_mesh_vertices(&positions, &good_uv, &normals, &vec![]).unwrap();
    assert_eq!(mesh.vertices.len(), 3);
    assert_eq!(mesh.degenerate_triangles, 0);
    assert_eq!(mesh.vertices[2].tangent, Vec3Fx { x: 0, y: 0, z: 0 });
}
