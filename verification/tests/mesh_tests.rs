use cube_scene::geometry::Vec3i;
use cube_scene::mesh::CubeMesh;
use cube_scene::mesh::cube_indices;
use cube_scene::mesh::cube_vertices;
use cube_scene::mesh::duplicate_vertices;
use cube_scene::mesh::flat_normals;
use cube_scene::mesh::generate_cube;

fn v(x: i64, y: i64, z: i64) -> Vec3i {
    Vec3i { x, y, z }
}

const EXPECTED_INDICES: [u32; 36] = [
    0, 1, 2, 2, 3, 0, // front
    1, 5, 6, 6, 2, 1, // right
    7, 6, 5, 5, 4, 7, // back
    4, 0, 3, 3, 7, 4, // left
    4, 5, 1, 1, 0, 4, // bottom
    3, 2, 6, 6, 7, 3, // top
];

#[test]
fn unit_cube_vertices() {
    // center at the origin, side length 1: corners at +-1 half units,
    // i.e. +-0.5 in world units
    let vs = cube_vertices(v(0, 0, 0), 1);
    let expected = [
        v(-1, -1, 1),
        v(1, -1, 1),
        v(1, 1, 1),
        v(-1, 1, 1),
        v(-1, -1, -1),
        v(1, -1, -1),
        v(1, 1, -1),
        v(-1, 1, -1),
    ];
    assert_eq!(vs.len(), 8);
    for i in 0..8 {
        assert_eq!(vs[i], expected[i]);
    }
}

#[test]
fn vertices_lie_on_common_sphere() {
    // every corner sits at squared distance 3 * l^2 from the center
    // (l * sqrt(3) in half units, i.e. l * sqrt(3) / 2 in world units),
    // with each axis offset exactly +-l: an axis-aligned cube
    let c = v(10, -20, 30);
    let l: i64 = 5;
    let vs = cube_vertices(c, l);
    for p in &vs {
        let dx = p.x - c.x;
        let dy = p.y - c.y;
        let dz = p.z - c.z;
        assert_eq!(dx * dx + dy * dy + dz * dz, 3 * l * l);
        assert_eq!(dx.abs(), l);
        assert_eq!(dy.abs(), l);
        assert_eq!(dz.abs(), l);
    }
}

#[test]
fn index_list_is_fixed() {
    let idx = cube_indices();
    assert_eq!(idx.len(), 36);
    for i in 0..36 {
        assert_eq!(idx[i], EXPECTED_INDICES[i]);
    }
}

#[test]
fn indices_reference_the_eight_corners() {
    let idx = cube_indices();
    for &i in idx.iter() {
        assert!(i < 8);
    }
}

#[test]
fn duplication_copies_by_index() {
    let positions = vec![v(1, 2, 3), v(4, 5, 6), v(7, 8, 9)];
    let indices: Vec<u32> = vec![2, 0, 1, 1, 2, 0];
    let dup = duplicate_vertices(&positions, &indices);
    assert_eq!(dup.len(), 6);
    assert_eq!(dup[0], v(7, 8, 9));
    assert_eq!(dup[1], v(1, 2, 3));
    assert_eq!(dup[2], v(4, 5, 6));
    assert_eq!(dup[3], v(4, 5, 6));
    assert_eq!(dup[4], v(7, 8, 9));
    assert_eq!(dup[5], v(1, 2, 3));
}

#[test]
fn generated_cube_duplicates_vertices() {
    let c = v(0, 0, 0);
    let mesh: CubeMesh = generate_cube(c, 1);
    let vs = cube_vertices(c, 1);
    assert_eq!(mesh.positions.len(), 36);
    for i in 0..36 {
        assert_eq!(mesh.positions[i], vs[EXPECTED_INDICES[i] as usize]);
    }
}

#[test]
fn generated_cube_flat_normals() {
    // one face-constant unit normal per vertex, in face order:
    // front, right, back, left, bottom, top
    let mesh = generate_cube(v(0, 0, 0), 1);
    let face_normals = [
        v(0, 0, 1),
        v(1, 0, 0),
        v(0, 0, -1),
        v(-1, 0, 0),
        v(0, -1, 0),
        v(0, 1, 0),
    ];
    assert_eq!(mesh.normals.len(), 36);
    for i in 0..36 {
        assert_eq!(mesh.normals[i], face_normals[i / 6]);
    }
}

#[test]
fn generated_triangles_wind_outward() {
    // the cross product of each triangle is 4 * l^2 times the outward axis
    let c = v(0, 4, 0);
    let l: i64 = 1;
    let mesh = generate_cube(c, l);
    let face_normals = [
        v(0, 0, 1),
        v(1, 0, 0),
        v(0, 0, -1),
        v(-1, 0, 0),
        v(0, -1, 0),
        v(0, 1, 0),
    ];
    for t in 0..12 {
        let a = mesh.positions[3 * t];
        let b = mesh.positions[3 * t + 1];
        let d = mesh.positions[3 * t + 2];
        let cx = (b.y - a.y) * (d.z - a.z) - (b.z - a.z) * (d.y - a.y);
        let cy = (b.z - a.z) * (d.x - a.x) - (b.x - a.x) * (d.z - a.z);
        let cz = (b.x - a.x) * (d.y - a.y) - (b.y - a.y) * (d.x - a.x);
        let n = face_normals[t / 2];
        assert_eq!(cx, 4 * l * l * n.x);
        assert_eq!(cy, 4 * l * l * n.y);
        assert_eq!(cz, 4 * l * l * n.z);
    }
}

#[test]
fn generated_triangles_have_distinct_corners() {
    let mesh = generate_cube(v(7, -3, 2), 4);
    for t in 0..12 {
        let a = mesh.positions[3 * t];
        let b = mesh.positions[3 * t + 1];
        let d = mesh.positions[3 * t + 2];
        assert_ne!(a, b);
        assert_ne!(b, d);
        assert_ne!(a, d);
    }
}

#[test]
fn second_demo_cube_sits_two_units_up() {
    // the demo's second cube: world center (0, 2, 0) is (0, 4, 0) in half
    // units; its lowest corners are at world y 1.5, highest at 2.5
    let mesh = generate_cube(v(0, 4, 0), 1);
    let mut min_y = i64::MAX;
    let mut max_y = i64::MIN;
    for p in &mesh.positions {
        min_y = min_y.min(p.y);
        max_y = max_y.max(p.y);
    }
    assert_eq!(min_y, 3);
    assert_eq!(max_y, 5);
}

#[test]
fn flat_normals_reject_a_slanted_triangle() {
    // a triangle whose cross product points along no axis has no exact
    // integer unit normal
    let positions = vec![v(0, 0, 0), v(1, 0, 0), v(0, 1, 1)];
    assert!(flat_normals(&positions).is_none());
}

#[test]
fn flat_normals_of_a_degenerate_cube_are_zero() {
    // side length 0: every triangle collapses, every cross product is zero
    let mesh = generate_cube(v(2, 2, 2), 0);
    for p in &mesh.positions {
        assert_eq!(*p, v(2, 2, 2));
    }
    for n in &mesh.normals {
        assert_eq!(*n, v(0, 0, 0));
    }
}
