use voxel_chunk::{
    generate_hash, BoundsError, Chunk, ChunkVertex, MeshAllocationFailed, MeshFactory,
    ObjectClassed,
};

#[derive(Debug, PartialEq)]
struct RecordedMesh {
    vertices: Vec<ChunkVertex>,
    indices: Vec<u32>,
}

struct Recorder;

impl MeshFactory<RecordedMesh> for Recorder {
    fn create_mesh(
        &self,
        vertices: &[ChunkVertex],
        indices: &[u32],
    ) -> Result<RecordedMesh, MeshAllocationFailed> {
        Ok(RecordedMesh { vertices: vertices.to_vec(), indices: indices.to_vec() })
    }
}

struct Exhausted;

impl MeshFactory<RecordedMesh> for Exhausted {
    fn create_mesh(
        &self,
        _vertices: &[ChunkVertex],
        _indices: &[u32],
    ) -> Result<RecordedMesh, MeshAllocationFailed> {
        Err(MeshAllocationFailed)
    }
}

fn vtx(x: u32, y: u32, z: u32, u: u32, v: u32) -> ChunkVertex {
    ChunkVertex { x, y, z, u, v }
}

fn rebuilt(chunk: &mut Chunk<RecordedMesh>) -> &RecordedMesh {
    chunk.rebuild_mesh(&Recorder).unwrap();
    chunk.mesh().unwrap()
}

fn quad_indices(quads: u32) -> Vec<u32> {
    let mut out = Vec::new();
    for q in 0..quads {
        let v = 4 * q;
        out.extend_from_slice(&[v, v + 1, v + 2, v + 2, v + 3, v]);
    }
    out
}

#[test]
fn new_chunk_is_empty_and_has_no_mesh() {
    let chunk: Chunk<RecordedMesh> = Chunk::new(3, -7);
    assert_eq!(chunk.x(), 3);
    assert_eq!(chunk.z(), -7);
    assert!(chunk.mesh().is_none());
    assert_eq!(chunk.block(0, 0, 0), Ok(false));
    assert_eq!(chunk.block(15, 127, 15), Ok(false));
}

#[test]
fn set_block_then_block_reads_back() {
    let mut chunk: Chunk<RecordedMesh> = Chunk::new(0, 0);
    assert_eq!(chunk.set_block(3, 100, 9, true), Ok(()));
    assert_eq!(chunk.block(3, 100, 9), Ok(true));
    assert_eq!(chunk.block(9, 100, 3), Ok(false));
    assert_eq!(chunk.set_block(3, 100, 9, false), Ok(()));
    assert_eq!(chunk.block(3, 100, 9), Ok(false));
}

#[test]
fn out_of_bounds_coordinates_are_rejected() {
    let mut chunk: Chunk<RecordedMesh> = Chunk::new(0, 0);
    assert_eq!(chunk.block(16, 0, 0), Err(BoundsError { x: 16, y: 0, z: 0 }));
    assert_eq!(chunk.block(0, 128, 0), Err(BoundsError { x: 0, y: 128, z: 0 }));
    assert_eq!(chunk.block(0, 0, 16), Err(BoundsError { x: 0, y: 0, z: 16 }));
    assert_eq!(chunk.set_block(16, 0, 0, true), Err(BoundsError { x: 16, y: 0, z: 0 }));
    // An x past the edge must not wrap into the next row.
    chunk.set_block(0, 0, 1, true).unwrap();
    assert_eq!(chunk.block(16, 0, 0), Err(BoundsError { x: 16, y: 0, z: 0 }));
    assert_eq!(chunk.block(0, 0, 1), Ok(true));
}

#[test]
fn set_block_does_not_touch_the_mesh() {
    let mut chunk: Chunk<RecordedMesh> = Chunk::new(0, 0);
    chunk.set_block(1, 1, 1, true).unwrap();
    assert_eq!(rebuilt(&mut chunk).vertices.len(), 24);
    chunk.set_block(1, 1, 1, false).unwrap();
    assert_eq!(chunk.mesh().unwrap().vertices.len(), 24);
    assert_eq!(rebuilt(&mut chunk).vertices.len(), 0);
}

#[test]
fn empty_chunk_builds_empty_mesh() {
    let mut chunk: Chunk<RecordedMesh> = Chunk::new(0, 0);
    let mesh = rebuilt(&mut chunk);
    assert!(mesh.vertices.is_empty());
    assert!(mesh.indices.is_empty());
}

#[test]
fn single_interior_voxel_has_six_quads() {
    let mut chunk: Chunk<RecordedMesh> = Chunk::new(0, 0);
    chunk.set_block(7, 64, 8, true).unwrap();
    let mesh = rebuilt(&mut chunk);
    assert_eq!(mesh.vertices.len(), 24);
    assert_eq!(mesh.indices.len(), 36);
    assert_eq!(mesh.indices, quad_indices(6));
}

#[test]
fn single_corner_voxel_has_six_quads() {
    let mut chunk: Chunk<RecordedMesh> = Chunk::new(0, 0);
    chunk.set_block(15, 127, 15, true).unwrap();
    let mesh = rebuilt(&mut chunk);
    assert_eq!(mesh.vertices.len(), 24);
    assert_eq!(mesh.indices.len(), 36);
}

#[test]
fn unit_cube_at_origin() {
    let mut chunk: Chunk<RecordedMesh> = Chunk::new(0, 0);
    chunk.set_block(0, 0, 0, true).unwrap();
    let mesh = rebuilt(&mut chunk);
    let expected = vec![
        // -X
        vtx(0, 0, 0, 0, 1), vtx(0, 1, 0, 1, 1), vtx(0, 1, 1, 1, 0), vtx(0, 0, 1, 0, 0),
        // +X
        vtx(1, 0, 0, 0, 1), vtx(1, 0, 1, 1, 1), vtx(1, 1, 1, 1, 0), vtx(1, 1, 0, 0, 0),
        // -Y
        vtx(0, 0, 0, 0, 1), vtx(0, 0, 1, 1, 1), vtx(1, 0, 1, 1, 0), vtx(1, 0, 0, 0, 0),
        // +Y
        vtx(0, 1, 0, 0, 1), vtx(1, 1, 0, 1, 1), vtx(1, 1, 1, 1, 0), vtx(0, 1, 1, 0, 0),
        // -Z
        vtx(0, 0, 0, 0, 1), vtx(1, 0, 0, 1, 1), vtx(1, 1, 0, 1, 0), vtx(0, 1, 0, 0, 0),
        // +Z
        vtx(0, 0, 1, 0, 1), vtx(0, 1, 1, 1, 1), vtx(1, 1, 1, 1, 0), vtx(1, 0, 1, 0, 0),
    ];
    assert_eq!(mesh.vertices, expected);
    assert_eq!(mesh.indices, quad_indices(6));
    for v in &mesh.vertices {
        assert!(v.x <= 1 && v.y <= 1 && v.z <= 1);
    }
    for quad in mesh.vertices.chunks(4) {
        let uvs: Vec<(u32, u32)> = quad.iter().map(|v| (v.u, v.v)).collect();
        assert_eq!(uvs, vec![(0, 1), (1, 1), (1, 0), (0, 0)]);
    }
}

#[test]
fn adjacent_voxels_cull_shared_face() {
    let mut chunk: Chunk<RecordedMesh> = Chunk::new(0, 0);
    chunk.set_block(0, 0, 0, true).unwrap();
    chunk.set_block(1, 0, 0, true).unwrap();
    let mesh = rebuilt(&mut chunk);
    assert_eq!(mesh.vertices.len(), 40);
    assert_eq!(mesh.indices.len(), 60);
    // No quad lies wholly in the plane x = 1 between the two cells.
    for quad in mesh.vertices.chunks(4) {
        assert!(!quad.iter().all(|v| v.x == 1));
    }
}

#[test]
fn adjacent_voxels_along_y_and_z_cull_shared_faces() {
    let mut chunk: Chunk<RecordedMesh> = Chunk::new(0, 0);
    chunk.set_block(4, 10, 4, true).unwrap();
    chunk.set_block(4, 11, 4, true).unwrap();
    chunk.set_block(4, 10, 5, true).unwrap();
    let mesh = rebuilt(&mut chunk);
    // 18 faces minus two shared pairs.
    assert_eq!(mesh.vertices.len(), 4 * 14);
    assert_eq!(mesh.indices.len(), 6 * 14);
}

#[test]
fn boundary_face_is_emitted() {
    let mut chunk: Chunk<RecordedMesh> = Chunk::new(5, 5);
    chunk.set_block(0, 5, 5, true).unwrap();
    let mesh = rebuilt(&mut chunk);
    assert_eq!(mesh.vertices.len(), 24);
    assert_eq!(
        mesh.vertices[0..4].to_vec(),
        vec![vtx(0, 5, 5, 0, 1), vtx(0, 6, 5, 1, 1), vtx(0, 6, 6, 1, 0), vtx(0, 5, 6, 0, 0)]
    );
}

#[test]
fn boundary_faces_are_emitted_on_every_side() {
    let mut chunk: Chunk<RecordedMesh> = Chunk::new(0, 0);
    for x in 0..16 {
        for z in 0..16 {
            for y in 0..128 {
                chunk.set_block(x, y, z, true).unwrap();
            }
        }
    }
    let mesh = rebuilt(&mut chunk);
    let faces = 2 * (16 * 128) + 2 * (16 * 16) + 2 * (16 * 128);
    assert_eq!(mesh.vertices.len(), 4 * faces);
    assert_eq!(mesh.indices.len(), 6 * faces);
}

#[test]
fn indices_name_vertices_and_triangles_are_proper() {
    let mut chunk: Chunk<RecordedMesh> = Chunk::new(0, 0);
    let mut seed: u32 = 12345;
    for _ in 0..2000 {
        seed = seed.wrapping_mul(1103515245).wrapping_add(12345);
        let x = (seed >> 4) as usize % 16;
        let y = (seed >> 8) as usize % 128;
        let z = (seed >> 16) as usize % 16;
        chunk.set_block(x, y, z, true).unwrap();
    }
    let mesh = rebuilt(&mut chunk);
    assert!(!mesh.indices.is_empty());
    assert_eq!(mesh.indices.len() % 3, 0);
    let n = mesh.vertices.len() as u32;
    for &i in &mesh.indices {
        assert!(i < n);
    }
    for t in mesh.indices.chunks(3) {
        assert!(t[0] != t[1] && t[1] != t[2] && t[0] != t[2]);
    }
}

#[test]
fn rebuilding_twice_gives_identical_lists() {
    let mut chunk: Chunk<RecordedMesh> = Chunk::new(0, 0);
    chunk.set_block(2, 3, 4, true).unwrap();
    chunk.set_block(2, 4, 4, true).unwrap();
    chunk.set_block(9, 0, 15, true).unwrap();
    let first = chunk.build_mesh();
    chunk.rebuild_mesh(&Recorder).unwrap();
    let once = (chunk.mesh().unwrap().vertices.clone(), chunk.mesh().unwrap().indices.clone());
    chunk.rebuild_mesh(&Recorder).unwrap();
    let twice = chunk.mesh().unwrap();
    assert_eq!(once.0, twice.vertices);
    assert_eq!(once.1, twice.indices);
    assert_eq!(first, once);
}

#[test]
fn failed_allocation_keeps_previous_mesh() {
    let mut chunk: Chunk<RecordedMesh> = Chunk::new(0, 0);
    assert_eq!(chunk.rebuild_mesh(&Exhausted), Err(MeshAllocationFailed));
    assert!(chunk.mesh().is_none());
    chunk.set_block(0, 0, 0, true).unwrap();
    assert_eq!(rebuilt(&mut chunk).vertices.len(), 24);
    chunk.set_block(1, 0, 0, true).unwrap();
    assert_eq!(chunk.rebuild_mesh(&Exhausted), Err(MeshAllocationFailed));
    assert_eq!(chunk.mesh().unwrap().vertices.len(), 24);
    assert_eq!(chunk.block(1, 0, 0), Ok(true));
}

#[test]
fn fnv1a_known_values() {
    assert_eq!(generate_hash(""), 0x811c9dc5);
    assert_eq!(generate_hash("a"), 0xe40c292c);
    assert_eq!(generate_hash("foobar"), 0xbf9cf968);
}

struct Player;

impl ObjectClassed for Player {
    const TYPE_ID: u32 = 0x1234;
}

#[test]
fn object_class_type_id_is_available() {
    assert_eq!(<Player as ObjectClassed>::TYPE_ID, 0x1234);
    assert_ne!(generate_hash("Player"), generate_hash("Particle"));
}
