//! The face-culling mesher: occupancy grid in, quads out.
//!
//! Cells are visited in storage order (`x` fastest, then `z`, then `y`), and
//! for each solid cell the six faces in the order -X, +X, -Y, +Y, -Z, +Z. A
//! face becomes a quad when the neighbouring cell in its direction is empty or
//! lies outside the chunk. Each face-slot `6 * cell + face` thus has a fixed
//! place, and the mesh is the list of exposed slots in increasing order.

use vstd::prelude::*;

verus! {

/// Cells along X.
pub const CHUNK_WIDTH: usize = 16;

/// Cells along Y.
pub const CHUNK_HEIGHT: usize = 128;

/// Cells along Z.
pub const CHUNK_DEPTH: usize = 16;

/// Cells in one chunk: 16 * 128 * 16.
pub const CELL_COUNT: usize = 32768;

/// Faces of a cell.
pub const FACES: usize = 6;

/// A mesh vertex in chunk-local space. The position is a lattice point (one
/// unit is one voxel edge) and the texture coordinate is a corner of the unit
/// square, so both are held as integers.
#[derive(Clone, Copy, Debug, PartialEq, Eq, Structural)]
pub struct ChunkVertex {
    pub x: u32,
    pub y: u32,
    pub z: u32,
    pub u: u32,
    pub v: u32,
}

/// The mesh factory could not allocate the buffers for a mesh.
#[derive(Clone, Copy, Debug, PartialEq, Eq, Structural)]
pub struct MeshAllocationFailed;

pub open spec fn in_bounds(x: int, y: int, z: int) -> bool {
    0 <= x < CHUNK_WIDTH && 0 <= y < CHUNK_HEIGHT && 0 <= z < CHUNK_DEPTH
}

/// The storage position of cell `(x, y, z)`.
pub open spec fn cell_index(x: int, y: int, z: int) -> int {
    (y * 16 + z) * 16 + x
}

pub open spec fn cell_x(i: int) -> int {
    i % 16
}

pub open spec fn cell_z(i: int) -> int {
    (i / 16) % 16
}

pub open spec fn cell_y(i: int) -> int {
    i / 256
}

/// Whether `(x, y, z)` is a solid cell of the grid; anything outside the
/// chunk counts as empty.
pub open spec fn solid_at(cells: Seq<bool>, x: int, y: int, z: int) -> bool {
    in_bounds(x, y, z) && cells[cell_index(x, y, z)]
}

/// Step along X of face `f` (0: -X, 1: +X, 2: -Y, 3: +Y, 4: -Z, 5: +Z).
pub open spec fn face_dx(f: int) -> int {
    if f == 0 { -1 } else if f == 1 { 1 } else { 0 }
}

pub open spec fn face_dy(f: int) -> int {
    if f == 2 { -1 } else if f == 3 { 1 } else { 0 }
}

pub open spec fn face_dz(f: int) -> int {
    if f == 4 { -1 } else if f == 5 { 1 } else { 0 }
}

/// The face pointing the other way.
pub open spec fn opposite_face(f: int) -> int {
    if f % 2 == 0 { f + 1 } else { f - 1 }
}

/// Face `f` of cell `i` is drawn: the cell is solid and its neighbour across
/// that face is not.
pub open spec fn face_exposed(cells: Seq<bool>, i: int, f: int) -> bool {
    let (x, y, z) = (cell_x(i), cell_y(i), cell_z(i));
    cells[i] && !solid_at(cells, x + face_dx(f), y + face_dy(f), z + face_dz(f))
}

pub open spec fn slot_exposed(cells: Seq<bool>, s: int) -> bool {
    face_exposed(cells, s / 6, s % 6)
}

/// The exposed face-slots below `n`, in increasing order.
pub open spec fn exposed_slots(cells: Seq<bool>, n: nat) -> Seq<int>
    decreases n,
{
    if n == 0 {
        Seq::empty()
    } else {
        let prev = exposed_slots(cells, (n - 1) as nat);
        if slot_exposed(cells, n - 1) {
            prev.push(n - 1)
        } else {
            prev
        }
    }
}

/// The quads of the mesh of a grid, one face-slot each.
pub open spec fn mesh_quads(cells: Seq<bool>) -> Seq<int> {
    exposed_slots(cells, (FACES * CELL_COUNT) as nat)
}

/// Corner `j` of face `f` of the unit cube, as 0/1 offsets along X, Y, Z.
pub open spec fn corner_offset(f: int, j: int) -> (int, int, int) {
    if f == 0 {
        if j == 0 { (0, 0, 0) } else if j == 1 { (0, 1, 0) } else if j == 2 { (0, 1, 1) } else { (0, 0, 1) }
    } else if f == 1 {
        if j == 0 { (1, 0, 0) } else if j == 1 { (1, 0, 1) } else if j == 2 { (1, 1, 1) } else { (1, 1, 0) }
    } else if f == 2 {
        if j == 0 { (0, 0, 0) } else if j == 1 { (0, 0, 1) } else if j == 2 { (1, 0, 1) } else { (1, 0, 0) }
    } else if f == 3 {
        if j == 0 { (0, 1, 0) } else if j == 1 { (1, 1, 0) } else if j == 2 { (1, 1, 1) } else { (0, 1, 1) }
    } else if f == 4 {
        if j == 0 { (0, 0, 0) } else if j == 1 { (1, 0, 0) } else if j == 2 { (1, 1, 0) } else { (0, 1, 0) }
    } else {
        if j == 0 { (0, 0, 1) } else if j == 1 { (0, 1, 1) } else if j == 2 { (1, 1, 1) } else { (1, 0, 1) }
    }
}

/// Texture coordinate of corner `j` of every quad: (0,1), (1,1), (1,0), (0,0).
pub open spec fn corner_uv(j: int) -> (int, int) {
    if j == 0 { (0, 1) } else if j == 1 { (1, 1) } else if j == 2 { (1, 0) } else { (0, 0) }
}

/// Vertex `j` of the quad of face-slot `s`.
pub open spec fn slot_vertex(s: int, j: int) -> ChunkVertex {
    let i = s / 6;
    let (ox, oy, oz) = corner_offset(s % 6, j);
    let (u, v) = corner_uv(j);
    ChunkVertex {
        x: (cell_x(i) + ox) as u32,
        y: (cell_y(i) + oy) as u32,
        z: (cell_z(i) + oz) as u32,
        u: u as u32,
        v: v as u32,
    }
}

/// Which of its quad's four vertices the `t`-th index of a quad names: the
/// triangles (0, 1, 2) and (2, 3, 0).
pub open spec fn quad_corner(t: int) -> int {
    if t == 0 { 0 } else if t == 1 { 1 } else if t == 2 { 2 } else if t == 3 { 2 } else if t == 4 { 3 } else { 0 }
}

/// Four vertices per quad, in quad order.
pub open spec fn quad_vertices(quads: Seq<int>) -> Seq<ChunkVertex> {
    Seq::new(4 * quads.len(), |k: int| slot_vertex(quads[k / 4], k % 4))
}

/// Six indices per quad; quad `q` owns vertices `4q .. 4q + 4`.
pub open spec fn quad_indices(n: nat) -> Seq<u32> {
    Seq::new(6 * n, |k: int| (4 * (k / 6) + quad_corner(k % 6)) as u32)
}

/// The vertex list of the mesh of a grid.
pub open spec fn mesh_vertices(cells: Seq<bool>) -> Seq<ChunkVertex> {
    quad_vertices(mesh_quads(cells))
}

/// The index list of the mesh of a grid.
pub open spec fn mesh_indices(cells: Seq<bool>) -> Seq<u32> {
    quad_indices(mesh_quads(cells).len())
}

/// There are at most `n` exposed slots below `n`.
pub(crate) proof fn lemma_exposed_slots_len(cells: Seq<bool>, n: nat)
    ensures
        exposed_slots(cells, n).len() <= n,
    decreases n,
{
    if n > 0 {
        lemma_exposed_slots_len(cells, (n - 1) as nat);
    }
}

/// A run of slots none of which is exposed adds nothing.
pub(crate) proof fn lemma_unexposed_run(cells: Seq<bool>, a: nat, b: nat)
    requires
        a <= b,
        forall|s: int| a <= s < b ==> !#[trigger] slot_exposed(cells, s),
    ensures
        exposed_slots(cells, b) == exposed_slots(cells, a),
    decreases b - a,
{
    if a < b {
        lemma_unexposed_run(cells, a, (b - 1) as nat);
    }
}

/// Storage position `i` decodes to an in-bounds cell that encodes back to `i`.
pub(crate) proof fn lemma_cell_coords(i: int)
    requires
        0 <= i < CELL_COUNT,
    ensures
        in_bounds(cell_x(i), cell_y(i), cell_z(i)),
        cell_index(cell_x(i), cell_y(i), cell_z(i)) == i,
{
}

/// An empty cell adds none of its six slots.
proof fn lemma_empty_cell(cells: Seq<bool>, i: int)
    requires
        0 <= i < CELL_COUNT,
        cells.len() == CELL_COUNT,
        !cells[i],
    ensures
        exposed_slots(cells, (6 * i + 6) as nat) == exposed_slots(cells, (6 * i) as nat),
{
    assert forall|f: int| 0 <= f < 6 implies !#[trigger] slot_exposed(cells, 6 * i + f) by {
        assert((6 * i + f) / 6 == i);
    }
    lemma_unexposed_run(cells, (6 * i) as nat, (6 * i + 6) as nat);
}

/// Whether the neighbour of cell `i` across face `f` is a solid cell.
fn neighbor_solid(cells: &[bool; CELL_COUNT], i: usize, f: usize) -> (r: bool)
    requires
        cells@.len() == CELL_COUNT,
        i < CELL_COUNT,
        f < FACES,
    ensures
        r == solid_at(
            cells@,
            cell_x(i as int) + face_dx(f as int),
            cell_y(i as int) + face_dy(f as int),
            cell_z(i as int) + face_dz(f as int),
        ),
{
    proof {
        lemma_cell_coords(i as int);
    }
    let x = i % 16;
    let z = (i / 16) % 16;
    let y = i / 256;
    if f == 0 {
        x > 0 && cells[i - 1]
    } else if f == 1 {
        x < 15 && cells[i + 1]
    } else if f == 2 {
        y > 0 && cells[i - 256]
    } else if f == 3 {
        y < 127 && cells[i + 256]
    } else if f == 4 {
        z > 0 && cells[i - 16]
    } else {
        z < 15 && cells[i + 16]
    }
}

/// Corner `j` of face `f` of the unit cube.
fn corner_offset_of(f: usize, j: usize) -> (r: (u32, u32, u32))
    ensures
        (r.0 as int, r.1 as int, r.2 as int) == corner_offset(f as int, j as int),
{
    if f == 0 {
        if j == 0 { (0, 0, 0) } else if j == 1 { (0, 1, 0) } else if j == 2 { (0, 1, 1) } else { (0, 0, 1) }
    } else if f == 1 {
        if j == 0 { (1, 0, 0) } else if j == 1 { (1, 0, 1) } else if j == 2 { (1, 1, 1) } else { (1, 1, 0) }
    } else if f == 2 {
        if j == 0 { (0, 0, 0) } else if j == 1 { (0, 0, 1) } else if j == 2 { (1, 0, 1) } else { (1, 0, 0) }
    } else if f == 3 {
        if j == 0 { (0, 1, 0) } else if j == 1 { (1, 1, 0) } else if j == 2 { (1, 1, 1) } else { (0, 1, 1) }
    } else if f == 4 {
        if j == 0 { (0, 0, 0) } else if j == 1 { (1, 0, 0) } else if j == 2 { (1, 1, 0) } else { (0, 1, 0) }
    } else {
        if j == 0 { (0, 0, 1) } else if j == 1 { (0, 1, 1) } else if j == 2 { (1, 1, 1) } else { (1, 0, 1) }
    }
}

/// Vertex `j` of the quad of face `f` of cell `i`.
fn quad_vertex(i: usize, f: usize, j: usize) -> (r: ChunkVertex)
    requires
        i < CELL_COUNT,
        f < FACES,
        j < 4,
    ensures
        r == slot_vertex(6 * i + f, j as int),
{
    proof {
        lemma_cell_coords(i as int);
        assert((6 * i + f) / 6 == i);
        assert((6 * i + f) % 6 == f);
    }
    let (ox, oy, oz) = corner_offset_of(f, j);
    let (u, v): (u32, u32) = if j == 0 {
        (0, 1)
    } else if j == 1 {
        (1, 1)
    } else if j == 2 {
        (1, 0)
    } else {
        (0, 0)
    };
    let x = (i % 16) as u32;
    let z = ((i / 16) % 16) as u32;
    let y = (i / 256) as u32;
    ChunkVertex { x: x + ox, y: y + oy, z: z + oz, u, v }
}

/// Appends the quad of face `f` of cell `i`: four vertices and the six
/// indices of its two triangles.
fn push_quad(
    vertices: &mut Vec<ChunkVertex>,
    indices: &mut Vec<u32>,
    i: usize,
    f: usize,
    Ghost(quads): Ghost<Seq<int>>,
)
    requires
        i < CELL_COUNT,
        f < FACES,
        quads.len() < FACES * CELL_COUNT,
        old(vertices)@ == quad_vertices(quads),
        old(indices)@ == quad_indices(quads.len()),
    ensures
        final(vertices)@ == quad_vertices(quads.push(6 * i + f)),
        final(indices)@ == quad_indices(quads.len() + 1),
{
    let ghost s = 6 * i + f;
    let ghost next = quads.push(s);
    let base = vertices.len() as u32;
    vertices.push(quad_vertex(i, f, 0));
    vertices.push(quad_vertex(i, f, 1));
    vertices.push(quad_vertex(i, f, 2));
    vertices.push(quad_vertex(i, f, 3));
    assert forall|k: int| 0 <= k < 4 * next.len() implies vertices@[k] == #[trigger] slot_vertex(
        next[k / 4],
        k % 4,
    ) by {
        if k < 4 * quads.len() {
            assert(k / 4 < quads.len());
        } else {
            assert(k / 4 == quads.len());
        }
    }
    assert(vertices@ =~= quad_vertices(next));
    indices.push(base);
    indices.push(base + 1);
    indices.push(base + 2);
    indices.push(base + 2);
    indices.push(base + 3);
    indices.push(base);
    assert(indices@ =~= quad_indices(quads.len() + 1));
}

/// Builds the mesh of a grid: for each solid cell, one quad per face whose
/// neighbour is empty or outside the chunk.
pub fn build_mesh(cells: &[bool; CELL_COUNT]) -> (r: (Vec<ChunkVertex>, Vec<u32>))
    ensures
        r.0@ == mesh_vertices(cells@),
        r.1@ == mesh_indices(cells@),
{
    proof {
        broadcast use vstd::array::array_len_matches_n;
    }
    let mut vertices: Vec<ChunkVertex> = Vec::new();
    let mut indices: Vec<u32> = Vec::new();
    assert(vertices@ =~= quad_vertices(exposed_slots(cells@, 0)));
    assert(indices@ =~= quad_indices(0));
    let mut i: usize = 0;
    while i < CELL_COUNT
        invariant
            i <= CELL_COUNT,
            cells@.len() == CELL_COUNT,
            vertices@ == quad_vertices(exposed_slots(cells@, (6 * i) as nat)),
            indices@ == quad_indices(exposed_slots(cells@, (6 * i) as nat).len()),
        decreases CELL_COUNT - i,
    {
        if cells[i] {
            let mut f: usize = 0;
            while f < FACES
                invariant
                    i < CELL_COUNT,
                    f <= FACES,
                    cells@.len() == CELL_COUNT,
                    cells@[i as int],
                    vertices@ == quad_vertices(exposed_slots(cells@, (6 * i + f) as nat)),
                    indices@ == quad_indices(exposed_slots(cells@, (6 * i + f) as nat).len()),
                decreases FACES - f,
            {
                let ghost quads = exposed_slots(cells@, (6 * i + f) as nat);
                proof {
                    lemma_exposed_slots_len(cells@, (6 * i + f) as nat);
                    assert((6 * i + f) / 6 == i);
                    assert((6 * i + f) % 6 == f);
                }
                if !neighbor_solid(cells, i, f) {
                    push_quad(&mut vertices, &mut indices, i, f, Ghost(quads));
                }
                f += 1;
            }
        } else {
            proof {
                lemma_empty_cell(cells@, i as int);
            }
        }
        i += 1;
    }
    (vertices, indices)
}

} // verus!
