//! Facts about the meshes of grids: what empty and single-voxel grids give,
//! which faces are culled and which are kept, and that rebuilding without a
//! change gives the same lists.

use vstd::prelude::*;

use crate::chunk::Chunk;
use crate::mesher::{
    cell_index, cell_x, cell_y, cell_z, exposed_slots, face_dx, face_dy, face_dz, in_bounds,
    lemma_cell_coords, lemma_exposed_slots_len, lemma_unexposed_run, mesh_indices, mesh_quads, mesh_vertices,
    opposite_face, slot_exposed, solid_at, CELL_COUNT, FACES,
};

verus! {

/// The exposed slots below `n` are exactly the slots below `n` that are
/// exposed.
proof fn lemma_exposed_slots_contains(cells: Seq<bool>, n: nat, s: int)
    ensures
        exposed_slots(cells, n).contains(s) <==> (0 <= s < n && slot_exposed(cells, s)),
    decreases n,
{
    if n > 0 {
        lemma_exposed_slots_contains(cells, (n - 1) as nat, s);
        let prev = exposed_slots(cells, (n - 1) as nat);
        if slot_exposed(cells, n - 1) {
            assert(prev.push(n - 1).contains(s) <==> (prev.contains(s) || s == n - 1)) by {
                if s == n - 1 {
                    assert(prev.push(n - 1)[prev.len() as int] == s);
                }
                if prev.contains(s) {
                    let k = choose|k: int| 0 <= k < prev.len() && prev[k] == s;
                    assert(prev.push(n - 1)[k] == s);
                }
            }
        }
    }
}

/// A run of slots that are all exposed adds each of them.
proof fn lemma_exposed_run(cells: Seq<bool>, a: nat, b: nat)
    requires
        a <= b,
        forall|s: int| a <= s < b ==> #[trigger] slot_exposed(cells, s),
    ensures
        exposed_slots(cells, b).len() == exposed_slots(cells, a).len() + (b - a),
    decreases b - a,
{
    if a < b {
        lemma_exposed_run(cells, a, (b - 1) as nat);
    }
}

/// Cell coordinates in bounds decode back from their storage position.
proof fn lemma_cell_index_decodes(x: int, y: int, z: int)
    requires
        in_bounds(x, y, z),
    ensures
        0 <= cell_index(x, y, z) < CELL_COUNT,
        cell_x(cell_index(x, y, z)) == x,
        cell_y(cell_index(x, y, z)) == y,
        cell_z(cell_index(x, y, z)) == z,
{
}

/// The face-slot of face `f` of cell `(x, y, z)`.
pub open spec fn face_slot(x: int, y: int, z: int, f: int) -> int {
    6 * cell_index(x, y, z) + f
}

/// A grid with no solid cell has an empty mesh: no vertices and no indices.
pub proof fn lemma_empty_grid_empty_mesh(cells: Seq<bool>)
    requires
        cells.len() == CELL_COUNT,
        forall|i: int| 0 <= i < CELL_COUNT ==> !#[trigger] cells[i],
    ensures
        mesh_vertices(cells).len() == 0,
        mesh_indices(cells).len() == 0,
{
    assert forall|s: int| 0 <= s < FACES * CELL_COUNT implies !#[trigger] slot_exposed(cells, s) by {
        assert(!cells[s / 6]);
    }
    lemma_unexposed_run(cells, 0, (FACES * CELL_COUNT) as nat);
}

/// A grid whose only solid cell is `c` has all six faces of `c` drawn: six
/// quads, so 24 vertices and 36 indices.
pub proof fn lemma_single_voxel_six_quads(cells: Seq<bool>, c: int)
    requires
        cells.len() == CELL_COUNT,
        0 <= c < CELL_COUNT,
        cells[c],
        forall|i: int| 0 <= i < CELL_COUNT && i != c ==> !#[trigger] cells[i],
    ensures
        mesh_quads(cells).len() == 6,
        mesh_vertices(cells).len() == 24,
        mesh_indices(cells).len() == 36,
{
    lemma_cell_coords(c);
    assert forall|s: int| 0 <= s < 6 * c implies !#[trigger] slot_exposed(cells, s) by {
        assert(s / 6 < c);
    }
    lemma_unexposed_run(cells, 0, (6 * c) as nat);
    assert forall|s: int| 6 * c <= s < 6 * c + 6 implies #[trigger] slot_exposed(cells, s) by {
        assert(s / 6 == c);
        let f = s % 6;
        let (x, y, z) = (cell_x(c), cell_y(c), cell_z(c));
        let (nx, ny, nz) = (x + face_dx(f), y + face_dy(f), z + face_dz(f));
        if in_bounds(nx, ny, nz) {
            assert(cell_index(nx, ny, nz) == c + face_dx(f) + 16 * face_dz(f) + 256 * face_dy(f));
            assert(cell_index(nx, ny, nz) != c);
        }
    }
    lemma_exposed_run(cells, (6 * c) as nat, (6 * c + 6) as nat);
    assert forall|s: int| 6 * c + 6 <= s < FACES * CELL_COUNT implies !#[trigger] slot_exposed(
        cells,
        s,
    ) by {
        assert(s / 6 > c);
        assert(s / 6 < CELL_COUNT);
    }
    lemma_unexposed_run(cells, (6 * c + 6) as nat, (FACES * CELL_COUNT) as nat);
}

/// Two adjacent solid cells hide the face between them: neither the face of
/// the first towards the second nor the face of the second towards the
/// first becomes a quad.
pub proof fn lemma_shared_face_culled(cells: Seq<bool>, x: int, y: int, z: int, f: int)
    requires
        cells.len() == CELL_COUNT,
        0 <= f < 6,
        in_bounds(x, y, z),
        in_bounds(x + face_dx(f), y + face_dy(f), z + face_dz(f)),
        solid_at(cells, x, y, z),
        solid_at(cells, x + face_dx(f), y + face_dy(f), z + face_dz(f)),
    ensures
        !mesh_quads(cells).contains(face_slot(x, y, z, f)),
        !mesh_quads(cells).contains(
            face_slot(x + face_dx(f), y + face_dy(f), z + face_dz(f), opposite_face(f)),
        ),
{
    let (nx, ny, nz) = (x + face_dx(f), y + face_dy(f), z + face_dz(f));
    let g = opposite_face(f);
    lemma_cell_index_decodes(x, y, z);
    lemma_cell_index_decodes(nx, ny, nz);
    let n = (FACES * CELL_COUNT) as nat;
    let s1 = face_slot(x, y, z, f);
    let s2 = face_slot(nx, ny, nz, g);
    assert(s1 / 6 == cell_index(x, y, z) && s1 % 6 == f);
    assert(s2 / 6 == cell_index(nx, ny, nz) && s2 % 6 == g);
    assert(nx + face_dx(g) == x && ny + face_dy(g) == y && nz + face_dz(g) == z);
    lemma_exposed_slots_contains(cells, n, s1);
    lemma_exposed_slots_contains(cells, n, s2);
}

/// A solid cell on a side of the chunk has its face on that side drawn:
/// nothing beyond the chunk is consulted, so the side counts as open.
pub proof fn lemma_boundary_face_drawn(cells: Seq<bool>, x: int, y: int, z: int, f: int)
    requires
        cells.len() == CELL_COUNT,
        0 <= f < 6,
        in_bounds(x, y, z),
        !in_bounds(x + face_dx(f), y + face_dy(f), z + face_dz(f)),
        solid_at(cells, x, y, z),
    ensures
        mesh_quads(cells).contains(face_slot(x, y, z, f)),
{
    lemma_cell_index_decodes(x, y, z);
    let s = face_slot(x, y, z, f);
    assert(s / 6 == cell_index(x, y, z) && s % 6 == f);
    lemma_exposed_slots_contains(cells, (FACES * CELL_COUNT) as nat, s);
}

/// The three corners of triangle `t` of an index list are three different
/// vertices.
pub open spec fn triangle_distinct(indices: Seq<u32>, t: int) -> bool {
    &&& indices[3 * t] != indices[3 * t + 1]
    &&& indices[3 * t + 1] != indices[3 * t + 2]
    &&& indices[3 * t] != indices[3 * t + 2]
}

/// Every index of the mesh names one of its vertices, and the three corners
/// of every triangle are three different vertices.
pub proof fn lemma_indices_in_range(cells: Seq<bool>)
    ensures
        forall|k: int|
            0 <= k < mesh_indices(cells).len() ==> #[trigger] mesh_indices(cells)[k]
                < mesh_vertices(cells).len(),
        mesh_indices(cells).len() % 3 == 0,
        forall|t: int|
            0 <= t < mesh_indices(cells).len() / 3 ==> triangle_distinct(mesh_indices(cells), t),
{
    let n = mesh_quads(cells).len();
    lemma_exposed_slots_len(cells, (FACES * CELL_COUNT) as nat);
    assert forall|k: int| 0 <= k < mesh_indices(cells).len() implies #[trigger] mesh_indices(
        cells,
    )[k] < mesh_vertices(cells).len() by {
        assert(k / 6 < n);
    }
    assert forall|t: int| 0 <= t < mesh_indices(cells).len() / 3 implies #[trigger] triangle_distinct(
        mesh_indices(cells),
        t,
    ) by {
        assert((3 * t) / 6 == (3 * t + 1) / 6);
        assert((3 * t) / 6 == (3 * t + 2) / 6);
        assert((3 * t) / 6 < n);
    }
}

/// Two rebuilds with no change to the grid in between hand the mesh factory
/// the same vertex and index lists: the lists are a function of the grid
/// alone, and a rebuild leaves the grid as it was.
pub proof fn lemma_rebuild_idempotent<M>(before: Chunk<M>, after: Chunk<M>)
    requires
        after.cells() == before.cells(),
    ensures
        mesh_vertices(after.cells()) == mesh_vertices(before.cells()),
        mesh_indices(after.cells()) == mesh_indices(before.cells()),
{
}

} // verus!
