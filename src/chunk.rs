//! A chunk of the voxel world: its occupancy grid, its place in the world and
//! the mesh last built from it.

use vstd::prelude::*;

use crate::mesher::{
    build_mesh, cell_index, in_bounds, mesh_indices, mesh_vertices, ChunkVertex,
    MeshAllocationFailed, CELL_COUNT, CHUNK_DEPTH, CHUNK_HEIGHT, CHUNK_WIDTH,
};

verus! {

/// A cell coordinate outside `[0, 16) x [0, 128) x [0, 16)`.
#[derive(Clone, Copy, Debug, PartialEq, Eq, Structural)]
pub struct BoundsError {
    pub x: usize,
    pub y: usize,
    pub z: usize,
}

/// Turns vertex and index lists into a drawable mesh handle, for instance by
/// uploading them to GPU buffers.
pub trait MeshFactory<M> {
    /// Creates a mesh from `vertices` and `indices`, where every index names
    /// one of the vertices, or reports that it could not allocate one.
    fn create_mesh(&self, vertices: &[ChunkVertex], indices: &[u32]) -> Result<
        M,
        MeshAllocationFailed,
    >
        requires
            forall|k: int| 0 <= k < indices@.len() ==> indices@[k] < vertices@.len(),
    ;
}

/// One 16 x 128 x 16 block of voxels at chunk coordinates `(x, z)`, with the
/// mesh last built from it, if any.
pub struct Chunk<M> {
    blocks: [bool; CELL_COUNT],
    mesh: Option<M>,
    x: i32,
    z: i32,
}

impl<M> Chunk<M> {
    /// The occupancy of every cell, in storage order.
    pub closed spec fn cells(self) -> Seq<bool> {
        self.blocks@
    }

    /// A chunk holds exactly one entry per cell, so the facts about grids of
    /// that size apply to its cells.
    pub proof fn lemma_cells_len(self)
        ensures
            self.cells().len() == CELL_COUNT,
    {
    }

    /// The mesh installed by the last successful rebuild.
    pub closed spec fn current_mesh(self) -> Option<M> {
        self.mesh
    }

    pub closed spec fn chunk_x(self) -> i32 {
        self.x
    }

    pub closed spec fn chunk_z(self) -> i32 {
        self.z
    }

    /// Whether the in-bounds cell `(x, y, z)` is solid.
    pub open spec fn solid(self, x: int, y: int, z: int) -> bool {
        self.cells()[cell_index(x, y, z)]
    }

    /// An all-empty chunk at chunk coordinates `(x, z)`, with no mesh.
    pub fn new(x: i32, z: i32) -> (r: Chunk<M>)
        ensures
            r.cells() == Seq::new(CELL_COUNT as nat, |i: int| false),
            r.current_mesh() is None,
            r.chunk_x() == x,
            r.chunk_z() == z,
    {
        let blocks = [false; CELL_COUNT];
        assert(blocks@ =~= Seq::new(CELL_COUNT as nat, |i: int| false));
        Chunk { blocks, mesh: None, x, z }
    }

    /// The chunk coordinate along X.
    pub fn x(&self) -> (r: i32)
        ensures
            r == self.chunk_x(),
    {
        self.x
    }

    /// The chunk coordinate along Z.
    pub fn z(&self) -> (r: i32)
        ensures
            r == self.chunk_z(),
    {
        self.z
    }

    /// Whether cell `(x, y, z)` is solid, or an error for a coordinate
    /// outside the chunk.
    pub fn block(&self, x: usize, y: usize, z: usize) -> (r: Result<bool, BoundsError>)
        ensures
            in_bounds(x as int, y as int, z as int) ==> r == Ok::<bool, BoundsError>(
                self.solid(x as int, y as int, z as int),
            ),
            !in_bounds(x as int, y as int, z as int) ==> r == Err::<bool, BoundsError>(
                BoundsError { x, y, z },
            ),
    {
        if x < CHUNK_WIDTH && y < CHUNK_HEIGHT && z < CHUNK_DEPTH {
            Ok(self.blocks[(y * 16 + z) * 16 + x])
        } else {
            Err(BoundsError { x, y, z })
        }
    }

    /// Makes cell `(x, y, z)` solid or empty. The mesh is left as it is until
    /// the next rebuild. A coordinate outside the chunk changes nothing and
    /// is reported.
    pub fn set_block(&mut self, x: usize, y: usize, z: usize, block: bool) -> (r: Result<
        (),
        BoundsError,
    >)
        ensures
            in_bounds(x as int, y as int, z as int) ==> r is Ok && final(self).cells() == old(
                self,
            ).cells().update(cell_index(x as int, y as int, z as int), block),
            !in_bounds(x as int, y as int, z as int) ==> r == Err::<(), BoundsError>(
                BoundsError { x, y, z },
            ) && final(self).cells() == old(self).cells(),
            final(self).current_mesh() == old(self).current_mesh(),
            final(self).chunk_x() == old(self).chunk_x(),
            final(self).chunk_z() == old(self).chunk_z(),
    {
        if x < CHUNK_WIDTH && y < CHUNK_HEIGHT && z < CHUNK_DEPTH {
            self.blocks.set((y * 16 + z) * 16 + x, block);
            Ok(())
        } else {
            Err(BoundsError { x, y, z })
        }
    }

    /// The vertex and index lists of the surface of the current grid.
    pub fn build_mesh(&self) -> (r: (Vec<ChunkVertex>, Vec<u32>))
        ensures
            r.0@ == mesh_vertices(self.cells()),
            r.1@ == mesh_indices(self.cells()),
    {
        build_mesh(&self.blocks)
    }

    /// Installs the outcome of a mesh creation: a new mesh replaces (and
    /// drops) the previous one; a failure leaves the chunk as it was and is
    /// handed back.
    pub fn install_mesh(&mut self, created: Result<M, MeshAllocationFailed>) -> (r: Result<
        (),
        MeshAllocationFailed,
    >)
        ensures
            created is Ok ==> r is Ok && final(self).current_mesh() == Some(created->Ok_0),
            created is Err ==> r == Err::<(), MeshAllocationFailed>(created->Err_0)
                && final(self).current_mesh() == old(self).current_mesh(),
            final(self).cells() == old(self).cells(),
            final(self).chunk_x() == old(self).chunk_x(),
            final(self).chunk_z() == old(self).chunk_z(),
    {
        match created {
            Ok(mesh) => {
                self.mesh = Some(mesh);
                Ok(())
            },
            Err(e) => Err(e),
        }
    }

    /// Rebuilds the mesh from the current grid: builds the surface, hands it
    /// to `factory`, and installs what comes back. On failure the previous
    /// mesh stays.
    pub fn rebuild_mesh<F: MeshFactory<M>>(&mut self, factory: &F) -> (r: Result<
        (),
        MeshAllocationFailed,
    >)
        ensures
            r is Ok ==> final(self).current_mesh() is Some,
            r is Err ==> final(self).current_mesh() == old(self).current_mesh(),
            final(self).cells() == old(self).cells(),
            final(self).chunk_x() == old(self).chunk_x(),
            final(self).chunk_z() == old(self).chunk_z(),
    {
        let (vertices, indices) = self.build_mesh();
        proof {
            crate::mesh_laws::lemma_indices_in_range(self.cells());
        }
        let created = factory.create_mesh(vertices.as_slice(), indices.as_slice());
        self.install_mesh(created)
    }

    /// The mesh built by the last successful rebuild, if any.
    pub fn mesh(&self) -> (r: Option<&M>)
        ensures
            r matches Some(m) ==> self.current_mesh() == Some(*m),
            r is None ==> self.current_mesh() is None,
    {
        self.mesh.as_ref()
    }
}

} // verus!
