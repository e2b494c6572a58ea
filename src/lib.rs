//! A voxel chunk: a dense occupancy grid of 16 x 128 x 16 cells, and the
//! face-culling mesher that turns it into quads for a renderer.

mod chunk;
pub mod mesh_laws;
pub mod mesher;
mod type_id;

pub use chunk::{BoundsError, Chunk, MeshFactory};
pub use mesher::{ChunkVertex, MeshAllocationFailed};
pub use type_id::{generate_hash, ObjectClassed};
