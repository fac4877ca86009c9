//! The records that are handed to the GPU.
//!
//! Every number in these records is an IEEE-754 single-precision value. The
//! core never computes with such a value: it only moves it from one record
//! to another, so each is held by its bit pattern, a [`Scalar`].

use vstd::prelude::*;

verus! {

/// The bit pattern of an IEEE-754 single-precision value.
pub type Scalar = u32;

/// The bit pattern of `0.0`, which fills the padding of a record.
pub const ZERO: Scalar = 0;

/// The bit pattern of `1.0`.
pub const ONE: Scalar = 0x3F80_0000;

/// The bit pattern of `0.5`.
pub const HALF: Scalar = 0x3F00_0000;

/// The bit pattern of `-0.5`.
pub const MINUS_HALF: Scalar = 0xBF00_0000;

/// The number of bytes of one [`InstanceData`] record on the GPU.
pub const INSTANCE_SIZE: u64 = 64;

/// The number of bytes of one [`MeshVertex`] on the GPU.
pub const VERTEX_SIZE: u64 = 32;

/// The number of bytes of one mesh index on the GPU.
pub const INDEX_SIZE: u64 = 4;

/// The camera's view-projection matrix, a column-major 4x4 matrix.
#[derive(Clone, Copy, Debug)]
pub struct CameraUniform {
    pub view_proj: [Scalar; 16],
}

/// One vertex of a 3D mesh.
#[derive(Clone, Copy, Debug)]
pub struct MeshVertex {
    pub position: [Scalar; 3],
    pub normal: [Scalar; 3],
    pub uv: [Scalar; 2],
}

/// The placement of one instance, as the GPU reads it.
#[derive(Clone, Copy, Debug)]
pub struct Transform2D {
    /// position.x, position.y, rotation in radians, padding
    pub t0: [Scalar; 4],
    /// scale.x, scale.y, padding, padding
    pub t1: [Scalar; 4],
}

/// The appearance of one instance, as the GPU reads it.
#[derive(Clone, Copy, Debug)]
pub struct Sprite {
    /// dimensions.x, dimensions.y, padding, padding
    pub s0: [Scalar; 4],
    /// red, green, blue, alpha
    pub color: [Scalar; 4],
}

/// One drawable object: its placement and its appearance.
#[derive(Clone, Copy, Debug)]
pub struct InstanceData {
    pub transform: Transform2D,
    pub sprite: Sprite,
}

/// The placement of a mesh, as the GPU reads it.
#[derive(Clone, Copy, Debug)]
pub struct Transform3D {
    /// position.x, position.y, position.z, rotation.x, rotation.y,
    /// rotation.z, padding, padding
    pub t0: [Scalar; 8],
    /// scale.x, scale.y, scale.z, padding
    pub t1: [Scalar; 4],
}

/// The vertices and indices of one mesh.
#[derive(Clone, Debug)]
pub struct MeshData {
    pub vertices: Vec<MeshVertex>,
    pub indices: Vec<u32>,
}

impl InstanceData {
    /// The sixteen values of the record in the order in which the GPU reads
    /// them.
    pub open spec fn words(self) -> Seq<Scalar> {
        self.transform.t0@ + self.transform.t1@ + self.sprite.s0@ + self.sprite.color@
    }
}

} // verus!
