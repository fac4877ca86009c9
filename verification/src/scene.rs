//! The declarative scene: what exists, as it was authored.
//!
//! A scene says nothing of how its entities are loaded or drawn. It is
//! replaced as a whole when another one is loaded, and never changed in
//! place.

use crate::types::Scalar;
use vstd::prelude::*;

verus! {

/// An ordered list of entities under a name.
#[derive(Debug, Default, Clone)]
pub struct Scene {
    pub name: String,
    pub entities: Vec<Entity>,
}

/// One entity with its optional components.
#[derive(Debug, Default, Clone)]
pub struct Entity {
    pub id: u32,
    pub name: String,
    pub transform_2d: Option<Transform2D>,
    pub transform_3d: Option<Transform3D>,
    pub sprite: Option<Sprite>,
    pub mesh: Option<Mesh>,
}

/// Placement in the plane.
/// - `position`: (x, y) in world units
/// - `rotation`: in degrees
/// - `scale`: (sx, sy), multiplicative
#[derive(Debug, Default, Clone, Copy)]
pub struct Transform2D {
    pub position: (Scalar, Scalar),
    pub rotation: Scalar,
    pub scale: (Scalar, Scalar),
}

/// How an entity is drawn as a quad.
/// - `dimensions`: (width, height) in world units, before scaling
/// - `color`: red, green, blue, alpha, each from 0 to 1
#[derive(Debug, Default, Clone, Copy)]
pub struct Sprite {
    pub dimensions: (Scalar, Scalar),
    pub color: (Scalar, Scalar, Scalar, Scalar),
}

/// Placement in space.
/// - `position`: (x, y, z) in world units
/// - `rotation`: in degrees about x, y and z
/// - `scale`: (sx, sy, sz), multiplicative
#[derive(Debug, Default, Clone, Copy)]
pub struct Transform3D {
    pub position: (Scalar, Scalar, Scalar),
    pub rotation: (Scalar, Scalar, Scalar),
    pub scale: (Scalar, Scalar, Scalar),
}

/// A reference to a mesh in an asset file.
#[derive(Debug, Default, Clone)]
pub struct Mesh {
    pub file: String,
    pub node: Option<usize>,
    pub primitive: Option<usize>,
}

} // verus!
