//! Assets of the engine: meshes, and the failures of loading them.

use crate::scene::{Entity, Scene};
use crate::types::{MeshData, MeshVertex, Scalar, HALF, MINUS_HALF, ONE, ZERO};
use vstd::prelude::*;

verus! {

/// Why an asset could not be loaded.
#[derive(Debug)]
pub enum AssetError {
    /// The asset could not be fetched; the text says why.
    Io(String),
    /// The asset is not in the format that was expected; the text says why.
    Format(String),
}

impl AssetError {
    /// The failure in words: `io: ` or `format: `, followed by the reason.
    pub fn message(&self) -> (r: String)
        ensures
            r@ == (match *self {
                AssetError::Io(why) => "io: "@ + why@,
                AssetError::Format(why) => "format: "@ + why@,
            }),
    {
        match self {
            AssetError::Io(why) => {
                let mut text = "io: ".to_owned();
                text.append(why.as_str());
                text
            },
            AssetError::Format(why) => {
                let mut text = "format: ".to_owned();
                text.append(why.as_str());
                text
            },
        }
    }
}

/// Takes note that the asset at `url` has changed. Nothing is reloaded yet:
/// every note is accepted.
pub fn hot_reload_stub(url: &str) -> (r: Result<(), AssetError>)
    ensures
        r is Ok,
{
    let _ = url;
    Ok(())
}

/// Whether `vertex` has the given position and texture coordinates and
/// faces the viewer.
pub open spec fn is_facing_vertex(vertex: MeshVertex, x: Scalar, y: Scalar, u: Scalar, v: Scalar) -> bool {
    &&& vertex.position@ == seq![x, y, 0u32]
    &&& vertex.normal@ == seq![0u32, 0u32, 0x3F80_0000u32]
    &&& vertex.uv@ == seq![u, v]
}

/// Whether `mesh` is the triangle that stands in for every mesh: its tip at
/// (0, 0.5), its base from (-0.5, -0.5) to (0.5, -0.5), facing the viewer.
pub open spec fn is_placeholder_triangle(mesh: MeshData) -> bool {
    &&& mesh.vertices@.len() == 3
    &&& is_facing_vertex(mesh.vertices@[0], 0, 0x3F00_0000, 0, 0)
    &&& is_facing_vertex(mesh.vertices@[1], 0xBF00_0000, 0xBF00_0000, 0x3F80_0000, 0)
    &&& is_facing_vertex(mesh.vertices@[2], 0x3F00_0000, 0xBF00_0000, 0x3F00_0000, 0x3F80_0000)
    &&& mesh.indices@ == seq![0u32, 1u32, 2u32]
}

fn facing_vertex(x: Scalar, y: Scalar, u: Scalar, v: Scalar) -> (r: MeshVertex)
    ensures
        is_facing_vertex(r, x, y, u, v),
{
    let r = MeshVertex { position: [x, y, ZERO], normal: [ZERO, ZERO, ONE], uv: [u, v] };
    assert(r.position@ =~= seq![x, y, 0u32]);
    assert(r.normal@ =~= seq![0u32, 0u32, 0x3F80_0000u32]);
    assert(r.uv@ =~= seq![u, v]);
    r
}

/// Loads the mesh of an entity: the placeholder triangle where the entity
/// refers to a mesh, nothing where it does not.
pub fn load_mesh_stub(entity: &Entity) -> (r: Option<MeshData>)
    ensures
        r is Some <==> entity.mesh is Some,
        r matches Some(mesh) ==> is_placeholder_triangle(mesh),
{
    if entity.mesh.is_none() {
        return None;
    }
    let mut vertices: Vec<MeshVertex> = Vec::new();
    vertices.push(facing_vertex(ZERO, HALF, ZERO, ZERO));
    vertices.push(facing_vertex(MINUS_HALF, MINUS_HALF, ONE, ZERO));
    vertices.push(facing_vertex(HALF, MINUS_HALF, HALF, ONE));
    let mut indices: Vec<u32> = Vec::new();
    indices.push(0);
    indices.push(1);
    indices.push(2);
    assert(indices@ =~= seq![0u32, 1u32, 2u32]);
    Some(MeshData { vertices, indices })
}

/// An entity has a mesh where it refers to one.
pub open spec fn has_mesh(entity: Entity) -> bool {
    entity.mesh is Some
}

/// The meshes of a scene: one for each entity that refers to a mesh, in the
/// order of the entities. Each is the placeholder triangle.
pub fn scene_to_meshes(scene: &Scene) -> (r: Vec<MeshData>)
    ensures
        r@.len() == scene.entities@.filter(|entity: Entity| has_mesh(entity)).len(),
        forall|k: int| 0 <= k < r@.len() ==> is_placeholder_triangle(#[trigger] r@[k]),
{
    let mut meshes: Vec<MeshData> = Vec::new();
    let mut i: usize = 0;
    proof {
        reveal(Seq::filter);
        assert(scene.entities@.take(0) =~= Seq::<Entity>::empty());
    }
    while i < scene.entities.len()
        invariant
            0 <= i <= scene.entities@.len(),
            meshes@.len() == scene.entities@.take(i as int).filter(
                |entity: Entity| has_mesh(entity),
            ).len(),
            forall|k: int| 0 <= k < meshes@.len() ==> is_placeholder_triangle(#[trigger] meshes@[k]),
        decreases scene.entities@.len() - i,
    {
        proof {
            reveal(Seq::filter);
            let upto = scene.entities@.take(i as int + 1);
            assert(upto.drop_last() =~= scene.entities@.take(i as int));
            assert(upto.last() == scene.entities@[i as int]);
        }
        match load_mesh_stub(&scene.entities[i]) {
            Some(mesh) => {
                meshes.push(mesh);
            },
            None => {},
        }
        i += 1;
    }
    proof {
        assert(scene.entities@.take(i as int) =~= scene.entities@);
    }
    meshes
}

/// Whether `vertex` is put together from the given position, normal and
/// texture coordinates.
pub open spec fn is_vertex_of(
    vertex: MeshVertex,
    position: [Scalar; 3],
    normal: [Scalar; 3],
    uv: Seq<Scalar>,
) -> bool {
    vertex.position == position && vertex.normal == normal && vertex.uv@ == uv
}

/// Puts a mesh together from what was read from an asset file: vertex `i`
/// has position `i`, normal `i`, and texture coordinates `i`, or (0, 0)
/// where the file has no texture coordinates. There is one vertex for each
/// position; the file has to hold a normal, and texture coordinates if any,
/// for each of them.
pub fn assemble_mesh(
    positions: &Vec<[Scalar; 3]>,
    normals: &Vec<[Scalar; 3]>,
    uvs: Option<&Vec<[Scalar; 2]>>,
    indices: Vec<u32>,
) -> (r: MeshData)
    requires
        normals@.len() >= positions@.len(),
        uvs matches Some(coordinates) ==> coordinates@.len() >= positions@.len(),
    ensures
        r.indices == indices,
        r.vertices@.len() == positions@.len(),
        forall|i: int|
            0 <= i < positions@.len() ==> is_vertex_of(
                #[trigger] r.vertices@[i],
                positions@[i],
                normals@[i],
                match uvs {
                    Some(coordinates) => coordinates@[i]@,
                    None => seq![0u32, 0u32],
                },
            ),
{
    let mut vertices: Vec<MeshVertex> = Vec::new();
    let mut i: usize = 0;
    while i < positions.len()
        invariant
            0 <= i <= positions@.len(),
            normals@.len() >= positions@.len(),
            uvs matches Some(coordinates) ==> coordinates@.len() >= positions@.len(),
            vertices@.len() == i,
            forall|k: int|
                0 <= k < i ==> is_vertex_of(
                    #[trigger] vertices@[k],
                    positions@[k],
                    normals@[k],
                    match uvs {
                        Some(coordinates) => coordinates@[k]@,
                        None => seq![0u32, 0u32],
                    },
                ),
        decreases positions@.len() - i,
    {
        let uv: [Scalar; 2] = match uvs {
            Some(coordinates) => coordinates[i],
            None => {
                let zero: [Scalar; 2] = [ZERO, ZERO];
                assert(zero@ =~= seq![0u32, 0u32]);
                zero
            },
        };
        vertices.push(MeshVertex { position: positions[i], normal: normals[i], uv });
        i += 1;
    }
    MeshData { vertices, indices }
}

} // verus!
