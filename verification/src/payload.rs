//! The byte images of GPU records.
//!
//! A record is first laid out as 32-bit words, in the order in which the GPU
//! reads them, and the words are then viewed as bytes in the byte order of
//! the machine.

use crate::types::{CameraUniform, InstanceData, MeshVertex, Scalar};
use vstd::prelude::*;

verus! {

/// The four bytes of a word, least significant first.
pub open spec fn le_bytes(word: u32) -> Seq<u8> {
    seq![
        (word & 0xff) as u8,
        ((word >> 8) & 0xff) as u8,
        ((word >> 16) & 0xff) as u8,
        ((word >> 24) & 0xff) as u8,
    ]
}

/// The four bytes of a word, most significant first.
pub open spec fn be_bytes(word: u32) -> Seq<u8> {
    seq![
        ((word >> 24) & 0xff) as u8,
        ((word >> 16) & 0xff) as u8,
        ((word >> 8) & 0xff) as u8,
        (word & 0xff) as u8,
    ]
}

/// Whether `bytes` holds `words` one after another, four bytes each, all in
/// little-endian order or all in big-endian order.
pub open spec fn is_image_of(bytes: Seq<u8>, words: Seq<u32>, little_endian: bool) -> bool {
    &&& bytes.len() == 4 * words.len()
    &&& forall|i: int|
        #![trigger words[i]]
        0 <= i < words.len() ==> bytes.subrange(4 * i, 4 * i + 4) == (if little_endian {
            le_bytes(words[i])
        } else {
            be_bytes(words[i])
        })
}

/// Calls `bytemuck::cast_slice` from 32-bit words to bytes, which views the
/// memory of the words as bytes, and copies the bytes. The result has four
/// bytes for each word, which are the word in the byte order of the machine:
/// little-endian throughout or big-endian throughout.
#[verifier::external_body]
fn bytes_of_words(words: &[u32]) -> (r: Vec<u8>)
    ensures
        is_image_of(r@, words@, true) || is_image_of(r@, words@, false),
{
    bytemuck::cast_slice::<u32, u8>(words).to_vec()
}

/// The words of a run of instance records: sixteen for each record, in the
/// order of the records.
pub open spec fn instance_words(instances: Seq<InstanceData>) -> Seq<u32> {
    Seq::new(16 * instances.len(), |i: int| instances[i / 16].words()[i % 16])
}

/// The eight words of a vertex: position, normal, texture coordinates.
pub open spec fn words_of_vertex(vertex: MeshVertex) -> Seq<u32> {
    vertex.position@ + vertex.normal@ + vertex.uv@
}

/// The words of a run of vertices: eight for each vertex, in the order of
/// the vertices.
pub open spec fn vertex_words(vertices: Seq<MeshVertex>) -> Seq<u32> {
    Seq::new(8 * vertices.len(), |i: int| words_of_vertex(vertices[i / 8])[i % 8])
}

/// Whether `bytes` is the image of `words` in the byte order of some
/// machine.
pub open spec fn is_payload_of(bytes: Seq<u8>, words: Seq<u32>) -> bool {
    is_image_of(bytes, words, true) || is_image_of(bytes, words, false)
}

fn push_words<const N: usize>(words: &mut Vec<u32>, values: &[Scalar; N])
    ensures
        final(words)@ == old(words)@ + values@,
{
    let mut i: usize = 0;
    while i < N
        invariant
            0 <= i <= N,
            values@.len() == N,
            words@ == old(words)@ + values@.take(i as int),
        decreases N - i,
    {
        words.push(values[i]);
        proof {
            assert(values@.take(i as int + 1) =~= values@.take(i as int).push(values@[i as int]));
        }
        i += 1;
    }
    proof {
        assert(values@.take(N as int) =~= values@);
    }
}

/// The byte image of a run of instance records, as it is written to the
/// instance buffer: 64 bytes for each record.
pub fn instance_payload(instances: &Vec<InstanceData>) -> (r: Vec<u8>)
    ensures
        r@.len() == 64 * instances@.len(),
        is_payload_of(r@, instance_words(instances@)),
{
    let mut words: Vec<u32> = Vec::new();
    let mut i: usize = 0;
    while i < instances.len()
        invariant
            0 <= i <= instances@.len(),
            words@ == instance_words(instances@.take(i as int)),
        decreases instances@.len() - i,
    {
        let ghost before = words@;
        let record = &instances[i];
        push_words(&mut words, &record.transform.t0);
        push_words(&mut words, &record.transform.t1);
        push_words(&mut words, &record.sprite.s0);
        push_words(&mut words, &record.sprite.color);
        proof {
            let upto = instances@.take(i as int + 1);
            assert(words@ == before + record.words());
            assert(words@ =~= instance_words(upto)) by {
                assert forall|j: int| 0 <= j < 16 * (i + 1) implies words@[j] == upto[j
                    / 16].words()[j % 16] by {
                    if j < 16 * i {
                        assert(upto[j / 16] == instances@.take(i as int)[j / 16]);
                    } else {
                        assert(j / 16 == i && j % 16 == j - 16 * i);
                    }
                }
            }
        }
        i += 1;
    }
    proof {
        assert(instances@.take(i as int) =~= instances@);
    }
    bytes_of_words(words.as_slice())
}

/// The byte image of a run of vertices, as it is written to a vertex buffer:
/// 32 bytes for each vertex.
pub fn vertex_payload(vertices: &[MeshVertex]) -> (r: Vec<u8>)
    ensures
        r@.len() == 32 * vertices@.len(),
        is_payload_of(r@, vertex_words(vertices@)),
{
    let mut words: Vec<u32> = Vec::new();
    let mut i: usize = 0;
    while i < vertices.len()
        invariant
            0 <= i <= vertices@.len(),
            words@ == vertex_words(vertices@.take(i as int)),
        decreases vertices@.len() - i,
    {
        let ghost before = words@;
        let vertex = &vertices[i];
        push_words(&mut words, &vertex.position);
        push_words(&mut words, &vertex.normal);
        push_words(&mut words, &vertex.uv);
        proof {
            let upto = vertices@.take(i as int + 1);
            assert(words@ == before + words_of_vertex(*vertex));
            assert(words@ =~= vertex_words(upto)) by {
                assert forall|j: int| 0 <= j < 8 * (i + 1) implies words@[j] == words_of_vertex(
                    upto[j / 8],
                )[j % 8] by {
                    if j < 8 * i {
                        assert(upto[j / 8] == vertices@.take(i as int)[j / 8]);
                    } else {
                        assert(j / 8 == i && j % 8 == j - 8 * i);
                    }
                }
            }
        }
        i += 1;
    }
    proof {
        assert(vertices@.take(i as int) =~= vertices@);
    }
    bytes_of_words(words.as_slice())
}

/// The byte image of a run of mesh indices, as it is written to an index
/// buffer: 4 bytes for each index.
pub fn index_payload(indices: &[u32]) -> (r: Vec<u8>)
    ensures
        r@.len() == 4 * indices@.len(),
        is_payload_of(r@, indices@),
{
    bytes_of_words(indices)
}

/// The byte image of a camera uniform: the 64 bytes of its matrix.
pub fn camera_payload(camera: &CameraUniform) -> (r: Vec<u8>)
    ensures
        r@.len() == 64,
        is_payload_of(r@, camera.view_proj@),
{
    bytes_of_words(camera.view_proj.as_slice())
}

} // verus!
