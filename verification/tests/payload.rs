use ironhold::payload::{camera_payload, index_payload, instance_payload, vertex_payload};
use ironhold::types::{CameraUniform, InstanceData, MeshVertex, Sprite, Transform2D};

fn record(seed: u32) -> InstanceData {
    InstanceData {
        transform: Transform2D {
            t0: [seed, seed + 1, seed + 2, seed + 3],
            t1: [seed + 4, seed + 5, seed + 6, seed + 7],
        },
        sprite: Sprite {
            s0: [seed + 8, seed + 9, seed + 10, seed + 11],
            color: [seed + 12, seed + 13, seed + 14, seed + 15],
        },
    }
}

fn words(bytes: &[u8]) -> Vec<u32> {
    bytes
        .chunks(4)
        .map(|chunk| u32::from_ne_bytes([chunk[0], chunk[1], chunk[2], chunk[3]]))
        .collect()
}

#[test]
fn instance_payload_has_64_bytes_for_each_record() {
    assert!(instance_payload(&Vec::new()).is_empty());
    assert_eq!(instance_payload(&vec![record(0)]).len(), 64);
    assert_eq!(instance_payload(&vec![record(0), record(100), record(7)]).len(), 192);
}

#[test]
fn instance_payload_holds_the_words_in_the_order_of_the_record() {
    let payload = instance_payload(&vec![record(0x0102_0304), record(0xA000_0000)]);
    let expected: Vec<u32> =
        (0..16).map(|i| 0x0102_0304 + i).chain((0..16).map(|i| 0xA000_0000 + i)).collect();
    assert_eq!(words(&payload), expected);
}

#[test]
fn payload_bytes_are_the_words_in_one_byte_order() {
    let payload = index_payload(&[0x0102_0304, 0x0A0B_0C0D]);
    let little = vec![4u8, 3, 2, 1, 0x0D, 0x0C, 0x0B, 0x0A];
    let big = vec![1u8, 2, 3, 4, 0x0A, 0x0B, 0x0C, 0x0D];
    assert!(payload == little || payload == big);
    let native: Vec<u8> =
        [0x0102_0304u32, 0x0A0B_0C0D].iter().flat_map(|word| word.to_ne_bytes()).collect();
    assert_eq!(payload, native);
}

#[test]
fn vertex_payload_has_32_bytes_for_each_vertex() {
    let vertices = [
        MeshVertex { position: [1, 2, 3], normal: [4, 5, 6], uv: [7, 8] },
        MeshVertex { position: [9, 10, 11], normal: [12, 13, 14], uv: [15, 16] },
    ];
    let payload = vertex_payload(&vertices);
    assert_eq!(payload.len(), 64);
    assert_eq!(words(&payload), (1..=16).collect::<Vec<u32>>());
    assert!(vertex_payload(&[]).is_empty());
}

#[test]
fn index_payload_has_4_bytes_for_each_index() {
    assert_eq!(index_payload(&[0, 1, 2]).len(), 12);
    assert_eq!(words(&index_payload(&[0, 1, 2])), vec![0, 1, 2]);
    assert!(index_payload(&[]).is_empty());
}

#[test]
fn camera_payload_has_64_bytes() {
    let mut view_proj = [0u32; 16];
    for (i, word) in view_proj.iter_mut().enumerate() {
        *word = (i as f32).to_bits();
    }
    let payload = camera_payload(&CameraUniform { view_proj });
    assert_eq!(payload.len(), 64);
    assert_eq!(words(&payload), view_proj.to_vec());
}
