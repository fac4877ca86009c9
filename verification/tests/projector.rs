use ironhold::projector::{instance_of, scene_to_instances};
use ironhold::scene::{Entity, Mesh, Scene, Sprite, Transform2D};

fn to_radians(degrees: u32) -> u32 {
    f32::from_bits(degrees).to_radians().to_bits()
}

fn bits(value: f32) -> u32 {
    value.to_bits()
}

fn transform(x: f32, y: f32, rotation: f32) -> Transform2D {
    Transform2D {
        position: (bits(x), bits(y)),
        rotation: bits(rotation),
        scale: (bits(2.0), bits(3.0)),
    }
}

fn sprite(width: f32) -> Sprite {
    Sprite {
        dimensions: (bits(width), bits(0.5)),
        color: (bits(0.1), bits(0.2), bits(0.3), bits(1.0)),
    }
}

fn entity(id: u32, transform_2d: Option<Transform2D>, sprite: Option<Sprite>) -> Entity {
    Entity { id, name: format!("e{id}"), transform_2d, transform_3d: None, sprite, mesh: None }
}

#[test]
fn entity_without_a_sprite_is_passed_over() {
    let scene = Scene {
        name: "three".to_string(),
        entities: vec![
            entity(1, Some(transform(1.0, 10.0, 0.0)), Some(sprite(1.0))),
            entity(2, Some(transform(2.0, 20.0, 0.0)), None),
            entity(3, Some(transform(3.0, 30.0, 0.0)), Some(sprite(3.0))),
        ],
    };
    let records = scene_to_instances(&scene, &to_radians);
    assert_eq!(records.len(), 2);
    assert_eq!(f32::from_bits(records[0].transform.t0[0]), 1.0);
    assert_eq!(f32::from_bits(records[0].sprite.s0[0]), 1.0);
    assert_eq!(f32::from_bits(records[1].transform.t0[0]), 3.0);
    assert_eq!(f32::from_bits(records[1].sprite.s0[0]), 3.0);
}

#[test]
fn entity_without_a_transform_is_passed_over() {
    let mut with_mesh = entity(2, None, None);
    with_mesh.mesh = Some(Mesh { file: "m.gltf".to_string(), node: None, primitive: None });
    let scene = Scene {
        name: "mixed".to_string(),
        entities: vec![
            entity(1, None, Some(sprite(1.0))),
            with_mesh,
            entity(3, None, None),
            entity(4, Some(transform(4.0, 40.0, 0.0)), Some(sprite(4.0))),
        ],
    };
    let records = scene_to_instances(&scene, &to_radians);
    assert_eq!(records.len(), 1);
    assert_eq!(f32::from_bits(records[0].transform.t0[1]), 40.0);
}

#[test]
fn empty_scene_projects_to_nothing() {
    let scene = Scene { name: String::new(), entities: Vec::new() };
    assert!(scene_to_instances(&scene, &to_radians).is_empty());
}

#[test]
fn rotation_of_45_degrees_becomes_a_quarter_of_pi() {
    let scene = Scene {
        name: "rotated".to_string(),
        entities: vec![entity(1, Some(transform(0.0, 0.0, 45.0)), Some(sprite(1.0)))],
    };
    let records = scene_to_instances(&scene, &to_radians);
    let radians = f32::from_bits(records[0].transform.t0[2]);
    assert!((radians as f64 - 0.7853981634).abs() < 1e-6);
}

#[test]
fn record_takes_every_value_over_and_pads_with_zero() {
    let scene = Scene {
        name: "one".to_string(),
        entities: vec![entity(1, Some(transform(1.5, -2.5, 180.0)), Some(sprite(4.0)))],
    };
    let records = scene_to_instances(&scene, &to_radians);
    let record = records[0];
    assert_eq!(
        record.transform.t0,
        [bits(1.5), bits(-2.5), bits(180.0f32.to_radians()), 0]
    );
    assert_eq!(record.transform.t1, [bits(2.0), bits(3.0), 0, 0]);
    assert_eq!(record.sprite.s0, [bits(4.0), bits(0.5), 0, 0]);
    assert_eq!(record.sprite.color, [bits(0.1), bits(0.2), bits(0.3), bits(1.0)]);
}

#[test]
fn conversion_is_called_once_for_each_record() {
    let calls = std::cell::Cell::new(0u32);
    let counting = |degrees: u32| {
        calls.set(calls.get() + 1);
        to_radians(degrees)
    };
    let scene = Scene {
        name: "count".to_string(),
        entities: vec![
            entity(1, Some(transform(0.0, 0.0, 1.0)), Some(sprite(1.0))),
            entity(2, Some(transform(0.0, 0.0, 2.0)), None),
            entity(3, Some(transform(0.0, 0.0, 3.0)), Some(sprite(1.0))),
        ],
    };
    let records = scene_to_instances(&scene, &counting);
    assert_eq!(records.len(), 2);
    assert_eq!(calls.get(), 2);
}

#[test]
fn projection_is_the_same_every_time() {
    let scene = Scene {
        name: "again".to_string(),
        entities: vec![
            entity(1, Some(transform(1.0, 2.0, 30.0)), Some(sprite(1.0))),
            entity(2, Some(transform(3.0, 4.0, 60.0)), Some(sprite(2.0))),
        ],
    };
    let first = scene_to_instances(&scene, &to_radians);
    let second = scene_to_instances(&scene, &to_radians);
    assert_eq!(first.len(), second.len());
    for (a, b) in first.iter().zip(second.iter()) {
        assert_eq!(a.transform.t0, b.transform.t0);
        assert_eq!(a.transform.t1, b.transform.t1);
        assert_eq!(a.sprite.s0, b.sprite.s0);
        assert_eq!(a.sprite.color, b.sprite.color);
    }
}

#[test]
fn instance_of_lays_the_record_out() {
    let record = instance_of(&transform(7.0, 8.0, 0.0), &sprite(9.0), bits(0.25));
    assert_eq!(record.transform.t0, [bits(7.0), bits(8.0), bits(0.25), 0]);
    assert_eq!(record.sprite.s0, [bits(9.0), bits(0.5), 0, 0]);
}
