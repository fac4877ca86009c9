//! Projection of a scene into the instance records of one frame.

use crate::scene::{Entity, Scene, Sprite, Transform2D};
use crate::types::{InstanceData, Scalar};
use vstd::prelude::*;

verus! {

/// An entity is drawn as a quad where it has both a placement in the plane
/// and a sprite.
pub open spec fn is_drawable(entity: Entity) -> bool {
    entity.transform_2d is Some && entity.sprite is Some
}

/// The entities of a scene that are drawn as quads, in the order of the
/// scene.
pub open spec fn drawable(entities: Seq<Entity>) -> Seq<Entity> {
    entities.filter(|entity: Entity| is_drawable(entity))
}

/// Whether `record` is the instance record of an entity with the given
/// placement and sprite, whose rotation is `radians` in radians: every other
/// value is taken over as it was authored, and the padding is zero.
pub open spec fn is_record_of(
    transform: Transform2D,
    sprite: Sprite,
    radians: Scalar,
    record: InstanceData,
) -> bool {
    &&& record.transform.t0@ == seq![transform.position.0, transform.position.1, radians, 0u32]
    &&& record.transform.t1@ == seq![transform.scale.0, transform.scale.1, 0u32, 0u32]
    &&& record.sprite.s0@ == seq![sprite.dimensions.0, sprite.dimensions.1, 0u32, 0u32]
    &&& record.sprite.color@ == seq![sprite.color.0, sprite.color.1, sprite.color.2, sprite.color.3]
}

/// Builds the instance record of one drawable entity.
pub fn instance_of(transform: &Transform2D, sprite: &Sprite, radians: Scalar) -> (r: InstanceData)
    ensures
        is_record_of(*transform, *sprite, radians, r),
{
    let r = InstanceData {
        transform: crate::types::Transform2D {
            t0: [transform.position.0, transform.position.1, radians, 0],
            t1: [transform.scale.0, transform.scale.1, 0, 0],
        },
        sprite: crate::types::Sprite {
            s0: [sprite.dimensions.0, sprite.dimensions.1, 0, 0],
            color: [sprite.color.0, sprite.color.1, sprite.color.2, sprite.color.3],
        },
    };
    assert(r.transform.t0@ =~= seq![transform.position.0, transform.position.1, radians, 0u32]);
    assert(r.transform.t1@ =~= seq![transform.scale.0, transform.scale.1, 0u32, 0u32]);
    assert(r.sprite.s0@ =~= seq![sprite.dimensions.0, sprite.dimensions.1, 0u32, 0u32]);
    assert(r.sprite.color@ =~= seq![
        sprite.color.0,
        sprite.color.1,
        sprite.color.2,
        sprite.color.3,
    ]);
    r
}

/// Whether `records` is the projection of `entities` under `to_radians`:
/// there is one record for each drawable entity, in the order of the
/// entities, its rotation is what one call of `to_radians` made of the
/// authored rotation, and every other value is taken over unchanged.
pub open spec fn is_projection<F: Fn(Scalar) -> Scalar>(
    entities: Seq<Entity>,
    records: Seq<InstanceData>,
    to_radians: F,
) -> bool {
    &&& records.len() == drawable(entities).len()
    &&& forall|k: int|
        #![trigger records[k]]
        0 <= k < records.len() ==> {
            let entity = drawable(entities)[k];
            &&& is_drawable(entity)
            &&& is_record_of(
                entity.transform_2d.unwrap(),
                entity.sprite.unwrap(),
                records[k].transform.t0@[2],
                records[k],
            )
            &&& call_ensures(
                to_radians,
                (entity.transform_2d.unwrap().rotation,),
                records[k].transform.t0@[2],
            )
        }
}

/// Projects a scene into instance records.
///
/// An entity yields a record where it has both a placement in the plane and
/// a sprite; every other entity is passed over. The records come in the
/// order of their entities. The rotation of each record is what
/// `to_radians` makes of the authored rotation, which is in degrees; it is
/// called once for each record. Every other value is taken over unchanged.
pub fn scene_to_instances<F: Fn(Scalar) -> Scalar>(scene: &Scene, to_radians: &F) -> (r: Vec<
    InstanceData,
>)
    requires
        forall|degrees: Scalar| call_requires(*to_radians, (degrees,)),
    ensures
        is_projection(scene.entities@, r@, *to_radians),
{
    let mut records: Vec<InstanceData> = Vec::new();
    let mut i: usize = 0;
    proof {
        reveal(Seq::filter);
        assert(scene.entities@.take(0) =~= Seq::<Entity>::empty());
    }
    while i < scene.entities.len()
        invariant
            0 <= i <= scene.entities@.len(),
            forall|degrees: Scalar| call_requires(*to_radians, (degrees,)),
            is_projection(scene.entities@.take(i as int), records@, *to_radians),
        decreases scene.entities@.len() - i,
    {
        let entity = &scene.entities[i];
        proof {
            reveal(Seq::filter);
            let upto = scene.entities@.take(i as int + 1);
            assert(upto.drop_last() =~= scene.entities@.take(i as int));
            assert(upto.last() == scene.entities@[i as int]);
        }
        match (&entity.transform_2d, &entity.sprite) {
            (Some(transform), Some(sprite)) => {
                let radians: Scalar = to_radians(transform.rotation);
                let record = instance_of(transform, sprite, radians);
                records.push(record);
            },
            _ => {},
        }
        i += 1;
    }
    proof {
        assert(scene.entities@.take(i as int) =~= scene.entities@);
    }
    records
}

} // verus!
