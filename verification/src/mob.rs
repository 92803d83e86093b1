//! Mobs: the marker, the spawn bundle, and the hitbox built from a
//! placed entity's declared size.

use vstd::prelude::*;

use crate::character_controller::{ColliderShape, EntityDescriptor};

verus! {

/// Marker for mob entities.
#[derive(Clone, Copy, Debug, Default, PartialEq, Eq, Structural)]
pub struct Mob;

/// What spawns a mob entity from level data: the marker and a
/// collider sized from the entity's declared fields.
#[derive(Clone, Copy, Debug, PartialEq, Eq, Structural)]
pub struct MobBundle {
    pub mob: Mob,
    pub collider: ColliderShape,
}

/// Builds a mob's hitbox from its declared size in the level data.
pub fn mob_hitbox(entity_instance: &EntityDescriptor) -> (r: ColliderShape)
    ensures
        r == (ColliderShape::Cuboid {
            width: entity_instance.width,
            height: entity_instance.height,
        }),
{
    ColliderShape::Cuboid { width: entity_instance.width, height: entity_instance.height }
}

impl From<EntityDescriptor> for MobBundle {
    /// Builds the mob bundle from a placed entity's declared size.
    fn from(entity_instance: EntityDescriptor) -> (r: MobBundle) {
        MobBundle { mob: Mob, collider: mob_hitbox(&entity_instance) }
    }
}

impl vstd::std_specs::convert::FromSpecImpl<EntityDescriptor> for MobBundle {
    open spec fn obeys_from_spec() -> bool {
        true
    }

    open spec fn from_spec(entity_instance: EntityDescriptor) -> Self {
        MobBundle {
            mob: Mob,
            collider: ColliderShape::Cuboid {
                width: entity_instance.width,
                height: entity_instance.height,
            },
        }
    }
}

} // verus!
