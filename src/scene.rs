//! The scene types of the host engine that the library carries through.
use vstd::prelude::*;

verus! {

/// An object handle of the host's scene; the library only stores and passes it on.
#[verifier::external_type_specification]
#[verifier::external_body]
pub struct ExEntity(bevy::ecs::entity::Entity);

/// A world pose of the host's scene; the library only stores and passes it on.
#[verifier::external_type_specification]
#[verifier::external_body]
pub struct ExGlobalTransform(bevy::transform::components::GlobalTransform);

} // verus!
