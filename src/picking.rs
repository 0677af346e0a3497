//! Choosing the object that a pointer release selects.
use vstd::prelude::*;
use bevy::ecs::entity::Entity;
use bevy::transform::components::GlobalTransform;
use crate::settings::{SelectionModel, TransformGizmoSettings};

verus! {

/// One object that the pick ray passed through.
#[derive(Clone, Copy)]
pub struct PickHit {
    /// The object that was hit.
    pub entity: Entity,
    /// Its world pose, where the scene has one.
    pub pose: Option<GlobalTransform>,
    /// Whether it is a part of the gizmo itself.
    pub is_gizmo_part: bool,
    /// Whether it carries the tag that makes it eligible for manipulation.
    pub is_transformable: bool,
}

/// A hit may be selected unless it is a gizmo part, or tag filtering is on and
/// it lacks the tag.
pub open spec fn is_eligible(hit: PickHit, use_tag_filter: bool) -> bool {
    &&& !hit.is_gizmo_part
    &&& use_tag_filter ==> hit.is_transformable
}

/// `i` is the first eligible hit of `hits`.
pub open spec fn is_first_eligible(hits: Seq<PickHit>, i: int, use_tag_filter: bool) -> bool {
    &&& 0 <= i < hits.len()
    &&& is_eligible(hits[i], use_tag_filter)
    &&& forall|j: int| 0 <= j < i ==> !is_eligible(#[trigger] hits[j], use_tag_filter)
}

/// Index of the nearest eligible hit, for hits ordered by distance.
pub open spec fn nearest_eligible(hits: Seq<PickHit>, use_tag_filter: bool) -> Option<int> {
    if exists|i: int| is_first_eligible(hits, i, use_tag_filter) {
        Some(choose|i: int| is_first_eligible(hits, i, use_tag_filter))
    } else {
        None
    }
}

/// The selection state after one frame of picking: a released button ends any
/// drag, and a release over an eligible hit whose pose is known selects it.
pub open spec fn after_pick(
    state: SelectionModel,
    button_held: bool,
    just_released: bool,
    hits: Seq<PickHit>,
    use_tag_filter: bool,
) -> SelectionModel {
    let held_state = if button_held { state } else { state.drag_ended() };
    match pick_result(just_released, hits, use_tag_filter) {
        Some(pose) => SelectionModel::empty().selected(
            hits[nearest_eligible(hits, use_tag_filter).unwrap()].entity,
            pose,
        ),
        None => held_state,
    }
}

/// The pose that the gizmo snaps to after one frame of picking, if a pick succeeded.
pub open spec fn pick_result(just_released: bool, hits: Seq<PickHit>, use_tag_filter: bool) -> Option<
    GlobalTransform,
> {
    match nearest_eligible(hits, use_tag_filter) {
        Some(i) => if just_released {
            hits[i].pose
        } else {
            None
        },
        None => None,
    }
}

proof fn lemma_first_eligible_unique(hits: Seq<PickHit>, i: int, j: int, use_tag_filter: bool)
    requires
        is_first_eligible(hits, i, use_tag_filter),
        is_first_eligible(hits, j, use_tag_filter),
    ensures
        i == j,
{
    if i < j {
        assert(!is_eligible(hits[i], use_tag_filter));
    } else if j < i {
        assert(!is_eligible(hits[j], use_tag_filter));
    }
}

impl PickHit {
    /// Whether this hit may be selected.
    pub fn is_eligible(&self, use_tag_filter: bool) -> (r: bool)
        ensures
            r == is_eligible(*self, use_tag_filter),
    {
        !self.is_gizmo_part && (!use_tag_filter || self.is_transformable)
    }
}

/// The index of the nearest eligible hit among `hits`, which are ordered by
/// distance from the camera.
pub fn nearest_pick(hits: &Vec<PickHit>, use_tag_filter: bool) -> (r: Option<usize>)
    ensures
        match r {
            Some(i) => nearest_eligible(hits@, use_tag_filter) == Some(i as int),
            None => nearest_eligible(hits@, use_tag_filter) is None,
        },
{
    let mut i: usize = 0;
    while i < hits.len()
        invariant
            i <= hits.len(),
            forall|j: int| 0 <= j < i ==> !is_eligible(#[trigger] hits@[j], use_tag_filter),
        decreases hits.len() - i,
    {
        if hits[i].is_eligible(use_tag_filter) {
            proof {
                assert(is_first_eligible(hits@, i as int, use_tag_filter));
                let k = choose|k: int| is_first_eligible(hits@, k, use_tag_filter);
                lemma_first_eligible_unique(hits@, i as int, k, use_tag_filter);
            }
            return Some(i);
        }
        i += 1;
    }
    None
}

/// One frame of picking. `button_held` and `just_released` describe the
/// selection button; `hits` are the objects under the cursor, nearest first
/// (empty where no ray could be cast). Returns the pose that the gizmo snaps
/// to when a target was selected.
pub fn transform_gizmo_picking(
    settings: &mut TransformGizmoSettings,
    button_held: bool,
    just_released: bool,
    hits: &Vec<PickHit>,
    use_tag_filter: bool,
) -> (r: Option<GlobalTransform>)
    ensures
        final(settings)@ == after_pick(old(settings)@, button_held, just_released, hits@, use_tag_filter),
        r == pick_result(just_released, hits@, use_tag_filter),
{
    if !button_held {
        settings.end_drag();
    }
    if !just_released {
        return None;
    }
    match nearest_pick(hits, use_tag_filter) {
        Some(i) => match hits[i].pose {
            Some(pose) => {
                settings.deselect();
                settings.select(hits[i].entity, pose);
                Some(pose)
            },
            None => None,
        },
        None => None,
    }
}

/// A frame of picking keeps the selection state consistent.
pub proof fn lemma_pick_keeps_consistency(
    state: SelectionModel,
    button_held: bool,
    just_released: bool,
    hits: Seq<PickHit>,
    use_tag_filter: bool,
)
    requires
        state.is_consistent(),
    ensures
        after_pick(state, button_held, just_released, hits, use_tag_filter).is_consistent(),
{
}

/// A pick that succeeds selects the nearest eligible hit and records its pose
/// at the moment of the hit, whatever was selected before.
pub proof fn lemma_pick_selects_hit(
    state: SelectionModel,
    button_held: bool,
    just_released: bool,
    hits: Seq<PickHit>,
    use_tag_filter: bool,
)
    requires
        pick_result(just_released, hits, use_tag_filter) is Some,
    ensures
        ({
            let i = nearest_eligible(hits, use_tag_filter).unwrap();
            let after = after_pick(state, button_held, just_released, hits, use_tag_filter);
            &&& 0 <= i < hits.len()
            &&& is_eligible(hits[i], use_tag_filter)
            &&& after.active_entity == Some(hits[i].entity)
            &&& after.origin == hits[i].pose
            &&& !after.is_dragging
        }),
{
    let i = choose|i: int| is_first_eligible(hits, i, use_tag_filter);
    assert(nearest_eligible(hits, use_tag_filter) == Some(i));
}

} // verus!
