//! The gizmo's selection state.
use vstd::prelude::*;
use bevy::ecs::entity::Entity;
use bevy::transform::components::GlobalTransform;

verus! {

/// Abstract value of the selection state.
pub struct SelectionModel {
    pub active_entity: Option<Entity>,
    pub is_dragging: bool,
    pub origin: Option<GlobalTransform>,
}

impl SelectionModel {
    /// A pose is recorded exactly when a target is selected, and a drag can only
    /// be in progress on a selected target.
    pub open spec fn is_consistent(self) -> bool {
        &&& self.origin.is_some() == self.active_entity.is_some()
        &&& self.is_dragging ==> self.active_entity.is_some()
    }

    /// The state with nothing selected.
    pub open spec fn empty() -> SelectionModel {
        SelectionModel { active_entity: None, is_dragging: false, origin: None }
    }

    /// The state after a drag gesture ended: the selection stays.
    pub open spec fn drag_ended(self) -> SelectionModel {
        SelectionModel { is_dragging: false, ..self }
    }

    /// The state after a drag effect was applied to the selected target, if any.
    pub open spec fn drag_applied(self) -> SelectionModel {
        SelectionModel { is_dragging: self.active_entity.is_some(), ..self }
    }

    /// The state after the per-frame existence check, where `target_exists` tells
    /// whether the selected target still resolves to a live object.
    pub open spec fn existence_checked(self, target_exists: bool) -> SelectionModel {
        if self.active_entity.is_some() && target_exists {
            self
        } else {
            SelectionModel::empty()
        }
    }

    /// The state after `target` with pose `pose` was selected.
    pub open spec fn selected(self, target: Entity, pose: GlobalTransform) -> SelectionModel {
        SelectionModel { active_entity: Some(target), is_dragging: self.is_dragging, origin: Some(pose) }
    }
}

/// The selection state of the gizmo: the picked target, its pose when it was
/// picked, and whether a handle is being dragged.
pub struct TransformGizmoSettings {
    active_entity: Option<Entity>,
    is_dragging: bool,
    origin: Option<GlobalTransform>,
}

impl View for TransformGizmoSettings {
    type V = SelectionModel;

    closed spec fn view(&self) -> SelectionModel {
        SelectionModel {
            active_entity: self.active_entity,
            is_dragging: self.is_dragging,
            origin: self.origin,
        }
    }
}

impl TransformGizmoSettings {
    #[verifier::type_invariant]
    spec fn inv(&self) -> bool {
        self@.is_consistent()
    }

    /// Empty state: nothing selected, no drag.
    pub fn new() -> (r: TransformGizmoSettings)
        ensures
            r@ == SelectionModel::empty(),
    {
        TransformGizmoSettings { active_entity: None, is_dragging: false, origin: None }
    }

    /// Whether a target is selected.
    pub fn is_active(&self) -> (r: bool)
        ensures
            r == self@.active_entity.is_some(),
            self@.is_consistent(),
    {
        proof {
            use_type_invariant(self);
        }
        self.active_entity.is_some()
    }

    /// Whether a handle is being dragged.
    pub fn is_dragging(&self) -> (r: bool)
        ensures
            r == self@.is_dragging,
    {
        self.is_dragging
    }

    /// Makes `entity` the selected target and records `origin` as its pose.
    pub fn select(&mut self, entity: Entity, origin: GlobalTransform)
        ensures
            final(self)@ == old(self)@.selected(entity, origin),
    {
        *self = TransformGizmoSettings {
            active_entity: Some(entity),
            is_dragging: self.is_dragging,
            origin: Some(origin),
        };
    }

    /// Clears the selection, the recorded pose and the drag flag together.
    pub fn deselect(&mut self)
        ensures
            final(self)@ == SelectionModel::empty(),
    {
        *self = TransformGizmoSettings { active_entity: None, is_dragging: false, origin: None };
    }

    /// The selected target, if any.
    pub fn active_entity(&self) -> (r: Option<Entity>)
        ensures
            r == self@.active_entity,
    {
        self.active_entity
    }

    /// The pose of the selected target when it was selected, if any.
    pub fn origin(&self) -> (r: Option<GlobalTransform>)
        ensures
            r == self@.origin,
    {
        self.origin
    }

    /// Ends a drag gesture; the selection is kept.
    pub fn end_drag(&mut self)
        ensures
            final(self)@ == old(self)@.drag_ended(),
    {
        proof {
            use_type_invariant(&*self);
        }
        *self = TransformGizmoSettings {
            active_entity: self.active_entity,
            is_dragging: false,
            origin: self.origin,
        };
    }

    /// Records that a drag effect was written to the selected target: a drag is
    /// then in progress, provided a target is selected.
    pub fn mark_dragging(&mut self)
        ensures
            final(self)@ == old(self)@.drag_applied(),
    {
        proof {
            use_type_invariant(&*self);
        }
        *self = TransformGizmoSettings {
            active_entity: self.active_entity,
            is_dragging: self.active_entity.is_some(),
            origin: self.origin,
        };
    }

    /// Deselects unless a target is selected and `target_exists` says that it
    /// still resolves to a live object.
    pub fn deactivate_if_missing(&mut self, target_exists: bool)
        ensures
            final(self)@ == old(self)@.existence_checked(target_exists),
    {
        if self.active_entity.is_none() || !target_exists {
            self.deselect();
        }
    }
}

impl Default for TransformGizmoSettings {
    /// Nothing selected, no drag.
    fn default() -> (r: TransformGizmoSettings)
        ensures
            r@ == SelectionModel::empty(),
    {
        TransformGizmoSettings::new()
    }
}

/// The selection state starts consistent (a pose is recorded exactly when a
/// target is selected, a drag is only in progress on a selected target), and
/// every operation on it keeps it so.
pub proof fn lemma_operations_keep_consistency(
    state: SelectionModel,
    target: Entity,
    pose: GlobalTransform,
    target_exists: bool,
)
    requires
        state.is_consistent(),
    ensures
        SelectionModel::empty().is_consistent(),
        state.selected(target, pose).is_consistent(),
        state.drag_ended().is_consistent(),
        state.drag_applied().is_consistent(),
        state.existence_checked(target_exists).is_consistent(),
{
}

/// The existence check deselects a target that no longer exists, and running
/// it again on the same scene changes nothing.
pub proof fn lemma_existence_check_idempotent(state: SelectionModel, target_exists: bool)
    ensures
        state.existence_checked(false) == SelectionModel::empty(),
        state.existence_checked(false).existence_checked(target_exists) == state.existence_checked(
            false,
        ),
        state.existence_checked(target_exists).existence_checked(target_exists)
            == state.existence_checked(target_exists),
{
}

} // verus!
