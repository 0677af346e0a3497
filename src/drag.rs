//! How a drag on each kind of handle becomes a movement of the gizmo and of
//! the selected target.
use vstd::prelude::*;
use bevy::ecs::entity::Entity;
use crate::settings::TransformGizmoSettings;

verus! {

/// The kinds of gizmo handle.
#[derive(Clone, Copy, PartialEq, Eq, Structural, Debug)]
pub enum HandleKind {
    /// An arrow that moves along one axis.
    Axis,
    /// A tile that moves within the handle's local plane.
    Plane,
    /// A tile that moves within the plane facing the camera.
    CameraPlane,
    /// A ring that rotates around the handle's up axis.
    Rotation,
}

/// A direction of the dragged handle's world frame or of the pick camera's.
#[derive(Clone, Copy, PartialEq, Eq, Structural, Debug)]
pub enum FrameDirection {
    HandleUp,
    HandleForward,
    HandleRight,
    HandleBack,
    CameraUp,
    CameraRight,
    CameraBack,
}

/// What a drag does with the vector between the two points where the cursor
/// rays meet the drag plane.
#[derive(Clone, Copy, PartialEq, Eq, Structural, Debug)]
pub enum DragEffect {
    /// Translate by the vector's projection onto one direction.
    TranslateAlong(FrameDirection),
    /// Translate by the sum of the vector's projections onto two directions.
    TranslateInPlane(FrameDirection, FrameDirection),
    /// Rotate around `axis` by the change of the angle that the direction from
    /// the handle to the cursor point makes with `reference`.
    RotateAround { axis: FrameDirection, reference: FrameDirection },
}

/// The drag plane, anchored at the handle's world position, and the effect.
#[derive(Clone, Copy, PartialEq, Eq, Structural, Debug)]
pub struct DragPlan {
    pub plane_normal: FrameDirection,
    pub effect: DragEffect,
}

/// The drag plane and effect of each kind of handle.
pub open spec fn plan_of(kind: HandleKind) -> DragPlan {
    match kind {
        HandleKind::Axis => DragPlan {
            plane_normal: FrameDirection::HandleForward,
            effect: DragEffect::TranslateAlong(FrameDirection::HandleUp),
        },
        HandleKind::Plane => DragPlan {
            plane_normal: FrameDirection::HandleUp,
            effect: DragEffect::TranslateInPlane(
                FrameDirection::HandleForward,
                FrameDirection::HandleRight,
            ),
        },
        HandleKind::CameraPlane => DragPlan {
            plane_normal: FrameDirection::CameraBack,
            effect: DragEffect::TranslateInPlane(
                FrameDirection::CameraUp,
                FrameDirection::CameraRight,
            ),
        },
        HandleKind::Rotation => DragPlan {
            plane_normal: FrameDirection::HandleUp,
            effect: DragEffect::RotateAround {
                axis: FrameDirection::HandleUp,
                reference: FrameDirection::HandleBack,
            },
        },
    }
}

/// The drag plane and effect of a handle of kind `kind`.
pub fn drag_plan(kind: HandleKind) -> (r: DragPlan)
    ensures
        r == plan_of(kind),
{
    match kind {
        HandleKind::Axis => DragPlan {
            plane_normal: FrameDirection::HandleForward,
            effect: DragEffect::TranslateAlong(FrameDirection::HandleUp),
        },
        HandleKind::Plane => DragPlan {
            plane_normal: FrameDirection::HandleUp,
            effect: DragEffect::TranslateInPlane(
                FrameDirection::HandleForward,
                FrameDirection::HandleRight,
            ),
        },
        HandleKind::CameraPlane => DragPlan {
            plane_normal: FrameDirection::CameraBack,
            effect: DragEffect::TranslateInPlane(
                FrameDirection::CameraUp,
                FrameDirection::CameraRight,
            ),
        },
        HandleKind::Rotation => DragPlan {
            plane_normal: FrameDirection::HandleUp,
            effect: DragEffect::RotateAround {
                axis: FrameDirection::HandleUp,
                reference: FrameDirection::HandleBack,
            },
        },
    }
}

/// The plan for one drag event on a handle of kind `kind`: only the primary
/// button manipulates.
pub fn plan_drag_event(kind: HandleKind, primary_button: bool) -> (r: Option<DragPlan>)
    ensures
        r == (if primary_button {
            Some(plan_of(kind))
        } else {
            None
        }),
{
    if primary_button {
        Some(drag_plan(kind))
    } else {
        None
    }
}

/// The objects that receive one drag event's movement.
#[derive(Clone, Copy)]
pub struct DragTargets {
    /// The gizmo's own frame, the dragged handle's parent.
    pub gizmo_frame: Entity,
    /// The selected target, which moves with the gizmo.
    pub target: Option<Entity>,
}

/// The objects that a drag of a handle whose parent is `gizmo_frame` moves:
/// the gizmo frame, and the selected target if there is one.
pub fn drag_targets(settings: &TransformGizmoSettings, gizmo_frame: Entity) -> (r: DragTargets)
    ensures
        r.gizmo_frame == gizmo_frame,
        r.target == settings@.active_entity,
{
    DragTargets { gizmo_frame, target: settings.active_entity() }
}

/// Ends a drag gesture: the drag flag is cleared, the selection is kept.
pub fn transform_drag_end(settings: &mut TransformGizmoSettings)
    ensures
        final(settings)@ == old(settings)@.drag_ended(),
{
    settings.end_drag();
}

} // verus!
