use bevy::ecs::entity::Entity;
use bevy::transform::components::GlobalTransform;
use bevy_transform_gizmo::drag::{
    drag_plan, drag_targets, plan_drag_event, transform_drag_end, DragEffect, DragPlan,
    FrameDirection, HandleKind,
};
use bevy_transform_gizmo::settings::TransformGizmoSettings;

#[test]
fn axis_handle_moves_along_up_in_forward_plane() {
    assert_eq!(
        drag_plan(HandleKind::Axis),
        DragPlan {
            plane_normal: FrameDirection::HandleForward,
            effect: DragEffect::TranslateAlong(FrameDirection::HandleUp),
        }
    );
}

#[test]
fn plane_handle_moves_in_forward_right_plane() {
    assert_eq!(
        drag_plan(HandleKind::Plane),
        DragPlan {
            plane_normal: FrameDirection::HandleUp,
            effect: DragEffect::TranslateInPlane(
                FrameDirection::HandleForward,
                FrameDirection::HandleRight
            ),
        }
    );
}

#[test]
fn camera_plane_handle_moves_in_view_plane() {
    assert_eq!(
        drag_plan(HandleKind::CameraPlane),
        DragPlan {
            plane_normal: FrameDirection::CameraBack,
            effect: DragEffect::TranslateInPlane(
                FrameDirection::CameraUp,
                FrameDirection::CameraRight
            ),
        }
    );
}

#[test]
fn rotation_handle_turns_around_up() {
    assert_eq!(
        drag_plan(HandleKind::Rotation),
        DragPlan {
            plane_normal: FrameDirection::HandleUp,
            effect: DragEffect::RotateAround {
                axis: FrameDirection::HandleUp,
                reference: FrameDirection::HandleBack,
            },
        }
    );
}

#[test]
fn only_primary_button_drags() {
    assert_eq!(plan_drag_event(HandleKind::Axis, false), None);
    assert_eq!(plan_drag_event(HandleKind::Rotation, false), None);
    assert_eq!(
        plan_drag_event(HandleKind::Plane, true),
        Some(drag_plan(HandleKind::Plane))
    );
}

#[test]
fn drag_moves_gizmo_and_selected_target() {
    let mut s = TransformGizmoSettings::new();
    let frame = Entity::from_raw(100);
    let t = drag_targets(&s, frame);
    assert_eq!(t.gizmo_frame, frame);
    assert_eq!(t.target, None);
    s.select(Entity::from_raw(5), GlobalTransform::from_xyz(0.0, 0.0, -5.0));
    let t = drag_targets(&s, frame);
    assert_eq!(t.gizmo_frame, frame);
    assert_eq!(t.target, Some(Entity::from_raw(5)));
}

#[test]
fn drag_end_clears_drag_but_keeps_selection() {
    let mut s = TransformGizmoSettings::new();
    s.select(Entity::from_raw(5), GlobalTransform::from_xyz(0.0, 0.0, -5.0));
    s.mark_dragging();
    transform_drag_end(&mut s);
    assert!(!s.is_dragging());
    assert!(s.is_active());
    let mut empty = TransformGizmoSettings::new();
    transform_drag_end(&mut empty);
    assert!(!empty.is_dragging());
    assert!(!empty.is_active());
}
