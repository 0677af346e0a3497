//! Selection and manipulation logic of an interactive transform gizmo.
//!
//! The library keeps the gizmo's selection state, decides which object a
//! pointer pick selects, and says for each kind of handle how a drag is turned
//! into a translation or a rotation. The host application performs the
//! floating-point geometry and the scene queries, and hands the library the
//! plain results.
pub mod scene;
pub mod settings;
pub mod picking;
pub mod drag;
