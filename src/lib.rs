//! The decision logic of an interactive 3D transform gizmo: configuration
//! flags and modes, the subgizmo collection built from them, picking and
//! the per-frame drag state machine, and draw-list concatenation.

pub mod config;
pub mod draw;
pub mod interaction;
pub mod layout;
