//! Scene management and a camera for 2D games.
//!
//! [`scene`] holds the traits of live scenes and dormant states and the
//! manager that switches between them; [`registry`] is the name-keyed store
//! that the manager keeps its states in; [`laws`] states what holds across
//! several calls; [`camera`] tracks the part of the world that is in view.

pub mod camera;
pub mod laws;
pub mod registry;
pub mod scene;
