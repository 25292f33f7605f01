//! Core data and rules of a small real-time-strategy game: the sparse
//! navigation grid, the terrain seed and layout, the terrain's debug
//! wireframe toggle and the camera input actions.

pub mod input;
pub mod navmesh;
pub mod simulation;
pub mod terrain;
