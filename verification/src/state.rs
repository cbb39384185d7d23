//! The shared registry of game objects.

pub mod engine_state;
pub mod id_list;
pub mod laws;
pub mod model;
