//! Geometry and identity helpers.

pub mod collision_cal;
pub mod shapes;
pub mod util_items;
