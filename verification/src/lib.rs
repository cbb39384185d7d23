//! Runtime core of a small 2D engine: an object registry with collision
//! groups and draw layers, and a movement resolver that slows an object
//! down until its path is free.
//!
//! All quantities are fixed-point numbers, counted in thousandths (see
//! `units`). The registry (`state`) is an ordinary value: whoever owns it
//! decides how it is shared. Objects (`engine`) live inside the registry and
//! are reached by their identifiers; the frame driver (`manager`) advances
//! the movable ones in the order in which they were registered.

pub mod units;
pub mod utils;
pub mod engine;
pub mod state;
pub mod scripts;
pub mod types;
pub mod scene;
pub mod manager;
