//! Game objects: what they can do, and the two kinds that exist.

pub mod resolver;
pub mod structures;
pub mod traits;
