//! Grid positions and the six cardinal directions between them.

pub mod axis3i;
pub mod direction3;
pub mod vector3i;
