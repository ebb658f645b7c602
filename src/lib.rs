//! Grid-bound worms: a chain of adjacent cells in a 3D integer grid that
//! crawls head first and grows at its tail.

pub mod input;
pub mod rules;
pub mod spacial;
pub mod worm;
