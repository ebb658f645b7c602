//! The three axes of rotation of the grid.

use vstd::prelude::*;

verus! {

/// An axis that a rotation of the grid keeps fixed.
#[derive(Debug, Clone, Copy, PartialEq, Eq, Structural)]
pub enum Axis3i {
    /// y and z change while x does not.
    AroundX,
    /// x and z change while y does not.
    AroundY,
    /// x and y change while z does not.
    AroundZ,
}

} // verus!
