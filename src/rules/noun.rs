//! Categories of objects.

use vstd::prelude::*;

verus! {

/// The category of object the rule is applied to.
#[allow(non_camel_case_types)]
#[derive(Debug, Clone, Copy, PartialEq, Eq, Structural)]
pub enum Noun {
    /// All worms.
    WORM,
}

} // verus!
