//! Properties that nouns can participate in.

use vstd::prelude::*;

verus! {

/// A trait or property that can be conditionally participated in.
#[allow(non_camel_case_types)]
#[derive(Debug, Clone, Copy, PartialEq, Eq, Structural)]
pub enum Property {
    /// Controlled by player input.
    YOU,
}

} // verus!
