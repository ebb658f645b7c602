//! The atoms of rules.

use vstd::prelude::*;

use super::noun::Noun;
use super::operator::Operator;
use super::property::Property;

verus! {

/// A noun, operator, or property.
#[derive(Debug, Clone, Copy, PartialEq, Eq, Structural)]
pub enum Word {
    /// A noun.
    Noun(Noun),
    /// An operator.
    Operator(Operator),
    /// A property.
    Property(Property),
}

} // verus!
