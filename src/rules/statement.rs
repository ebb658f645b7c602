//! Sequences of words.

use vstd::prelude::*;

use super::word::Word;

verus! {

/// A sequence of words forming a rule.
pub struct Statement(Vec<Word>);

impl View for Statement {
    type V = Seq<Word>;

    closed spec fn view(&self) -> Seq<Word> {
        self.0@
    }
}

impl Statement {
    /// The statement made of `words`, in order.
    pub fn from_words(words: Vec<Word>) -> (r: Self)
        ensures
            r@ == words@,
    {
        Self(words)
    }

    /// The words, in order.
    pub fn words(&self) -> (r: &[Word])
        ensures
            r@ == self@,
    {
        self.0.as_slice()
    }
}

} // verus!
