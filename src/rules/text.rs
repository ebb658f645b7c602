//! Physical word blocks.

use vstd::prelude::*;

use super::word::Word;

verus! {

/// A physical word block.
/// Adjacent, grammatically valid Text forms rules.
#[derive(Debug, Clone, Copy, PartialEq, Eq, Structural)]
pub struct Text {
    word: Word,
}

impl Text {
    /// A block that reads `word`.
    pub fn new(word: Word) -> (r: Self)
        ensures
            r.word() == word,
    {
        Self { word }
    }

    /// The word the block reads.
    pub closed spec fn word(self) -> Word {
        self.word
    }
}

} // verus!
