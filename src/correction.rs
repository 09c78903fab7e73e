use vstd::prelude::*;

verus! {

/// How the service proposes to fix one misspelled range.
#[derive(Clone, Debug, Eq, PartialEq, Ord, PartialOrd, Hash, Default)]
pub enum Correction {
    /// Nothing is proposed.
    #[default]
    NoAction,
    /// The range should be removed.
    Delete,
    /// Candidate replacements, best first.
    Suggestions(Vec<String>),
    /// A single definitive replacement.
    Replacement(String),
}

/// One misspelled range of a checked text, counted in characters.
#[derive(Clone, Debug, Eq, PartialEq, Ord, PartialOrd, Hash, Default)]
pub struct SpellingError {
    pub start: usize,
    pub length: usize,
    pub correction: Correction,
}

impl SpellingError {
    /// The range lies inside a text of `len` characters.
    pub open spec fn within(&self, len: nat) -> bool {
        self.start + self.length <= len
    }
}

} // verus!
