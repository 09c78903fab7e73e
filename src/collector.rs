use crate::correction::{Correction, SpellingError};
use vstd::prelude::*;
use vstd::string::*;

verus! {

/// The errors found so far in one text, in the order the service reported them.
/// Every range it holds lies inside the text's characters.
pub struct ErrorCollector {
    len: usize,
    errors: Vec<SpellingError>,
}

impl ErrorCollector {
    /// The errors collected so far.
    pub closed spec fn view(&self) -> Seq<SpellingError> {
        self.errors@
    }

    /// The number of characters of the text being checked.
    pub closed spec fn text_len(&self) -> nat {
        self.len as nat
    }

    pub closed spec fn wf(&self) -> bool {
        forall|i: int| 0 <= i < self.errors@.len() ==> (#[trigger] self.errors@[i]).within(self.len as nat)
    }

    /// An empty collection for the errors of `text`.
    pub fn new(text: &str) -> (r: ErrorCollector)
        ensures
            r.wf(),
            r@ == Seq::<SpellingError>::empty(),
            r.text_len() == text@.len(),
    {
        ErrorCollector { len: text.unicode_len(), errors: Vec::new() }
    }

    /// Appends an error when its range lies inside the text, and says whether it did;
    /// a range that reaches past the end is refused and nothing changes.
    pub fn push(&mut self, start: usize, length: usize, correction: Correction) -> (added: bool)
        requires
            old(self).wf(),
        ensures
            final(self).wf(),
            final(self).text_len() == old(self).text_len(),
            added == (start + length <= old(self).text_len()),
            added ==> final(self)@ == old(self)@.push(
                SpellingError { start, length, correction },
            ),
            !added ==> final(self)@ == old(self)@,
    {
        if start <= self.len && length <= self.len - start {
            let e = SpellingError { start, length, correction };
            self.errors.push(e);
            assert(forall|i: int|
                0 <= i < self.errors@.len() ==> (#[trigger] self.errors@[i]).within(self.len as nat));
            true
        } else {
            false
        }
    }

    /// The collected errors, each inside the text.
    pub fn into_errors(self) -> (r: Vec<SpellingError>)
        requires
            self.wf(),
        ensures
            r@ == self@,
            forall|i: int| 0 <= i < r@.len() ==> (#[trigger] r@[i]).within(self.text_len()),
    {
        self.errors
    }
}

} // verus!
