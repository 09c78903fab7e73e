use crate::correction::Correction;
use vstd::prelude::*;
use vstd::string::*;

verus! {

/// The service's code for "no correction".
pub const ACTION_NONE: i32 = 0;

/// The service's code for "ask for suggestions".
pub const ACTION_GET_SUGGESTIONS: i32 = 1;

/// The service's code for "replace with the proposed text".
pub const ACTION_REPLACE: i32 = 2;

/// The service's code for "delete the range".
pub const ACTION_DELETE: i32 = 3;

/// What remains to be done for one reported error once its action code is known.
#[derive(Debug, PartialEq, Eq)]
pub enum Resolution {
    /// The correction is known already.
    Done(Correction),
    /// Suggestions must be fetched for this word.
    Suggest(String),
    /// The replacement text must be read from the error.
    Replace,
}

/// Whether a checker is created after the service was asked about a locale:
/// only when the question was answered, and answered yes.
pub fn admit_locale(supported: Option<bool>) -> (r: bool)
    ensures
        r == (supported == Some(true)),
{
    match supported {
        Some(b) => b,
        None => false,
    }
}

/// Checks a reported range against a text and widens it to `usize`.
/// The range is accepted exactly when it lies inside the text's characters.
pub fn error_span(text: &str, start: u32, length: u32) -> (r: Option<(usize, usize)>)
    ensures
        r == (if start as nat + length as nat <= text@.len() {
            Some((start as usize, length as usize))
        } else {
            None::<(usize, usize)>
        }),
{
    let len = text.unicode_len();
    let s = start as usize;
    let l = length as usize;
    if s <= len && l <= len - s {
        Some((s, l))
    } else {
        None
    }
}

/// Maps the service's corrective-action code to the correction it stands for,
/// or to the fetch that is still needed: the word of the range for suggestions,
/// or the replacement text.
pub fn resolve_action(text: &str, start: usize, length: usize, code: i32) -> (r: Resolution)
    requires
        start + length <= text@.len(),
    ensures
        code == ACTION_DELETE ==> r == Resolution::Done(Correction::Delete),
        code == ACTION_GET_SUGGESTIONS ==> (r matches Resolution::Suggest(w) && w@
            == text@.subrange(start as int, start + length)),
        code == ACTION_REPLACE ==> r == Resolution::Replace,
        code != ACTION_DELETE && code != ACTION_GET_SUGGESTIONS && code != ACTION_REPLACE ==> r
            == Resolution::Done(Correction::NoAction),
{
    if code == ACTION_DELETE {
        Resolution::Done(Correction::Delete)
    } else if code == ACTION_GET_SUGGESTIONS {
        // The character count is a `usize`, so the end of the range fits in one.
        let _count = text.unicode_len();
        let word = text.substring_char(start, start + length);
        Resolution::Suggest(String::from_str(word))
    } else if code == ACTION_REPLACE {
        Resolution::Replace
    } else {
        Resolution::Done(Correction::NoAction)
    }
}

} // verus!
