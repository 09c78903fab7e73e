//! The decisions of a small client for the operating system's spell-checking
//! service: when the platform runtime is set up, which locales lead to a
//! checker, how a reported error's range is checked against the text, how the
//! service's corrective-action codes map to a [`Correction`], and how the
//! reported [`SpellingError`]s are collected.
mod collector;
mod correction;
mod init;
mod resolve;

pub use collector::ErrorCollector;
pub use correction::{Correction, SpellingError};
pub use init::{lemma_setup_at_most_once, setups_after, InitGuard};
pub use resolve::{
    admit_locale, error_span, resolve_action, Resolution, ACTION_DELETE, ACTION_GET_SUGGESTIONS, ACTION_NONE,
    ACTION_REPLACE,
};
