//! Errors for translators.
use vstd::prelude::*;

verus! {

/// Errors that can occur in a translator.
#[derive(Debug, PartialEq, Eq)]
pub enum TranslatorError {
    /// A translation ID was not found for a locale.
    TranslationIdNotFound { id: String, locale: String },
    /// The translations string for a locale couldn't be parsed.
    TranslationsStrSerFailed { locale: String, source: String },
    /// A locale is of invalid form.
    InvalidLocale { locale: String, source: String },
    /// Translating a message failed.
    TranslationFailed { id: String, locale: String, source: String },
    /// No translation could be derived for a message (for instance because of
    /// an invalid variant for a compound message).
    NoTranslationDerived { id: String, locale: String },
}

} // verus!
