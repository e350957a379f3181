//! A translator for apps that don't use internationalization.
use crate::translator::errors::TranslatorError;
use vstd::prelude::*;

verus! {

/// An empty file extension, because all translators must provide one.
pub const DUMMY_TRANSLATOR_FILE_EXT: &'static str = "";

/// The locale used when internationalization is disabled.
pub open spec fn dummy_locale() -> Seq<char> {
    "xx-XX"@
}

/// A dummy translator that will be used if an app doesn't use
/// internationalization. It has no capabilities whatsoever, and serves as a
/// blank API interface.
pub struct DummyTranslator;

impl DummyTranslator {
    /// Creates a new dummy translator, accepting the usual parameters for
    /// translators (which are ignored).
    pub fn new(_locale: String, _translations_string: String) -> (r: Result<Self, TranslatorError>)
        ensures
            r is Ok,
    {
        Ok(DummyTranslator)
    }

    /// Returns the `xx-XX` locale always, which is used if i18n is disabled.
    pub fn get_locale(&self) -> (r: String)
        ensures
            r@ == dummy_locale(),
    {
        "xx-XX".to_owned()
    }
}

/// A useless pseudo-map, standing in for translation arguments.
pub struct TranslationArgs;

impl TranslationArgs {
    /// Creates a new instance of this `struct`.
    pub fn new() -> (r: Self) {
        TranslationArgs
    }

    /// A filler function conforming to the usual argument-setting interface;
    /// it does nothing.
    pub fn set(&self, _key: &str, _val: &str) {
    }
}

} // verus!
