//! Translators: the dummy translator for apps without internationalization,
//! the Fluent translator, the lightweight JSON-based translator, their errors, and the locales an app
//! supports.
pub mod dummy;
pub mod errors;
pub mod fluent;
pub mod lightweight;
pub mod locales;

pub use dummy::DummyTranslator;
pub use lightweight::{LightweightTranslator, TranslationArgs};
pub use locales::Locales;
