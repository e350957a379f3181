use perseus::server::render::get_path_with_locale;
use perseus::translator::errors::TranslatorError;
use perseus::translator::{DummyTranslator, LightweightTranslator, Locales, TranslationArgs};

fn en() -> LightweightTranslator {
    LightweightTranslator::new(
        "en-US".to_string(),
        "{\"hello\": \"Hello, { $name }!\", \"bye\": \"Bye { $a } and { $b }\"}".to_string(),
    )
    .unwrap()
}

#[test]
fn translates_known_ids() {
    let t = en();
    assert_eq!(t.translate_checked("hello", None).unwrap(), "Hello, { $name }!");
    let mut args = TranslationArgs::new();
    args.set("name", "Ada");
    assert_eq!(t.translate("hello", Some(args)), "Hello, Ada!");
}

#[test]
fn interpolates_arguments_in_order() {
    let t = en();
    let mut args = TranslationArgs::new();
    assert_eq!(args.set("a", "{ $b }"), None);
    assert_eq!(args.set("b", "x"), None);
    assert_eq!(t.translate("bye", Some(args)), "Bye x and x");
}

#[test]
fn unknown_ids_are_reported() {
    let t = en();
    match t.translate_checked("missing", None) {
        Err(TranslatorError::TranslationIdNotFound { id, locale }) => {
            assert_eq!(id, "missing");
            assert_eq!(locale, "en-US");
        }
        other => panic!("unexpected {:?}", other),
    }
}

#[test]
fn invalid_json_is_reported() {
    match LightweightTranslator::new("fr-FR".to_string(), "[1, 2".to_string()) {
        Err(TranslatorError::TranslationsStrSerFailed { locale, .. }) => assert_eq!(locale, "fr-FR"),
        _ => panic!("expected a parse failure"),
    }
    assert!(LightweightTranslator::new("fr-FR".to_string(), "{\"a\": 1}".to_string()).is_err());
}

#[test]
fn localizes_urls() {
    let t = en();
    assert_eq!(t.url("/about"), "en-US/about");
    assert_eq!(t.url("about"), "en-US/about");
    assert_eq!(t.url(""), "en-US/");
    assert_eq!(t.get_locale(), "en-US");
}

#[test]
fn bundle_holds_all_translations() {
    let t = en();
    let mut b = t.get_bundle().clone();
    b.sort();
    assert_eq!(b.len(), 2);
    assert_eq!(b[0].0, "bye");
    assert_eq!(b[1].0, "hello");
}

#[test]
fn translation_args_set_and_get() {
    let mut args = TranslationArgs::new();
    assert_eq!(args.set("k", "v1"), None);
    assert_eq!(args.set("k", "v2"), Some("v1".to_string()));
    assert_eq!(args.get("k"), Some(&"v2".to_string()));
    assert_eq!(args.get("other"), None);
}

#[test]
fn dummy_translator_is_xx_xx() {
    let t = DummyTranslator::new("en-US".to_string(), String::new()).unwrap();
    assert_eq!(t.get_locale(), "xx-XX");
    let args = perseus::translator::dummy::TranslationArgs::new();
    args.set("a", "b");
}

#[test]
fn locales_are_listed_and_checked() {
    let l = Locales { default: "en-US".to_string(), other: vec!["fr-FR".to_string(), "es-ES".to_string()] };
    let all: Vec<String> = l.get_all().into_iter().cloned().collect();
    assert_eq!(all, vec!["en-US", "fr-FR", "es-ES"]);
    assert!(l.is_supported("fr-FR"));
    assert!(l.is_supported("en-US"));
    assert!(!l.is_supported("de-DE"));
}

#[test]
fn paths_get_locales_when_i18n_is_used() {
    let t = en();
    assert_eq!(get_path_with_locale("about", &t), "en-US/about");
    let x = LightweightTranslator::new("xx-XX".to_string(), "{}".to_string()).unwrap();
    assert_eq!(get_path_with_locale("about", &x), "about");
}
