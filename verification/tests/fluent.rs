use perseus::translator::errors::TranslatorError;
use perseus::translator::fluent::{translation_outcome, TranslationArgs, Translator};

const FTL: &str = "hello = Hello!
greet = Hi, { $name }!
email =
    .placeholder = Your email
    .label = Email
";

fn translator() -> Translator {
    match Translator::new("en-US".to_string(), FTL.to_string()) {
        Ok(t) => t,
        Err(e) => panic!("{:?}", e),
    }
}

#[test]
fn simple_message_is_translated() {
    let t = translator();
    assert_eq!(t.translate_checked("hello", None), Ok("Hello!".to_string()));
    assert_eq!(t.get_locale(), "en-US");
    assert_eq!(t.url("/about"), "/en-US/about");
    assert!(t.get_bundle().has_message("hello"));
}

#[test]
fn arguments_are_interpolated() {
    let t = translator();
    let mut args = TranslationArgs::new();
    args.set("name", "Ann");
    assert_eq!(
        t.translate_checked("greet", Some(args)),
        Ok("Hi, \u{2068}Ann\u{2069}!".to_string())
    );
}

#[test]
fn missing_argument_fails_translation() {
    let t = translator();
    match t.translate_checked("greet", None) {
        Err(TranslatorError::TranslationFailed { id, locale, source }) => {
            assert_eq!(id, "greet");
            assert_eq!(locale, "en-US");
            assert!(!source.is_empty());
        }
        other => panic!("{:?}", other),
    }
}

#[test]
fn variants_of_compound_messages() {
    let t = translator();
    assert_eq!(t.translate_checked("email.label", None), Ok("Email".to_string()));
    assert_eq!(
        t.translate_checked("email.placeholder", None),
        Ok("Your email".to_string())
    );
    assert_eq!(
        t.translate_checked("email", None),
        Err(TranslatorError::TranslationFailed {
            id: "email".to_string(),
            locale: "en-US".to_string(),
            source: "no variant provided for compound message".to_string(),
        })
    );
    assert_eq!(
        t.translate_checked("email.missing", None),
        Err(TranslatorError::NoTranslationDerived {
            id: "email".to_string(),
            locale: "en-US".to_string(),
        })
    );
    // A variant on a message with a value is ignored.
    assert_eq!(t.translate_checked("hello.x", None), Ok("Hello!".to_string()));
}

#[test]
fn unknown_id_is_not_found() {
    let t = translator();
    assert_eq!(
        t.translate_checked("nope.x", None),
        Err(TranslatorError::TranslationIdNotFound {
            id: "nope".to_string(),
            locale: "en-US".to_string(),
        })
    );
}

#[test]
fn invalid_translations_and_locales_are_errors() {
    assert!(matches!(
        Translator::new("en-US".to_string(), "= broken".to_string()),
        Err(TranslatorError::TranslationsStrSerFailed { ref locale, .. }) if locale == "en-US"
    ));
    assert!(matches!(
        Translator::new("not a locale!".to_string(), "hello = Hi".to_string()),
        Err(TranslatorError::InvalidLocale { ref locale, .. }) if locale == "not a locale!"
    ));
    assert!(matches!(
        Translator::new("en-US".to_string(), "hello = Hi\nhello = Again".to_string()),
        Err(TranslatorError::TranslationsStrSerFailed { .. })
    ));
}

#[test]
fn outcome_of_formatting() {
    assert_eq!(
        translation_outcome("a", "en-US", Some(("text".to_string(), vec![]))),
        Ok("text".to_string())
    );
    assert_eq!(
        translation_outcome(
            "a",
            "en-US",
            Some(("text".to_string(), vec!["one; ".to_string(), "two".to_string()]))
        ),
        Err(TranslatorError::TranslationFailed {
            id: "a".to_string(),
            locale: "en-US".to_string(),
            source: "one; two".to_string(),
        })
    );
    assert_eq!(
        translation_outcome("a", "en-US", None),
        Err(TranslatorError::NoTranslationDerived {
            id: "a".to_string(),
            locale: "en-US".to_string(),
        })
    );
}

#[test]
fn number_arguments_are_interpolated() {
    let t = Translator::new("en-US".to_string(), "count = You have { $n } items".to_string()).unwrap();
    let mut args = TranslationArgs::new();
    args.set_number("n", 3);
    assert_eq!(
        t.translate_checked("count", Some(args)),
        Ok("You have \u{2068}3\u{2069} items".to_string())
    );
}

#[test]
fn variant_of_a_compound_message_without_value() {
    let t = Translator::new(
        "en-US".to_string(),
        "greeting =\n    .formal = Good day\n    .casual = Hi\n".to_string(),
    )
    .unwrap();
    assert_eq!(t.translate_checked("greeting.casual", None), Ok("Hi".to_string()));
    assert_eq!(t.translate_checked("greeting.formal", None), Ok("Good day".to_string()));
}

#[test]
fn more_than_one_dot_is_an_error() {
    let t = Translator::new(
        "en-US".to_string(),
        "greeting =\n    .formal = Good day\n    .casual = Hi\n".to_string(),
    )
    .unwrap();
    assert_eq!(
        t.translate_checked("greeting.casual.extra", None),
        Err(TranslatorError::TranslationFailed {
            id: "greeting.casual.extra".to_string(),
            locale: "en-US".to_string(),
            source: "more than one '.' in translation id".to_string(),
        })
    );
    assert!(t.translate_checked("hello.x.y", None).is_err());
    assert_eq!(
        t.translate_checked("nope.a.b", None),
        Err(TranslatorError::TranslationIdNotFound {
            id: "nope".to_string(),
            locale: "en-US".to_string(),
        })
    );
}

#[test]
fn repeated_ids_of_messages_and_terms_are_refused() {
    assert!(matches!(
        Translator::new("en-US".to_string(), "-brand = Acme\nbrand = Acme Inc.".to_string()),
        Err(TranslatorError::TranslationsStrSerFailed { ref locale, .. }) if locale == "en-US"
    ));
    let t = Translator::new("en-US".to_string(), "-brand = Acme\nabout = About { -brand }".to_string()).unwrap();
    assert_eq!(t.translate_checked("about", None), Ok("About Acme".to_string()));
}
