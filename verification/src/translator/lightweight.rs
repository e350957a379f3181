//! A lightweight translator: translations given as a JSON object from
//! translation IDs to translations, with `{ $variable }` interpolation.
use crate::assoc::{
    find_key, has_key, keys_distinct, lemma_to_map_dom, lemma_to_map_index, lemma_to_map_push,
    lemma_to_map_update, to_map,
};
use crate::text::{replace_all, replace_str};
use crate::translator::errors::TranslatorError;
use vstd::prelude::*;

verus! {

/// The file extension used by the lightweight translator, which expects JSON
/// files.
pub const LIGHTWEIGHT_TRANSLATOR_FILE_EXT: &'static str = "json";

/// The map that a JSON object of strings to strings denotes, if the text is
/// such an object (`serde_json::from_str::<HashMap<String, String>>`).
pub uninterp spec fn json_string_map(json: Seq<char>) -> Option<Map<Seq<char>, Seq<char>>>;

/// The models of (key, value) string pairs.
pub open spec fn string_pairs(v: Seq<(String, String)>) -> Seq<(Seq<char>, Seq<char>)> {
    v.map_values(|p: (String, String)| (p.0@, p.1@))
}

/// Parses a JSON object of strings to strings
/// (`serde_json::from_str::<HashMap<String, String>>`), giving its entries
/// as pairs, or the parser's error message. The contract claims that the
/// entries are distinct by key and denote the map named by
/// [`json_string_map`], and that parsing fails exactly when that map is
/// `None`; the order of the pairs (that of a `HashMap` walk) and the error
/// message are left unsaid.
#[verifier::external_body]
fn parse_translations(json: &str) -> (r: Result<Vec<(String, String)>, String>)
    ensures
        match r {
            Ok(v) => keys_distinct(string_pairs(v@)) && json_string_map(json@) == Some(
                to_map(string_pairs(v@)),
            ),
            Err(_) => json_string_map(json@) is None,
        },
{
    match serde_json::from_str::<std::collections::HashMap<String, String>>(json) {
        Ok(map) => Ok(map.into_iter().collect()),
        Err(err) => Err(err.to_string()),
    }
}

/// A *very* simple argument interpolation system: variable names and their
/// values, in the order in which they were first set.
pub struct TranslationArgs {
    args: Vec<(String, String)>,
}

impl View for TranslationArgs {
    type V = Seq<(Seq<char>, Seq<char>)>;

    closed spec fn view(&self) -> Seq<(Seq<char>, Seq<char>)> {
        string_pairs(self.args@)
    }
}

impl TranslationArgs {
    /// The invariant: no variable is set twice.
    pub closed spec fn wf(&self) -> bool {
        keys_distinct(self@)
    }

    /// Creates an empty set of arguments.
    pub fn new() -> (r: Self)
        ensures
            r.wf(),
            r@ == Seq::<(Seq<char>, Seq<char>)>::empty(),
    {
        let r = TranslationArgs { args: Vec::new() };
        assert(string_pairs(r.args@) == Seq::<(Seq<char>, Seq<char>)>::empty());
        r
    }

    /// Sets variable `k` to `v`, returning its previous value if it had one
    /// (in which case it keeps its place in the order).
    pub fn set(&mut self, k: &str, v: &str) -> (r: Option<String>)
        requires
            old(self).wf(),
        ensures
            final(self).wf(),
            to_map(final(self)@) == to_map(old(self)@).insert(k@, v@),
            match r {
                Some(prev) => to_map(old(self)@).dom().contains(k@) && prev@ == to_map(old(self)@)[k@]
                    && final(self)@.len() == old(self)@.len(),
                None => !to_map(old(self)@).dom().contains(k@) && final(self)@ == old(self)@.push(
                    (k@, v@),
                ),
            },
    {
        let key = k.to_owned();
        let val = v.to_owned();
        let ghost ps = self@;
        match find_key(&self.args, &key) {
            Some(i) => {
                proof {
                    lemma_to_map_index(ps, i as int);
                    lemma_to_map_update(ps, i as int, v@);
                }
                let (kk, prev) = self.args.remove(i);
                self.args.insert(i, (kk, val));
                assert(self@ == ps.update(i as int, (k@, v@)));
                Some(prev)
            },
            None => {
                proof {
                    lemma_to_map_dom(ps, k@);
                    if has_key(ps, k@) {
                        let j = choose|j: int| 0 <= j < ps.len() && ps[j].0 == k@;
                        assert(self.args@[j].0@ == k@);
                    }
                    lemma_to_map_push(ps, k@, v@);
                }
                self.args.push((key, val));
                assert(self@ == ps.push((k@, v@)));
                None
            },
        }
    }

    /// Gets the value of variable `k`, if it is set.
    pub fn get(&self, k: &str) -> (r: Option<&String>)
        requires
            self.wf(),
        ensures
            match r {
                Some(v) => to_map(self@).dom().contains(k@) && v@ == to_map(self@)[k@],
                None => !to_map(self@).dom().contains(k@),
            },
    {
        let key = k.to_owned();
        let ghost ps = self@;
        proof {
            lemma_to_map_dom(ps, k@);
        }
        match find_key(&self.args, &key) {
            Some(i) => {
                proof {
                    lemma_to_map_index(ps, i as int);
                }
                Some(&self.args[i].1)
            },
            None => {
                proof {
                    if has_key(ps, k@) {
                        let j = choose|j: int| 0 <= j < ps.len() && ps[j].0 == k@;
                        assert(self.args@[j].0@ == k@);
                    }
                }
                None
            },
        }
    }
}

/// The arguments of an optional set of them, in order (none if absent).
pub open spec fn args_seq(args: Option<TranslationArgs>) -> Seq<(Seq<char>, Seq<char>)> {
    match args {
        Some(a) => a@,
        None => Seq::empty(),
    }
}

/// The placeholder for variable `k` in a translation: `{ $k }`.
pub open spec fn arg_pattern(k: Seq<char>) -> Seq<char> {
    "{ $"@ + k + " }"@
}

/// A translation with each argument interpolated in turn (every `{ $k }`
/// replaced by the value of `k`).
pub open spec fn interpolate(t: Seq<char>, args: Seq<(Seq<char>, Seq<char>)>) -> Seq<char>
    decreases args.len(),
{
    if args.len() == 0 {
        t
    } else {
        interpolate(replace_all(t, arg_pattern(args[0].0), args[0].1), args.drop_first())
    }
}

/// Gets the path to `url` in `locale`: the locale, `/`, and the URL without
/// any leading `/`.
pub open spec fn localized_url(locale: Seq<char>, url: Seq<char>) -> Seq<char> {
    locale + "/"@ + (if url.len() > 0 && url[0] == '/' {
        url.skip(1)
    } else {
        url
    })
}

/// Manages translations for a single locale, given as simple key-value pairs
/// from translation ID to translation, with `{ $variable }` syntax for
/// variables.
pub struct LightweightTranslator {
    /// The locale for which translations are being managed by this instance.
    locale: String,
    /// The pairs of translation IDs and translations.
    translations: Vec<(String, String)>,
}

/// The model of a [`LightweightTranslator`].
pub struct LightweightTranslatorView {
    pub locale: Seq<char>,
    pub translations: Map<Seq<char>, Seq<char>>,
}

impl View for LightweightTranslator {
    type V = LightweightTranslatorView;

    closed spec fn view(&self) -> LightweightTranslatorView {
        LightweightTranslatorView {
            locale: self.locale@,
            translations: to_map(string_pairs(self.translations@)),
        }
    }
}

impl LightweightTranslator {
    /// The invariant: each translation ID occurs once.
    pub closed spec fn wf(&self) -> bool {
        keys_distinct(string_pairs(self.translations@))
    }

    /// Creates a new translator for a given locale, passing in translations
    /// in JSON form. This fails if the JSON is not an object of strings.
    pub fn new(locale: String, json_string: String) -> (r: Result<Self, TranslatorError>)
        ensures
            match r {
                Ok(t) => t.wf() && t@.locale == locale@ && json_string_map(json_string@) == Some(
                    t@.translations,
                ),
                Err(TranslatorError::TranslationsStrSerFailed { locale: l, source: _ }) => l@
                    == locale@ && json_string_map(json_string@) is None,
                Err(_) => false,
            },
    {
        match parse_translations(json_string.as_str()) {
            Ok(translations) => Ok(LightweightTranslator { locale, translations }),
            Err(source) => Err(TranslatorError::TranslationsStrSerFailed { locale, source }),
        }
    }

    /// Gets the path to the given URL in whatever locale the instance is
    /// configured for (any leading `/` of the URL is dropped).
    pub fn url(&self, url: &str) -> (r: String)
        ensures
            r@ == localized_url(self@.locale, url@),
    {
        let cs = crate::text::chars_of(url);
        let rest = if cs.len() > 0 && cs[0] == '/' {
            url.substring_char(1, cs.len())
        } else {
            url
        };
        let mut r = self.locale.clone();
        r.append("/");
        r.append(rest);
        r
    }

    /// Gets the locale for which this instance is configured.
    pub fn get_locale(&self) -> (r: String)
        ensures
            r@ == self@.locale,
    {
        self.locale.clone()
    }

    /// Translates the given ID, interpolating any arguments in the order in
    /// which they were set. Fails with `TranslationIdNotFound` if the ID has
    /// no translation.
    pub fn translate_checked(&self, id: &str, args: Option<TranslationArgs>) -> (r: Result<
        String,
        TranslatorError,
    >)
        requires
            self.wf(),
        ensures
            self@.translations.dom().contains(id@) ==> (r matches Ok(t) && t@ == interpolate(
                self@.translations[id@],
                args_seq(args),
            )),
            !self@.translations.dom().contains(id@) ==> (r matches Err(
                TranslatorError::TranslationIdNotFound { id: i, locale: l },
            ) && i@ == id@ && l@ == self@.locale),
    {
        let key = id.to_owned();
        let ghost ps = string_pairs(self.translations@);
        proof {
            lemma_to_map_dom(ps, id@);
        }
        match find_key(&self.translations, &key) {
            Some(i) => {
                proof {
                    lemma_to_map_index(ps, i as int);
                }
                let mut translation = self.translations[i].1.clone();
                let ghost all = args_seq(args);
                if let Some(a) = args {
                    let mut j: usize = 0;
                    assert(all.skip(0) == all);
                    while j < a.args.len()
                        invariant
                            j <= a.args.len(),
                            all == a@,
                            interpolate(translation@, all.skip(j as int)) == interpolate(
                                self@.translations[id@],
                                all,
                            ),
                        decreases a.args.len() - j,
                    {
                        let mut pat = "{ $".to_owned();
                        pat.append(a.args[j].0.as_str());
                        pat.append(" }");
                        proof {
                            reveal_strlit("{ $");
                            assert(all.skip(j as int)[0] == all[j as int]);
                            assert(all.skip(j as int).drop_first() == all.skip(j + 1));
                        }
                        translation = replace_str(translation.as_str(), pat.as_str(), a.args[j].1.as_str());
                        j = j + 1;
                    }
                    assert(all.skip(j as int) == Seq::<(Seq<char>, Seq<char>)>::empty());
                }
                Ok(translation)
            },
            None => {
                proof {
                    if has_key(ps, id@) {
                        let j = choose|j: int| 0 <= j < ps.len() && ps[j].0 == id@;
                        assert(self.translations@[j].0@ == id@);
                    }
                }
                Err(TranslatorError::TranslationIdNotFound { locale: self.locale.clone(), id: key })
            },
        }
    }

    /// Translates the given ID, interpolating any arguments. The ID must have
    /// a translation.
    pub fn translate(&self, id: &str, args: Option<TranslationArgs>) -> (r: String)
        requires
            self.wf(),
            self@.translations.dom().contains(id@),
        ensures
            r@ == interpolate(
                self@.translations[id@],
                args_seq(args),
            ),
    {
        match self.translate_checked(id, args) {
            Ok(t) => t,
            Err(_) => String::new(),
        }
    }

    /// Gets the underlying translations, as (ID, translation) pairs with
    /// distinct IDs.
    pub fn get_bundle(&self) -> (r: &Vec<(String, String)>)
        requires
            self.wf(),
        ensures
            keys_distinct(string_pairs(r@)),
            to_map(string_pairs(r@)) == self@.translations,
    {
        &self.translations
    }
}

/// Translating an ID without arguments gives back exactly its translation.
pub proof fn law_translate_without_args(t: Seq<char>)
    ensures
        interpolate(t, Seq::empty()) == t,
{
}

/// A leading `/` makes no difference to a localized URL.
pub proof fn law_url_ignores_leading_slash(locale: Seq<char>, url: Seq<char>)
    requires
        url.len() == 0 || url[0] != '/',
    ensures
        localized_url(locale, seq!['/'] + url) == localized_url(locale, url),
{
    assert((seq!['/'] + url).skip(1) == url);
}

} // verus!
