//! A translator for a single locale using Mozilla's Fluent syntax. Compound
//! messages have many variants, which are asked for as `[id].[variant]` in a
//! translation ID.
use crate::text::{join, join_strings, split_from, split_on, split_string, views};
use crate::translator::errors::TranslatorError;
use fluent_bundle::bundle::FluentBundle;
use fluent_bundle::{FluentArgs, FluentResource};
use intl_memoizer::IntlLangMemoizer;
use std::rc::Rc;
use unic_langid::LanguageIdentifier;
use vstd::prelude::*;

verus! {

/// The file extension of Fluent translations.
pub const FLUENT_TRANSLATOR_FILE_EXT: &'static str = "ftl";

/// A Fluent bundle: the messages of a locale.
#[verifier::external_type_specification]
#[verifier::external_body]
#[verifier::reject_recursive_types(R)]
#[verifier::reject_recursive_types(M)]
pub struct ExFluentBundle<R, M>(FluentBundle<R, M>);

/// A parsed Fluent resource.
#[verifier::external_type_specification]
#[verifier::external_body]
pub struct ExFluentResource(FluentResource);

/// The memoizer of a bundle's formatters.
#[verifier::external_type_specification]
#[verifier::external_body]
pub struct ExIntlLangMemoizer(IntlLangMemoizer);

/// A language identifier.
#[verifier::external_type_specification]
#[verifier::external_body]
pub struct ExLanguageIdentifier(LanguageIdentifier);

/// The bundle type of a translator.
pub type Bundle = FluentBundle<FluentResource, IntlLangMemoizer>;

/// Messages by ID: whether each has a value, and the IDs of its attributes
/// (variants) in order.
pub type Messages = Map<Seq<char>, (bool, Seq<Seq<char>>)>;

/// What `FluentResource::try_new` gives for `ftl`: the messages of the
/// parsed resource and the IDs of its messages and terms in order, or the
/// parser's error messages, one after the other.
pub uninterp spec fn ftl_parsed(ftl: Seq<char>) -> Result<(Messages, Seq<Seq<char>>), Seq<char>>;

/// The messages a parsed resource holds.
pub uninterp spec fn resource_messages(r: FluentResource) -> Messages;

/// The IDs of the messages and terms a parsed resource holds, in order
/// (terms by their name without the leading `-`, as the bundle keys them).
pub uninterp spec fn resource_ids(r: FluentResource) -> Seq<Seq<char>>;

/// What parsing `locale` as a `unic_langid::LanguageIdentifier` gives:
/// `None` where it is valid, else the error message.
pub uninterp spec fn langid_parse_outcome(locale: Seq<char>) -> Option<Seq<char>>;

/// The messages a bundle holds.
pub uninterp spec fn bundle_messages(b: Bundle) -> Messages;

/// The IDs of the messages and terms a bundle holds (they share one space).
pub uninterp spec fn bundle_ids(b: Bundle) -> Set<Seq<char>>;

/// The type of what parsing FTL gives.
pub type Parsed = Result<(Messages, Seq<Seq<char>>), Seq<char>>;

/// Parses FTL with `FluentResource::try_new`; on failure, gives the parser
/// errors' messages joined together. Trusted: the resource's messages and
/// IDs, or the failure and its message, are `ftl_parsed` of the source.
#[verifier::external_body]
fn parse_resource(ftl: String) -> (r: Result<FluentResource, String>)
    ensures
        match r {
            Ok(res) => ftl_parsed(ftl@) == Parsed::Ok((resource_messages(res), resource_ids(res))),
            Err(m) => ftl_parsed(ftl@) == Parsed::Err(m@),
        },
{
    match FluentResource::try_new(ftl) {
        Ok(res) => Ok(res),
        Err((_, errs)) => Err(errs.iter().map(|e| e.to_string()).collect()),
    }
}

/// Parses a locale with `str::parse::<LanguageIdentifier>`. Trusted:
/// failure, and its message, are `langid_parse_outcome` of the locale.
#[verifier::external_body]
fn parse_langid(locale: &str) -> (r: Result<LanguageIdentifier, String>)
    ensures
        match r {
            Ok(_) => langid_parse_outcome(locale@) is None,
            Err(m) => langid_parse_outcome(locale@) == Some(m@),
        },
{
    match locale.parse::<LanguageIdentifier>() {
        Ok(lang) => Ok(lang),
        Err(e) => Err(e.to_string()),
    }
}

/// A new bundle for the locale (`FluentBundle::new`). Trusted: it holds no
/// messages nor terms, as its source shows (its entries start empty).
#[verifier::external_body]
fn new_bundle(lang: LanguageIdentifier) -> (r: Bundle)
    ensures
        bundle_messages(r).dom() == Set::<Seq<char>>::empty(),
        bundle_ids(r) == Set::<Seq<char>>::empty(),
{
    FluentBundle::new(vec![lang])
}

/// Adds a resource to a bundle (`FluentBundle::add_resource`); on failure,
/// gives the errors' messages joined together. Trusted, as its source shows:
/// it fails exactly when an ID of the resource's messages and terms repeats
/// in the resource or is already in the bundle; where it succeeds, the bundle
/// then holds its messages and the resource's, and its IDs and the
/// resource's. What the bundle holds after a failure is not claimed.
#[verifier::external_body]
fn add_resource(b: &mut Bundle, res: FluentResource) -> (r: Result<(), String>)
    ensures
        r is Ok <==> (resource_ids(res).no_duplicates() && forall|i: int|
            0 <= i < resource_ids(res).len() ==> !bundle_ids(*old(b)).contains(#[trigger] resource_ids(res)[i])),
        r is Ok ==> bundle_messages(*final(b)) == bundle_messages(*old(b)).union_prefer_right(
            resource_messages(res),
        ),
        r is Ok ==> bundle_ids(*final(b)) == bundle_ids(*old(b)) + resource_ids(res).to_set(),
{
    match b.add_resource(res) {
        Ok(()) => Ok(()),
        Err(errs) => Err(errs.iter().map(|e| e.to_string()).collect()),
    }
}

/// The shape of the message `id` (`FluentBundle::get_message`): whether it
/// has a value, and its attributes' IDs in order. Trusted: this is what
/// `bundle_messages` holds for the ID.
#[verifier::external_body]
fn message_shape(b: &Bundle, id: &str) -> (r: Option<(bool, Vec<String>)>)
    ensures
        match r {
            Some((has_value, attrs)) => bundle_messages(*b).dom().contains(id@) && bundle_messages(*b)[id@]
                == (has_value, views(attrs@)),
            None => !bundle_messages(*b).dom().contains(id@),
        },
{
    b.get_message(id).map(|m| (m.value().is_some(), m.attributes().map(|a| a.id().to_string()).collect()))
}

/// A value of an argument to a message: a string or an integer.
#[derive(Debug, Clone)]
pub enum ArgValue {
    Str(String),
    Int(i64),
}

/// The model of an argument's value.
pub enum ArgView {
    Str(Seq<char>),
    Int(i64),
}

impl View for ArgValue {
    type V = ArgView;

    open spec fn view(&self) -> ArgView {
        match self {
            ArgValue::Str(s) => ArgView::Str(s@),
            ArgValue::Int(n) => ArgView::Int(*n),
        }
    }
}

/// Arguments to interpolate into a message, in the order they were set
/// (a later setting of a name replaces an earlier one when formatting).
#[derive(Debug, Clone)]
pub struct TranslationArgs {
    args: Vec<(String, ArgValue)>,
}

impl View for TranslationArgs {
    type V = Seq<(Seq<char>, ArgView)>;

    closed spec fn view(&self) -> Seq<(Seq<char>, ArgView)> {
        self.args@.map_values(|p: (String, ArgValue)| (p.0@, p.1@))
    }
}

impl TranslationArgs {
    /// Creates an empty set of arguments.
    pub fn new() -> (r: Self)
        ensures
            r@ == Seq::<(Seq<char>, ArgView)>::empty(),
    {
        let r = TranslationArgs { args: Vec::new() };
        assert(r@ =~= Seq::<(Seq<char>, ArgView)>::empty());
        r
    }

    /// Sets a string argument.
    pub fn set(&mut self, key: &str, value: &str)
        ensures
            final(self)@ == old(self)@.push((key@, ArgView::Str(value@))),
    {
        self.args.push((key.to_owned(), ArgValue::Str(value.to_owned())));
        assert(self@ =~= old(self)@.push((key@, ArgView::Str(value@))));
    }

    /// Sets an integer argument.
    pub fn set_number(&mut self, key: &str, value: i64)
        ensures
            final(self)@ == old(self)@.push((key@, ArgView::Int(value))),
    {
        self.args.push((key.to_owned(), ArgValue::Int(value)));
        assert(self@ =~= old(self)@.push((key@, ArgView::Int(value))));
    }
}

/// The arguments handed to formatting: none for `None`.
pub open spec fn args_seq(args: Option<TranslationArgs>) -> Seq<(Seq<char>, ArgView)> {
    match args {
        Some(a) => a@,
        None => Seq::empty(),
    }
}

/// What formatting gives, in a bundle for `locale` made from the FTL source
/// `ftl`, for the message `id` (its value, or the first of its attributes
/// named `attr`) with the arguments `args` set in order: the text, and the
/// messages of the errors met.
pub uninterp spec fn fluent_format(
    ftl: Seq<char>,
    locale: Seq<char>,
    id: Seq<char>,
    attr: Option<Seq<char>>,
    args: Seq<(Seq<char>, ArgView)>,
) -> (Seq<char>, Seq<Seq<char>>);

/// Formats the value of the message `id` of a translator's bundle with
/// `FluentBundle::format_pattern`, giving the text and the messages of the
/// errors met. Trusted: a translator's bundle is made by `Translator::new`
/// (its only constructor, and never changed after) from its FTL source and
/// locale, so the result is `fluent_format` of those, the ID and the
/// arguments.
#[verifier::external_body]
fn format_value(t: &Translator, id: &str, args: &Option<TranslationArgs>) -> (r: (String, Vec<String>))
    requires
        t.messages().dom().contains(id@),
        t.messages()[id@].0,
    ensures
        (r.0@, views(r.1@)) == fluent_format(t.ftl_source(), t.locale_view(), id@, None, args_seq(*args)),
{
    let mut fa = FluentArgs::new();
    for (k, v) in args.iter().flat_map(|a| a.args.iter()) {
        match v {
            ArgValue::Str(s) => fa.set(k.as_str(), s.as_str()),
            ArgValue::Int(n) => fa.set(k.as_str(), *n),
        }
    }
    let mut errors = Vec::new();
    let value = t.bundle.get_message(id).unwrap().value().unwrap();
    let text = t.bundle.format_pattern(value, Some(&fa), &mut errors).to_string();
    (text, errors.iter().map(|e| e.to_string()).collect())
}

/// Formats the `index`-th attribute of the message `id` of a translator's
/// bundle (the first of its name) with `FluentBundle::format_pattern`,
/// giving the text and the messages of the errors met. Trusted as
/// `format_value` is: the result is `fluent_format` for that attribute.
#[verifier::external_body]
fn format_attribute(t: &Translator, id: &str, index: usize, args: &Option<TranslationArgs>) -> (r: (
    String,
    Vec<String>,
))
    requires
        t.messages().dom().contains(id@),
        index < t.messages()[id@].1.len(),
        forall|j: int| 0 <= j < index ==> t.messages()[id@].1[j] != t.messages()[id@].1[index as int],
    ensures
        (r.0@, views(r.1@)) == fluent_format(
            t.ftl_source(),
            t.locale_view(),
            id@,
            Some(t.messages()[id@].1[index as int]),
            args_seq(*args),
        ),
{
    let mut fa = FluentArgs::new();
    for (k, v) in args.iter().flat_map(|a| a.args.iter()) {
        match v {
            ArgValue::Str(s) => fa.set(k.as_str(), s.as_str()),
            ArgValue::Int(n) => fa.set(k.as_str(), *n),
        }
    }
    let mut errors = Vec::new();
    let attr = t.bundle.get_message(id).unwrap().attributes().nth(index).unwrap();
    let text = t.bundle.format_pattern(attr.value(), Some(&fa), &mut errors).to_string();
    (text, errors.iter().map(|e| e.to_string()).collect())
}

/// Another pointer to the same bundle (`Rc::clone`).
#[verifier::external_body]
fn share_bundle(b: &Rc<Bundle>) -> (r: Rc<Bundle>)
    ensures
        r == *b,
{
    Rc::clone(b)
}

/// The part of a translation ID before the first `.` (the message).
pub open spec fn message_id(id: Seq<char>) -> Seq<char> {
    split_on(id, '.')[0]
}

/// The part of a translation ID after the first `.` and up to the next one
/// (the variant), if there is one.
pub open spec fn variant_id(id: Seq<char>) -> Option<Seq<char>> {
    let pieces = split_on(id, '.');
    if pieces.len() > 1 {
        Some(pieces[1])
    } else {
        None
    }
}

/// The position of the first attribute named `v`, if any.
pub open spec fn attribute_index(attrs: Seq<Seq<char>>, v: Seq<char>) -> Option<int> {
    if exists|i: int| 0 <= i < attrs.len() && attrs[i] == v {
        Some(choose|i: int| 0 <= i < attrs.len() && attrs[i] == v && forall|j: int| 0 <= j < i ==> attrs[j] != v)
    } else {
        None
    }
}

/// The model of what formatting gave: the text and the error messages.
pub open spec fn formatted_view(f: Option<(String, Vec<String>)>) -> Option<(Seq<char>, Seq<Seq<char>>)> {
    match f {
        Some((text, errors)) => Some((text@, views(errors@))),
        None => None,
    }
}

/// What a formatted message gives: its text, unless errors were met in
/// formatting it (their messages, one after the other, are the error's
/// source); no translation where nothing was formatted.
pub open spec fn translation_outcome_spec(
    id: Seq<char>,
    locale: Seq<char>,
    formatted: Option<(Seq<char>, Seq<Seq<char>>)>,
    r: Result<String, TranslatorError>,
) -> bool {
    match formatted {
        Some((text, errors)) => if errors.len() > 0 {
            r matches Err(TranslatorError::TranslationFailed { id: i, locale: l, source: s }) && i@ == id && l@
                == locale && s@ == join(errors, ""@)
        } else {
            r matches Ok(t) && t@ == text
        },
        None => r matches Err(TranslatorError::NoTranslationDerived { id: i, locale: l }) && i@ == id && l@ == locale,
    }
}

/// Settles the result of translating, given what formatting the message gave (`None`
/// where no variant matched).
pub fn translation_outcome(id: &str, locale: &str, formatted: Option<(String, Vec<String>)>) -> (r: Result<
    String,
    TranslatorError,
>)
    ensures
        translation_outcome_spec(id@, locale@, formatted_view(formatted), r),
{
    match formatted {
        Some((text, errors)) => if errors.len() > 0 {
            Err(
                TranslatorError::TranslationFailed {
                    id: id.to_owned(),
                    locale: locale.to_owned(),
                    source: join_strings(&errors, ""),
                },
            )
        } else {
            Ok(text)
        },
        None => Err(TranslatorError::NoTranslationDerived { id: id.to_owned(), locale: locale.to_owned() }),
    }
}

/// Manages translations for a single locale using Fluent.
pub struct Translator {
    /// The Fluent data for translating, which owns its resources.
    bundle: Rc<Bundle>,
    /// The locale for which translations are being managed.
    locale: String,
    /// The FTL source the bundle was made from.
    ftl: Ghost<Seq<char>>,
}

impl Translator {
    /// The locale of the translator.
    pub closed spec fn locale_view(&self) -> Seq<char> {
        self.locale@
    }

    /// The messages of the translator.
    pub closed spec fn messages(&self) -> Messages {
        bundle_messages(*self.bundle)
    }

    /// The FTL source the translator was made from.
    pub closed spec fn ftl_source(&self) -> Seq<char> {
        self.ftl@
    }

    /// Creates a translator for a locale from translations in FTL syntax:
    /// translations that don't parse, or a locale that isn't valid, are
    /// errors, and so are translations in which an ID of a message or term
    /// occurs twice (the bundle refuses them).
    pub fn new(locale: String, ftl_string: String) -> (r: Result<Translator, TranslatorError>)
        ensures
            ftl_parsed(ftl_string@) matches Err(m) ==> (r matches Err(
                TranslatorError::TranslationsStrSerFailed { locale: l, source: s },
            ) && l == locale && s@ == m),
            ftl_parsed(ftl_string@) is Ok ==> (langid_parse_outcome(locale@) matches Some(m) ==> (r matches Err(
                TranslatorError::InvalidLocale { locale: l, source: s },
            ) && l == locale && s@ == m)),
            langid_parse_outcome(locale@) is None ==> match ftl_parsed(ftl_string@) {
                Ok((msgs, ids)) => match r {
                    Ok(t) => ids.no_duplicates() && t.locale_view() == locale@ && t.ftl_source() == ftl_string@
                        && t.messages() == msgs,
                    Err(e) => !ids.no_duplicates() && (e matches TranslatorError::TranslationsStrSerFailed {
                        locale: l,
                        ..
                    } && l == locale),
                },
                Err(_) => true,
            },
    {
        let ghost source = ftl_string@;
        let resource = match parse_resource(ftl_string) {
            Ok(res) => res,
            Err(m) => {
                return Err(TranslatorError::TranslationsStrSerFailed { locale, source: m });
            },
        };
        let lang = match parse_langid(locale.as_str()) {
            Ok(lang) => lang,
            Err(m) => {
                return Err(TranslatorError::InvalidLocale { locale, source: m });
            },
        };
        let mut bundle = new_bundle(lang);
        let ghost empty = bundle_messages(bundle);
        match add_resource(&mut bundle, resource) {
            Ok(()) => {},
            Err(m) => {
                return Err(TranslatorError::TranslationsStrSerFailed { locale, source: m });
            },
        }
        assert(empty.union_prefer_right(resource_messages(resource)) =~= resource_messages(resource));
        Ok(Translator { bundle: Rc::new(bundle), locale, ftl: Ghost(source) })
    }

    /// Gets the path to the given URL in the locale of the translator.
    pub fn url(&self, url: &str) -> (r: String)
        ensures
            r@ == "/"@ + self.locale_view() + url@,
    {
        let mut r = "/".to_owned();
        r.append(self.locale.as_str());
        r.append(url);
        r
    }

    /// Gets the locale for which this translator is configured.
    pub fn get_locale(&self) -> (r: String)
        ensures
            r@ == self.locale_view(),
    {
        self.locale.clone()
    }

    /// Translates the given ID, interpolating `args`. A compound message (one
    /// without a value of its own) asks for a variant, given after a `.` in
    /// the ID; the first attribute of that name is formatted. An ID with more
    /// than one `.` is an error, once its message is found. The messages of the
    /// bundle decide which error, if any, comes; where something is formatted,
    /// the result is settled from what formatting gave, as
    /// `translation_outcome` does.
    pub fn translate_checked(&self, id: &str, args: Option<TranslationArgs>) -> (r: Result<String, TranslatorError>)
        ensures
            ({
                let mid = message_id(id@);
                let msgs = self.messages();
                let loc = self.locale_view();
                if !msgs.dom().contains(mid) {
                    r matches Err(TranslatorError::TranslationIdNotFound { id: i, locale: l }) && i@ == mid && l@
                        == loc
                } else if split_on(id@, '.').len() > 2 {
                    r matches Err(TranslatorError::TranslationFailed { id: i, locale: l, source: s }) && i@ == id@
                        && l@ == loc && s@ == "more than one '.' in translation id"@
                } else if msgs[mid].0 {
                    translation_outcome_spec(
                        mid,
                        loc,
                        Some(fluent_format(self.ftl_source(), loc, mid, None, args_seq(args))),
                        r,
                    )
                } else {
                    match variant_id(id@) {
                        None => r matches Err(TranslatorError::TranslationFailed { id: i, locale: l, source: s })
                            && i@ == mid && l@ == loc && s@ == "no variant provided for compound message"@,
                        Some(v) => match attribute_index(msgs[mid].1, v) {
                            None => translation_outcome_spec(mid, loc, None, r),
                            Some(_) => translation_outcome_spec(
                                mid,
                                loc,
                                Some(fluent_format(self.ftl_source(), loc, mid, Some(v), args_seq(args))),
                                r,
                            ),
                        },
                    }
                }
            }),
    {
        let pieces = split_string(id, '.');
        let ghost pv = pieces@.map_values(|p: String| p@);
        proof {
            lemma_split_nonempty(id@, '.');
        }
        assert(pv[0] == pieces@[0]@);
        let id_str = pieces[0].clone();
        let shape = message_shape(&self.bundle, id_str.as_str());
        let (has_value, attrs) = match shape {
            Some(s) => s,
            None => {
                return Err(
                    TranslatorError::TranslationIdNotFound { id: id_str, locale: self.locale.clone() },
                );
            },
        };
        assert(id_str@ == message_id(id@));
        if pieces.len() > 2 {
            let source = "more than one '.' in translation id".to_owned();
            return Err(TranslatorError::TranslationFailed { id: id.to_owned(), locale: self.locale.clone(), source });
        }
        if has_value {
            let f = format_value(self, id_str.as_str(), &args);
            return translation_outcome(id_str.as_str(), self.locale.as_str(), Some(f));
        }
        if pieces.len() < 2 {
            let source = "no variant provided for compound message".to_owned();
            return Err(TranslatorError::TranslationFailed { id: id_str, locale: self.locale.clone(), source });
        }
        assert(pv[1] == pieces@[1]@);
        let variant = &pieces[1];
        assert(variant_id(id@) == Some(variant@));
        let ghost av = views(attrs@);
        let mut i: usize = 0;
        while i < attrs.len()
            invariant
                i <= attrs.len(),
                av == views(attrs@),
                id_str@ == message_id(id@),
                self.messages().dom().contains(id_str@),
                self.messages()[id_str@].1 == av,
                !self.messages()[id_str@].0,
                variant_id(id@) == Some(variant@),
                split_on(id@, '.').len() <= 2,
                forall|j: int| 0 <= j < i ==> av[j] != variant@,
            decreases attrs.len() - i,
        {
            assert(av[i as int] == attrs@[i as int]@);
            if attrs[i] == *variant {
                proof {
                    lemma_first_index(av, variant@, i as int);
                }
                let f = format_attribute(self, id_str.as_str(), i, &args);
                return translation_outcome(id_str.as_str(), self.locale.as_str(), Some(f));
            }
            i = i + 1;
        }
        translation_outcome(id_str.as_str(), self.locale.as_str(), None)
    }

    /// Gets the Fluent bundle for more advanced translation requirements.
    pub fn get_bundle(&self) -> (r: Rc<Bundle>)
        ensures
            bundle_messages(*r) == self.messages(),
    {
        share_bundle(&self.bundle)
    }
}

/// A split always has a first piece.
proof fn lemma_split_nonempty(s: Seq<char>, c: char)
    ensures
        split_on(s, c).len() > 0,
{
    lemma_split_from_nonempty(s, c, Seq::empty());
}

proof fn lemma_split_from_nonempty(s: Seq<char>, c: char, cur: Seq<char>)
    ensures
        split_from(s, c, cur).len() > 0,
    decreases s.len(),
{
    if s.len() > 0 && s[0] != c {
        lemma_split_from_nonempty(s.skip(1), c, cur.push(s[0]));
    }
}

/// The first position holding `v` is the attribute index.
proof fn lemma_first_index(attrs: Seq<Seq<char>>, v: Seq<char>, i: int)
    requires
        0 <= i < attrs.len(),
        attrs[i] == v,
        forall|j: int| 0 <= j < i ==> attrs[j] != v,
    ensures
        attribute_index(attrs, v) == Some(i),
{
    let k = choose|k: int| 0 <= k < attrs.len() && attrs[k] == v && forall|j: int| 0 <= j < k ==> attrs[j] != v;
    assert(k == i) by {
        if k < i {
            assert(attrs[k] != v);
        }
        if i < k {
            assert(attrs[i] != v);
        }
    }
}

} // verus!
