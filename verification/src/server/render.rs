//! Rendering pages on the server: paths with locales, and getting the state
//! (and content) of a page, deciding among incremental caching,
//! revalidation, stored assets and state generated at request time.
use crate::errors::{ServeError, ServerError, StoreError};
use crate::server::html_shell::PageData;
use crate::state::state_generator_info::StateGeneratorInfo;
use crate::state::template_state::{json_reserialized, state_of_json, template_state_from_str};
use crate::template::states::States;
use crate::text::opt_view;
use crate::translator::lightweight::LightweightTranslator;
use vstd::prelude::*;

verus! {

/// The path with its locale, or without one where internationalization isn't
/// used (the locale is `xx-XX`).
pub open spec fn path_with_locale_spec(path: Seq<char>, locale: Seq<char>) -> Seq<char> {
    if locale == "xx-XX"@ {
        path
    } else {
        locale + "/"@ + path
    }
}

/// Gets the path with the locale of the translator, returning it without one
/// if i18n isn't being used.
pub fn get_path_with_locale(path_without_locale: &str, translator: &LightweightTranslator) -> (r: String)
    ensures
        r@ == path_with_locale_spec(path_without_locale@, translator@.locale),
{
    let locale = translator.get_locale();
    let dummy = "xx-XX".to_owned();
    if locale == dummy {
        path_without_locale.to_owned()
    } else {
        let mut r = locale;
        r.append("/");
        r.append(path_without_locale);
        r
    }
}

/// The uppercase hexadecimal digit for `d` (below sixteen).
pub open spec fn upper_hex_digit(d: nat) -> char {
    if d < 10 {
        crate::server::build_error_page::digit(d)
    } else if d == 10 { 'A' } else if d == 11 { 'B' } else if d == 12 { 'C' } else if d == 13 { 'D' } else if d
        == 14 { 'E' } else { 'F' }
}

/// The percent-encoding of byte `b`: `%` and its two uppercase hexadecimal
/// digits.
pub open spec fn percent_byte(b: nat) -> Seq<char> {
    seq!['%', upper_hex_digit(b / 16), upper_hex_digit(b % 16)]
}

/// A character that URL encoding leaves as it is: an ASCII letter or digit,
/// or one of `-`, `_`, `.`, `~`.
pub open spec fn url_safe(c: char) -> bool {
    ('0' <= c && c <= '9') || ('A' <= c && c <= 'Z') || ('a' <= c && c <= 'z') || c == '-' || c == '_' || c
        == '.' || c == '~'
}

/// How a character stands in URL encoding: as itself where it is safe, else
/// each byte of its UTF-8 form percent-encoded.
pub open spec fn url_encoded_char(c: char) -> Seq<char> {
    let n = c as nat;
    if url_safe(c) {
        seq![c]
    } else if n < 0x80 {
        percent_byte(n)
    } else if n < 0x800 {
        percent_byte(0xC0 + n / 64) + percent_byte(0x80 + n % 64)
    } else if n < 0x10000 {
        percent_byte(0xE0 + n / 4096) + percent_byte(0x80 + (n / 64) % 64) + percent_byte(0x80 + n % 64)
    } else {
        percent_byte(0xF0 + n / 262144) + percent_byte(0x80 + (n / 4096) % 64) + percent_byte(
            0x80 + (n / 64) % 64,
        ) + percent_byte(0x80 + n % 64)
    }
}

/// What `urlencoding::encode` gives for `s`: every byte of its UTF-8 form but
/// ASCII alphanumerics and `-`, `_`, `.`, `~` percent-encoded.
pub open spec fn url_encoded(s: Seq<char>) -> Seq<char>
    decreases s.len(),
{
    if s.len() == 0 {
        Seq::empty()
    } else {
        url_encoded(s.drop_last()) + url_encoded_char(s.last())
    }
}

/// Percent-encodes a path with `urlencoding::encode`. Trusted: the result is
/// `url_encoded` of the input, as its source writes it (uppercase
/// hexadecimal digits, bytes of the UTF-8 form).
#[verifier::external_body]
pub(crate) fn url_encode(s: &str) -> (r: String)
    ensures
        r@ == url_encoded(s@),
{
    urlencoding::encode(s).into_owned()
}

/// What `chrono::DateTime::parse_from_rfc3339` gives for `s`: the instant as
/// whole seconds since the Unix epoch and nanoseconds past that second, or the
/// parser's error message.
pub uninterp spec fn rfc3339_instant(s: Seq<char>) -> Result<(i64, u32), Seq<char>>;

/// Parses an RFC 3339 datetime with `chrono::DateTime::parse_from_rfc3339`,
/// giving its `timestamp()` and `timestamp_subsec_nanos()`. Trusted: the
/// result is `rfc3339_instant` of the input, which depends on nothing else.
#[verifier::external_body]
pub(crate) fn parse_rfc3339(s: &str) -> (r: Result<(i64, u32), String>)
    ensures
        match r {
            Ok(t) => rfc3339_instant(s@) == Ok::<(i64, u32), Seq<char>>(t),
            Err(e) => rfc3339_instant(s@) == Err::<(i64, u32), Seq<char>>(e@),
        },
{
    match chrono::DateTime::parse_from_rfc3339(s) {
        Ok(dt) => Ok((dt.timestamp(), dt.timestamp_subsec_nanos())),
        Err(e) => Err(e.to_string()),
    }
}

/// Whether the instant `a` (seconds, nanoseconds) lies after `b`.
pub open spec fn later(a: (i64, u32), b: (i64, u32)) -> bool {
    a.0 > b.0 || (a.0 == b.0 && a.1 > b.1)
}

/// The name of a page's asset in a store.
pub open spec fn asset(encoded: Seq<char>, suffix: Seq<char>) -> Seq<char> {
    "static/"@ + encoded + suffix
}

/// JSON text of template state: `null` for none.
pub open spec fn state_json(s: Option<String>) -> Seq<char> {
    match s {
        Some(t) => t@,
        None => "null"@,
    }
}

/// The only state defined among the two, or none.
pub open spec fn defined_state(states: States) -> Option<String> {
    if states.build_state is Some {
        states.build_state
    } else {
        states.request_state
    }
}

/// The stores a page's assets are kept in.
#[derive(Debug, Clone, Copy, PartialEq, Eq, Structural)]
pub enum StoreKind {
    /// Assets produced at build time.
    Immutable,
    /// Assets produced or updated while the app runs.
    Mutable,
}

/// What getting a page's state needs to know of its template.
#[derive(Debug, Clone)]
pub struct TemplateFeatures {
    /// The template's path (its name).
    pub path: String,
    /// Whether the template generates state at build time.
    pub uses_build_state: bool,
    /// Whether the template generates paths beneath it.
    pub uses_build_paths: bool,
    /// Whether the template generates pages incrementally.
    pub uses_incremental: bool,
    /// Whether the template revalidates after a time.
    pub revalidates_with_time: bool,
    /// Whether the template revalidates by custom logic.
    pub revalidates_with_logic: bool,
    /// Whether the template generates state at request time.
    pub uses_request_state: bool,
    /// Whether the template can amalgamate build and request state.
    pub can_amalgamate_states: bool,
    /// Whether the template is a capsule (rendered as widgets).
    pub is_capsule: bool,
}

/// The path a template serves at: its name, but nothing for `index`, and
/// beneath `__capsule/` for a capsule.
pub open spec fn template_path_spec(name: Seq<char>, is_capsule: bool) -> Seq<char> {
    let base = if name == "index"@ {
        Seq::<char>::empty()
    } else {
        name
    };
    if is_capsule {
        "__capsule/"@ + base
    } else {
        base
    }
}

impl TemplateFeatures {
    /// Gets the path of the template: the root path for the template named
    /// `index`, and a path beneath `__capsule/` for capsules.
    pub fn get_path(&self) -> (r: String)
        ensures
            r@ == template_path_spec(self.path@, self.is_capsule),
    {
        let index = "index".to_owned();
        let base = if self.path == index {
            String::new()
        } else {
            self.path.clone()
        };
        if self.is_capsule {
            let mut r = "__capsule/".to_owned();
            r.append(base.as_str());
            r
        } else {
            base
        }
    }

    /// Whether the template revalidates at all.
    pub open spec fn revalidates_spec(&self) -> bool {
        self.revalidates_with_time || self.revalidates_with_logic
    }

    /// Whether the template defines no rendering logic whatsoever: no build
    /// paths, no state, no revalidation and no incremental generation.
    pub open spec fn is_basic_spec(&self) -> bool {
        !self.uses_build_paths && !self.uses_build_state && !self.uses_request_state && !self.revalidates_spec()
            && !self.uses_incremental
    }

    /// Checks if this template revalidates existing prerendered pages after a
    /// given time.
    pub fn revalidates_with_time(&self) -> (b: bool)
        ensures
            b == self.revalidates_with_time,
    {
        self.revalidates_with_time
    }

    /// Checks if this template revalidates existing prerendered pages based on
    /// some given logic.
    pub fn revalidates_with_logic(&self) -> (b: bool)
        ensures
            b == self.revalidates_with_logic,
    {
        self.revalidates_with_logic
    }

    /// Checks if this template can render more pages beyond those paths it
    /// explicitly defines.
    pub fn uses_incremental(&self) -> (b: bool)
        ensures
            b == self.uses_incremental,
    {
        self.uses_incremental
    }

    /// Checks if this template generates paths beneath it.
    pub fn uses_build_paths(&self) -> (b: bool)
        ensures
            b == self.uses_build_paths,
    {
        self.uses_build_paths
    }

    /// Checks if this template needs to do anything on requests for it.
    pub fn uses_request_state(&self) -> (b: bool)
        ensures
            b == self.uses_request_state,
    {
        self.uses_request_state
    }

    /// Checks if this template needs to do anything at build time.
    pub fn uses_build_state(&self) -> (b: bool)
        ensures
            b == self.uses_build_state,
    {
        self.uses_build_state
    }

    /// Checks if this template has custom logic to amalgamate build and
    /// request states if both are generated.
    pub fn can_amalgamate_states(&self) -> (b: bool)
        ensures
            b == self.can_amalgamate_states,
    {
        self.can_amalgamate_states
    }

    /// Checks if this template can revalidate existing prerendered pages.
    pub fn revalidates(&self) -> (b: bool)
        ensures
            b == self.revalidates_spec(),
    {
        self.revalidates_with_time || self.revalidates_with_logic
    }

    /// Checks if this template defines no rendering logic whatsoever. Such
    /// templates are rendered at build time with no state.
    pub fn is_basic(&self) -> (b: bool)
        ensures
            b == self.is_basic_spec(),
    {
        !self.uses_build_paths && !self.uses_build_state && !self.uses_request_state && !self.revalidates()
            && !self.uses_incremental
    }
}

/// The work that getting a page's state asks of its surroundings.
#[derive(Debug)]
pub enum RenderAction {
    /// Get the translator for the locale; answered with
    /// `RenderEvent::Translator`.
    GetTranslator { locale: String },
    /// Read an asset; answered with `RenderEvent::Read`.
    Read { store: StoreKind, name: String },
    /// Write an asset to the mutable store; answered with
    /// `RenderEvent::Written`.
    Write { name: String, content: String },
    /// Generate build state; answered with `RenderEvent::State`.
    GenerateBuildState { info: StateGeneratorInfo },
    /// Generate request state; answered with `RenderEvent::State`.
    GenerateRequestState { info: StateGeneratorInfo },
    /// Run the template's revalidation logic; answered with
    /// `RenderEvent::Decision`.
    ShouldRevalidate { info: StateGeneratorInfo },
    /// Get the current time; answered with `RenderEvent::Now`.
    GetNow,
    /// Compute the time of the next revalidation from now; answered with
    /// `RenderEvent::Timestamp`.
    ComputeRevalidationTime,
    /// Render the page's content; answered with `RenderEvent::Rendered`.
    RenderHtml { path_with_locale: String, state: Option<String> },
    /// Render the page's document metadata; answered with
    /// `RenderEvent::Rendered`.
    RenderHead { state: Option<String> },
    /// Amalgamate build and request state; answered with
    /// `RenderEvent::State`.
    AmalgamateStates { info: StateGeneratorInfo, build_state: Option<String>, request_state: Option<String> },
    /// The page's data: the job is done.
    Done(PageData),
    /// The job failed with this error.
    Failed(ServerError),
}

/// The answer to the last action.
#[derive(Debug)]
pub enum RenderEvent {
    /// The translator's locale, or why there is no translator.
    Translator(Result<String, ServerError>),
    /// The content of the asset.
    Read(Result<String, StoreError>),
    /// Whether the asset was written.
    Written(Result<(), StoreError>),
    /// The generated state (JSON text, `None` for none).
    State(Result<Option<String>, ServerError>),
    /// The template's revalidation decision.
    Decision(Result<bool, ServerError>),
    /// The current time, in seconds since the Unix epoch and nanoseconds.
    Now { secs: i64, nanos: u32 },
    /// The time of the next revalidation, as RFC 3339 text.
    Timestamp(String),
    /// The rendered text.
    Rendered(String),
}

/// Where a job stands: the answer it awaits.
#[derive(Debug, Clone, Copy, PartialEq, Eq, Structural)]
pub enum JobPhase {
    AwaitTranslator,
    AwaitExtra,
    AwaitCachedHtml,
    AwaitCachedHead,
    AwaitRevalidationTime,
    AwaitNow,
    AwaitRevalidationLogic,
    AwaitStoredHtml(StoreKind),
    AwaitStoredHead(StoreKind),
    AwaitStoredState(StoreKind),
    AwaitBuildState,
    AwaitFreshHtml,
    AwaitFreshHead,
    AwaitRevalidationTimestamp,
    AwaitWrittenTime,
    AwaitWrittenState,
    AwaitWrittenHtml,
    AwaitWrittenHead,
    AwaitRequestState,
    AwaitResolvedHead,
    AwaitResolvedHtml,
    AwaitAmalgamated,
    AwaitAmalgamatedHtml,
    AwaitAmalgamatedHead,
    Finished,
}

/// Where the revalidation check leads when no revalidation is due.
#[derive(Debug, Clone, Copy, PartialEq, Eq, Structural)]
pub enum AfterCheck {
    /// Use the incrementally cached page.
    Cached,
    /// Use the page as stored.
    Stored,
}

/// Getting the state (and, where asked, the content) of a page: the decisions
/// of the server, driven by the answers to the actions it asks for.
#[derive(Debug)]
pub struct PageStateJob {
    /// The path of the page, without the locale.
    pub raw_path: String,
    /// The locale to render for.
    pub locale: String,
    /// Whether the page was matched on an incrementally generating template
    /// without having been prerendered.
    pub was_incremental_match: bool,
    /// Whether the page's content is wanted.
    pub render_html: bool,
    /// Whether the app runs in development, where nothing is cached.
    pub dev: bool,
    /// The page's template.
    pub template: TemplateFeatures,
    /// The locale and the encoded path: the key of the page's assets.
    pub path_encoded: String,
    /// Where the job stands.
    pub phase: JobPhase,
    /// The path with the translator's locale.
    pub path_with_locale: String,
    /// The template's extra build state.
    pub extra: Option<String>,
    /// The page's content so far.
    pub html: String,
    /// The page's document metadata so far.
    pub head: String,
    /// The states generated so far.
    pub states: States,
    /// The revalidation time read from the mutable store.
    pub revalidate_at: (i64, u32),
    /// Where the revalidation check leads.
    pub after_check: AfterCheck,
    /// The state the page ends with.
    pub resolved: Option<String>,
}

impl PageStateJob {
    /// The information given to the template's state generators.
    pub open spec fn info(self) -> StateGeneratorInfo {
        StateGeneratorInfo { path: self.raw_path, locale: self.locale, extra: self.extra }
    }

    /// Whether `e` answers the action the job last asked for.
    pub open spec fn expects(self, e: RenderEvent) -> bool {
        match self.phase {
            JobPhase::AwaitTranslator => e is Translator,
            JobPhase::AwaitCachedHead => e matches RenderEvent::Read(Ok(_)),
            JobPhase::AwaitExtra | JobPhase::AwaitCachedHtml | JobPhase::AwaitRevalidationTime
            | JobPhase::AwaitStoredHtml(_) | JobPhase::AwaitStoredHead(_)
            | JobPhase::AwaitStoredState(_) => e is Read,
            JobPhase::AwaitNow => e is Now,
            JobPhase::AwaitRevalidationLogic => e is Decision,
            JobPhase::AwaitBuildState | JobPhase::AwaitRequestState | JobPhase::AwaitAmalgamated => e is State,
            JobPhase::AwaitRevalidationTimestamp => e is Timestamp,
            JobPhase::AwaitWrittenTime | JobPhase::AwaitWrittenState | JobPhase::AwaitWrittenHtml
            | JobPhase::AwaitWrittenHead => e is Written,
            JobPhase::AwaitFreshHtml | JobPhase::AwaitFreshHead | JobPhase::AwaitResolvedHead
            | JobPhase::AwaitResolvedHtml | JobPhase::AwaitAmalgamatedHtml
            | JobPhase::AwaitAmalgamatedHead => e is Rendered,
            JobPhase::Finished => false,
        }
    }
}

/// The job fails with `err`.
pub open spec fn fail_spec(j: PageStateJob, err: ServerError, post: PageStateJob, a: RenderAction) -> bool {
    post == PageStateJob { phase: JobPhase::Finished, ..j } && a == RenderAction::Failed(err)
}

/// The job ends with the page's data.
pub open spec fn finish_spec(j: PageStateJob, post: PageStateJob, a: RenderAction) -> bool {
    &&& post == PageStateJob { phase: JobPhase::Finished, ..j }
    &&& a matches RenderAction::Done(pd)
    &&& pd.state == j.resolved
    &&& pd.head == j.head
    &&& if j.render_html {
        pd.content == j.html
    } else {
        pd.content@ == Seq::<char>::empty()
    }
}

/// The job asks to read the asset with `suffix` from `store` and awaits it
/// in `phase`.
pub open spec fn read_spec(
    j: PageStateJob,
    phase: JobPhase,
    store: StoreKind,
    suffix: Seq<char>,
    post: PageStateJob,
    a: RenderAction,
) -> bool {
    &&& post == PageStateJob { phase, ..j }
    &&& a matches RenderAction::Read { store: s, name }
    &&& s == store
    &&& name@ == asset(j.path_encoded@, suffix)
}

/// The job asks to write `content` to the asset with `suffix` and awaits it
/// in `phase`.
pub open spec fn write_spec(
    j: PageStateJob,
    phase: JobPhase,
    suffix: Seq<char>,
    content: Seq<char>,
    post: PageStateJob,
    a: RenderAction,
) -> bool {
    &&& post == PageStateJob { phase, ..j }
    &&& a matches RenderAction::Write { name, content: c }
    &&& name@ == asset(j.path_encoded@, suffix)
    &&& c@ == content
}

/// Settling the state: the only defined state where there is one (rendered
/// now where it comes from request time, since nothing was rendered with
/// it), amalgamated states where the template can amalgamate them, and
/// otherwise request state, which wins over build state.
pub open spec fn resolve_spec(j: PageStateJob, post: PageStateJob, a: RenderAction) -> bool {
    let both = j.states.build_state is Some && j.states.request_state is Some;
    if !both && j.template.uses_request_state {
        let st = defined_state(j.states);
        post == PageStateJob { phase: JobPhase::AwaitResolvedHead, resolved: st, ..j } && a
            == RenderAction::RenderHead { state: st }
    } else if !both {
        finish_spec(PageStateJob { resolved: defined_state(j.states), ..j }, post, a)
    } else if j.template.can_amalgamate_states {
        post == PageStateJob { phase: JobPhase::AwaitAmalgamated, ..j } && a
            == RenderAction::AmalgamateStates {
            info: j.info(),
            build_state: j.states.build_state,
            request_state: j.states.request_state,
        }
    } else {
        let st = j.states.request_state;
        post == PageStateJob { phase: JobPhase::AwaitResolvedHead, resolved: st, ..j } && a
            == RenderAction::RenderHead { state: st }
    }
}

/// Generating request state, where the template does, before settling.
pub open spec fn request_spec(j: PageStateJob, post: PageStateJob, a: RenderAction) -> bool {
    if j.template.uses_request_state {
        post == PageStateJob { phase: JobPhase::AwaitRequestState, ..j } && a
            == RenderAction::GenerateRequestState { info: j.info() }
    } else {
        resolve_spec(j, post, a)
    }
}

/// Generating build state afresh and caching the page (for incremental
/// generation and revalidation alike).
pub open spec fn generate_spec(j: PageStateJob, post: PageStateJob, a: RenderAction) -> bool {
    post == PageStateJob { phase: JobPhase::AwaitBuildState, ..j } && a
        == RenderAction::GenerateBuildState { info: j.info() }
}

/// Reading a page as stored in `store` at build time or at its last
/// revalidation.
pub open spec fn stored_spec(j: PageStateJob, store: StoreKind, post: PageStateJob, a: RenderAction) -> bool {
    if j.render_html {
        read_spec(j, JobPhase::AwaitStoredHtml(store), store, ".html"@, post, a)
    } else {
        post.html@ == Seq::<char>::empty() && read_spec(
            PageStateJob { html: post.html, ..j },
            JobPhase::AwaitStoredHead(store),
            store,
            ".head.html"@,
            post,
            a,
        )
    }
}

/// What follows the revalidation check, given whether revalidation is due.
pub open spec fn checked_spec(j: PageStateJob, due: bool, post: PageStateJob, a: RenderAction) -> bool {
    if due {
        generate_spec(j, post, a)
    } else {
        match j.after_check {
            AfterCheck::Cached => read_spec(
                j,
                JobPhase::AwaitStoredState(StoreKind::Mutable),
                StoreKind::Mutable,
                ".json"@,
                post,
                a,
            ),
            AfterCheck::Stored => if j.template.revalidates_spec() {
                stored_spec(j, StoreKind::Mutable, post, a)
            } else {
                stored_spec(j, StoreKind::Immutable, post, a)
            },
        }
    }
}

/// The revalidation check: time first (a revalidation time still to come
/// means none is due), then the template's logic, which has the last word.
pub open spec fn check_spec(j: PageStateJob, post: PageStateJob, a: RenderAction) -> bool {
    if j.template.revalidates_with_time {
        read_spec(j, JobPhase::AwaitRevalidationTime, StoreKind::Mutable, ".revld.txt"@, post, a)
    } else if j.template.revalidates_with_logic {
        post == PageStateJob { phase: JobPhase::AwaitRevalidationLogic, ..j } && a
            == RenderAction::ShouldRevalidate { info: j.info() }
    } else {
        checked_spec(j, false, post, a)
    }
}

/// What the read of the incrementally cached content leads to: the cached
/// page where it is there (outside development), else a fresh one.
pub open spec fn cached_html_spec(
    j: PageStateJob,
    res: Result<String, StoreError>,
    post: PageStateJob,
    a: RenderAction,
) -> bool {
    match res {
        Ok(h) => if !j.dev {
            read_spec(
                PageStateJob { html: h, ..j },
                JobPhase::AwaitCachedHead,
                StoreKind::Mutable,
                ".head.html"@,
                post,
                a,
            )
        } else {
            generate_spec(j, post, a)
        },
        Err(_) => generate_spec(j, post, a),
    }
}

/// Where the build state comes from: the incremental cache, a stored page,
/// or nowhere (then on to request state).
pub open spec fn build_spec(j: PageStateJob, post: PageStateJob, a: RenderAction) -> bool {
    if j.template.uses_build_state || j.template.is_basic_spec() {
        if j.template.uses_incremental && j.was_incremental_match {
            if j.render_html {
                read_spec(j, JobPhase::AwaitCachedHtml, StoreKind::Mutable, ".html"@, post, a)
            } else if !j.dev {
                post.html@ == Seq::<char>::empty() && read_spec(
                    PageStateJob { html: post.html, ..j },
                    JobPhase::AwaitCachedHead,
                    StoreKind::Mutable,
                    ".head.html"@,
                    post,
                    a,
                )
            } else {
                generate_spec(j, post, a)
            }
        } else {
            check_spec(PageStateJob { after_check: AfterCheck::Stored, ..j }, post, a)
        }
    } else {
        request_spec(j, post, a)
    }
}

/// Stored state read from `res`: empty where it could not be read, an error
/// where it is not JSON.
pub open spec fn stored_state_spec(
    j: PageStateJob,
    res: Result<String, StoreError>,
    post: PageStateJob,
    a: RenderAction,
) -> bool {
    match res {
        Ok(s) => match json_reserialized(s@) {
            Ok(t) => opt_view(post.states.build_state) == state_of_json(t) && request_spec(
                PageStateJob {
                    states: States { build_state: post.states.build_state, ..j.states },
                    ..j
                },
                post,
                a,
            ),
            Err(m) => {
                &&& post == PageStateJob { phase: JobPhase::Finished, ..j }
                &&& a matches RenderAction::Failed(ServerError::InvalidPageState { source })
                &&& source@ == m
            },
        },
        Err(_) => request_spec(PageStateJob { states: States { build_state: None, ..j.states }, ..j }, post, a),
    }
}

/// One step of the job: the answer `e` to its last action moves it from
/// `pre` to `post` and makes it ask for `a`.
pub open spec fn step_spec(pre: PageStateJob, e: RenderEvent, post: PageStateJob, a: RenderAction) -> bool {
    match pre.phase {
        JobPhase::AwaitTranslator => match e {
            RenderEvent::Translator(Ok(tl)) => {
                &&& post == PageStateJob { phase: JobPhase::AwaitExtra, path_with_locale: post.path_with_locale, ..pre }
                &&& post.path_with_locale@ == path_with_locale_spec(pre.raw_path@, tl@)
                &&& a matches RenderAction::Read { store: StoreKind::Immutable, name }
                &&& name@ == asset(pre.template.path@, ".extra.json"@)
            },
            RenderEvent::Translator(Err(err)) => fail_spec(pre, err, post, a),
            _ => false,
        },
        JobPhase::AwaitExtra => match e {
            RenderEvent::Read(Ok(s)) => match json_reserialized(s@) {
                Ok(t) => opt_view(post.extra) == state_of_json(t) && build_spec(
                    PageStateJob { extra: post.extra, ..pre },
                    post,
                    a,
                ),
                Err(m) => {
                    &&& post == PageStateJob { phase: JobPhase::Finished, ..pre }
                    &&& a matches RenderAction::Failed(ServerError::InvalidBuildExtra { template_name, source })
                    &&& template_name == pre.template.path
                    &&& source@ == m
                },
            },
            RenderEvent::Read(Err(_)) => fail_spec(
                pre,
                ServerError::MissingBuildExtra { template_name: pre.template.path },
                post,
                a,
            ),
            _ => false,
        },
        JobPhase::AwaitCachedHtml => match e {
            RenderEvent::Read(res) => cached_html_spec(pre, res, post, a),
            _ => false,
        },
        JobPhase::AwaitCachedHead => match e {
            RenderEvent::Read(Ok(hd)) => check_spec(
                PageStateJob { head: hd, after_check: AfterCheck::Cached, ..pre },
                post,
                a,
            ),
            _ => false,
        },
        JobPhase::AwaitRevalidationTime => match e {
            RenderEvent::Read(Ok(s)) => match rfc3339_instant(s@) {
                Ok(t) => post == PageStateJob { phase: JobPhase::AwaitNow, revalidate_at: t, ..pre } && a
                    == RenderAction::GetNow,
                Err(m) => {
                    &&& post == PageStateJob { phase: JobPhase::Finished, ..pre }
                    &&& a matches RenderAction::Failed(ServerError::ServeError(ServeError::BadRevalidate { source }))
                    &&& source@ == m
                },
            },
            RenderEvent::Read(Err(err)) => fail_spec(pre, ServerError::StoreError(err), post, a),
            _ => false,
        },
        JobPhase::AwaitNow => match e {
            RenderEvent::Now { secs, nanos } => if later(pre.revalidate_at, (secs, nanos)) {
                checked_spec(pre, false, post, a)
            } else if pre.template.revalidates_with_logic {
                post == PageStateJob { phase: JobPhase::AwaitRevalidationLogic, ..pre } && a
                    == RenderAction::ShouldRevalidate { info: pre.info() }
            } else {
                checked_spec(pre, true, post, a)
            },
            _ => false,
        },
        JobPhase::AwaitRevalidationLogic => match e {
            RenderEvent::Decision(Ok(due)) => checked_spec(pre, due, post, a),
            RenderEvent::Decision(Err(err)) => fail_spec(pre, err, post, a),
            _ => false,
        },
        JobPhase::AwaitStoredHtml(store) => match e {
            RenderEvent::Read(Ok(h)) => read_spec(
                PageStateJob { html: h, ..pre },
                JobPhase::AwaitStoredHead(store),
                store,
                ".head.html"@,
                post,
                a,
            ),
            RenderEvent::Read(Err(err)) => fail_spec(pre, ServerError::StoreError(err), post, a),
            _ => false,
        },
        JobPhase::AwaitStoredHead(store) => match e {
            RenderEvent::Read(Ok(hd)) => read_spec(
                PageStateJob { head: hd, ..pre },
                JobPhase::AwaitStoredState(store),
                store,
                ".json"@,
                post,
                a,
            ),
            RenderEvent::Read(Err(err)) => fail_spec(pre, ServerError::StoreError(err), post, a),
            _ => false,
        },
        JobPhase::AwaitStoredState(_) => match e {
            RenderEvent::Read(res) => stored_state_spec(pre, res, post, a),
            _ => false,
        },
        JobPhase::AwaitBuildState => match e {
            RenderEvent::State(Ok(st)) => post == PageStateJob {
                phase: JobPhase::AwaitFreshHtml,
                states: States { build_state: st, ..pre.states },
                ..pre
            } && a == RenderAction::RenderHtml { path_with_locale: pre.path_with_locale, state: st },
            RenderEvent::State(Err(err)) => fail_spec(pre, err, post, a),
            _ => false,
        },
        JobPhase::AwaitFreshHtml => match e {
            RenderEvent::Rendered(h) => post == PageStateJob { phase: JobPhase::AwaitFreshHead, html: h, ..pre }
                && a == RenderAction::RenderHead { state: pre.states.build_state },
            _ => false,
        },
        JobPhase::AwaitFreshHead => match e {
            RenderEvent::Rendered(hd) => if pre.template.revalidates_with_time {
                post == PageStateJob { phase: JobPhase::AwaitRevalidationTimestamp, head: hd, ..pre } && a
                    == RenderAction::ComputeRevalidationTime
            } else {
                write_spec(
                    PageStateJob { head: hd, ..pre },
                    JobPhase::AwaitWrittenState,
                    ".json"@,
                    state_json(pre.states.build_state),
                    post,
                    a,
                )
            },
            _ => false,
        },
        JobPhase::AwaitRevalidationTimestamp => match e {
            RenderEvent::Timestamp(ts) => write_spec(pre, JobPhase::AwaitWrittenTime, ".revld.txt"@, ts@, post, a),
            _ => false,
        },
        JobPhase::AwaitWrittenTime => match e {
            RenderEvent::Written(Ok(())) => write_spec(
                pre,
                JobPhase::AwaitWrittenState,
                ".json"@,
                state_json(pre.states.build_state),
                post,
                a,
            ),
            RenderEvent::Written(Err(err)) => fail_spec(pre, ServerError::StoreError(err), post, a),
            _ => false,
        },
        JobPhase::AwaitWrittenState => match e {
            RenderEvent::Written(Ok(())) => write_spec(pre, JobPhase::AwaitWrittenHtml, ".html"@, pre.html@, post, a),
            RenderEvent::Written(Err(err)) => fail_spec(pre, ServerError::StoreError(err), post, a),
            _ => false,
        },
        JobPhase::AwaitWrittenHtml => match e {
            RenderEvent::Written(Ok(())) => write_spec(
                pre,
                JobPhase::AwaitWrittenHead,
                ".head.html"@,
                pre.head@,
                post,
                a,
            ),
            RenderEvent::Written(Err(err)) => fail_spec(pre, ServerError::StoreError(err), post, a),
            _ => false,
        },
        JobPhase::AwaitWrittenHead => match e {
            RenderEvent::Written(Ok(())) => request_spec(pre, post, a),
            RenderEvent::Written(Err(err)) => fail_spec(pre, ServerError::StoreError(err), post, a),
            _ => false,
        },
        JobPhase::AwaitRequestState => match e {
            RenderEvent::State(Ok(st)) => resolve_spec(
                PageStateJob { states: States { request_state: st, ..pre.states }, ..pre },
                post,
                a,
            ),
            RenderEvent::State(Err(err)) => fail_spec(pre, err, post, a),
            _ => false,
        },
        JobPhase::AwaitResolvedHead => match e {
            RenderEvent::Rendered(hd) => if pre.render_html {
                post == PageStateJob { phase: JobPhase::AwaitResolvedHtml, head: hd, ..pre } && a
                    == RenderAction::RenderHtml { path_with_locale: pre.path_with_locale, state: pre.resolved }
            } else {
                finish_spec(PageStateJob { head: hd, ..pre }, post, a)
            },
            _ => false,
        },
        JobPhase::AwaitResolvedHtml => match e {
            RenderEvent::Rendered(h) => finish_spec(PageStateJob { html: h, ..pre }, post, a),
            _ => false,
        },
        JobPhase::AwaitAmalgamated => match e {
            RenderEvent::State(Ok(st)) => if pre.render_html {
                post == PageStateJob { phase: JobPhase::AwaitAmalgamatedHtml, resolved: st, ..pre } && a
                    == RenderAction::RenderHtml { path_with_locale: pre.path_with_locale, state: st }
            } else {
                post == PageStateJob {
                    phase: JobPhase::AwaitAmalgamatedHead,
                    resolved: st,
                    html: post.html,
                    ..pre
                } && post.html@ == Seq::<char>::empty() && a == RenderAction::RenderHead { state: st }
            },
            RenderEvent::State(Err(err)) => fail_spec(pre, err, post, a),
            _ => false,
        },
        JobPhase::AwaitAmalgamatedHtml => match e {
            RenderEvent::Rendered(h) => post == PageStateJob {
                phase: JobPhase::AwaitAmalgamatedHead,
                html: h,
                ..pre
            } && a == RenderAction::RenderHead { state: pre.resolved },
            _ => false,
        },
        JobPhase::AwaitAmalgamatedHead => match e {
            RenderEvent::Rendered(hd) => finish_spec(PageStateJob { head: hd, ..pre }, post, a),
            _ => false,
        },
        JobPhase::Finished => false,
    }
}

/// A copy of an optional string.
fn clone_opt(o: &Option<String>) -> (r: Option<String>)
    ensures
        r == *o,
{
    match o {
        Some(s) => Some(s.clone()),
        None => None,
    }
}

/// The name of a page's asset in a store.
fn asset_name(encoded: &String, suffix: &str) -> (r: String)
    ensures
        r@ == asset(encoded@, suffix@),
{
    let mut r = "static/".to_owned();
    r.append(encoded.as_str());
    r.append(suffix);
    r
}

/// The path with the locale, or without one where i18n isn't used.
pub(crate) fn join_locale(path: &String, locale: &String) -> (r: String)
    ensures
        r@ == path_with_locale_spec(path@, locale@),
{
    let dummy = "xx-XX".to_owned();
    if *locale == dummy {
        path.clone()
    } else {
        let mut r = locale.clone();
        r.append("/");
        r.append(path.as_str());
        r
    }
}

impl PageStateJob {
    /// Starts getting the state of the page at `raw_path` (without the
    /// locale) for `locale`, rendered with `template`; the first action asks
    /// for the translator.
    pub fn new(
        raw_path: String,
        locale: String,
        was_incremental_match: bool,
        render_html: bool,
        dev: bool,
        template: TemplateFeatures,
    ) -> (r: (PageStateJob, RenderAction))
        ensures
            r.0.raw_path == raw_path,
            r.0.locale == locale,
            r.0.was_incremental_match == was_incremental_match,
            r.0.render_html == render_html,
            r.0.dev == dev,
            r.0.template == template,
            r.0.path_encoded@ == locale@ + "-"@ + url_encoded(raw_path@),
            r.0.phase == JobPhase::AwaitTranslator,
            r.0.extra is None,
            r.0.html@ == Seq::<char>::empty(),
            r.0.head@ == Seq::<char>::empty(),
            r.0.states.build_state is None,
            r.0.states.request_state is None,
            r.0.resolved is None,
            r.1 == (RenderAction::GetTranslator { locale }),
    {
        let mut path_encoded = locale.clone();
        path_encoded.append("-");
        let enc = url_encode(raw_path.as_str());
        path_encoded.append(enc.as_str());
        let job = PageStateJob {
            raw_path,
            locale: locale.clone(),
            was_incremental_match,
            render_html,
            dev,
            template,
            path_encoded,
            phase: JobPhase::AwaitTranslator,
            path_with_locale: String::new(),
            extra: None,
            html: String::new(),
            head: String::new(),
            states: States { build_state: None, request_state: None },
            revalidate_at: (0, 0),
            after_check: AfterCheck::Stored,
            resolved: None,
        };
        (job, RenderAction::GetTranslator { locale })
    }

    /// The information given to the template's state generators.
    fn make_info(&self) -> (r: StateGeneratorInfo)
        ensures
            r == self.info(),
    {
        StateGeneratorInfo {
            path: self.raw_path.clone(),
            locale: self.locale.clone(),
            extra: clone_opt(&self.extra),
        }
    }

    fn fail(&mut self, err: ServerError) -> (a: RenderAction)
        ensures
            fail_spec(*old(self), err, *final(self), a),
    {
        self.phase = JobPhase::Finished;
        RenderAction::Failed(err)
    }

    fn finish(&mut self) -> (a: RenderAction)
        ensures
            finish_spec(*old(self), *final(self), a),
    {
        self.phase = JobPhase::Finished;
        let content = if self.render_html {
            self.html.clone()
        } else {
            String::new()
        };
        RenderAction::Done(
            PageData { content, state: clone_opt(&self.resolved), head: self.head.clone() },
        )
    }

    fn read(&mut self, phase: JobPhase, store: StoreKind, suffix: &str) -> (a: RenderAction)
        ensures
            read_spec(*old(self), phase, store, suffix@, *final(self), a),
    {
        self.phase = phase;
        RenderAction::Read { store, name: asset_name(&self.path_encoded, suffix) }
    }

    fn write(&mut self, phase: JobPhase, suffix: &str, content: String) -> (a: RenderAction)
        ensures
            write_spec(*old(self), phase, suffix@, content@, *final(self), a),
    {
        self.phase = phase;
        RenderAction::Write { name: asset_name(&self.path_encoded, suffix), content }
    }

    /// The JSON text of the build state.
    fn build_state_json(&self) -> (r: String)
        ensures
            r@ == state_json(self.states.build_state),
    {
        match &self.states.build_state {
            Some(s) => s.clone(),
            None => {
                let r = "null".to_owned();
                r
            },
        }
    }

    fn resolve(&mut self) -> (a: RenderAction)
        ensures
            resolve_spec(*old(self), *final(self), a),
    {
        let both = self.states.build_state.is_some() && self.states.request_state.is_some();
        if !both && self.template.uses_request_state {
            let st = if self.states.build_state.is_some() {
                clone_opt(&self.states.build_state)
            } else {
                clone_opt(&self.states.request_state)
            };
            self.resolved = clone_opt(&st);
            self.phase = JobPhase::AwaitResolvedHead;
            RenderAction::RenderHead { state: st }
        } else if !both {
            self.resolved = if self.states.build_state.is_some() {
                clone_opt(&self.states.build_state)
            } else {
                clone_opt(&self.states.request_state)
            };
            self.finish()
        } else if self.template.can_amalgamate_states {
            self.phase = JobPhase::AwaitAmalgamated;
            RenderAction::AmalgamateStates {
                info: self.make_info(),
                build_state: clone_opt(&self.states.build_state),
                request_state: clone_opt(&self.states.request_state),
            }
        } else {
            let st = clone_opt(&self.states.request_state);
            self.resolved = clone_opt(&st);
            self.phase = JobPhase::AwaitResolvedHead;
            RenderAction::RenderHead { state: st }
        }
    }

    fn request(&mut self) -> (a: RenderAction)
        ensures
            request_spec(*old(self), *final(self), a),
    {
        if self.template.uses_request_state {
            self.phase = JobPhase::AwaitRequestState;
            RenderAction::GenerateRequestState { info: self.make_info() }
        } else {
            self.resolve()
        }
    }

    fn generate(&mut self) -> (a: RenderAction)
        ensures
            generate_spec(*old(self), *final(self), a),
    {
        self.phase = JobPhase::AwaitBuildState;
        RenderAction::GenerateBuildState { info: self.make_info() }
    }

    fn stored(&mut self, store: StoreKind) -> (a: RenderAction)
        ensures
            stored_spec(*old(self), store, *final(self), a),
    {
        if self.render_html {
            self.read(JobPhase::AwaitStoredHtml(store), store, ".html")
        } else {
            self.html = String::new();
            self.read(JobPhase::AwaitStoredHead(store), store, ".head.html")
        }
    }

    fn checked(&mut self, due: bool) -> (a: RenderAction)
        ensures
            checked_spec(*old(self), due, *final(self), a),
    {
        if due {
            self.generate()
        } else {
            match self.after_check {
                AfterCheck::Cached => self.read(
                    JobPhase::AwaitStoredState(StoreKind::Mutable),
                    StoreKind::Mutable,
                    ".json",
                ),
                AfterCheck::Stored => if self.template.revalidates() {
                    self.stored(StoreKind::Mutable)
                } else {
                    self.stored(StoreKind::Immutable)
                },
            }
        }
    }

    fn check(&mut self) -> (a: RenderAction)
        ensures
            check_spec(*old(self), *final(self), a),
    {
        if self.template.revalidates_with_time {
            self.read(JobPhase::AwaitRevalidationTime, StoreKind::Mutable, ".revld.txt")
        } else if self.template.revalidates_with_logic {
            self.phase = JobPhase::AwaitRevalidationLogic;
            RenderAction::ShouldRevalidate { info: self.make_info() }
        } else {
            self.checked(false)
        }
    }

    fn cached_html(&mut self, res: Result<String, StoreError>) -> (a: RenderAction)
        ensures
            cached_html_spec(*old(self), res, *final(self), a),
    {
        match res {
            Ok(h) => if !self.dev {
                self.html = h;
                self.read(JobPhase::AwaitCachedHead, StoreKind::Mutable, ".head.html")
            } else {
                self.generate()
            },
            Err(_) => self.generate(),
        }
    }

    fn build(&mut self) -> (a: RenderAction)
        ensures
            build_spec(*old(self), *final(self), a),
    {
        if self.template.uses_build_state || self.template.is_basic() {
            if self.template.uses_incremental && self.was_incremental_match {
                if self.render_html {
                    self.read(JobPhase::AwaitCachedHtml, StoreKind::Mutable, ".html")
                } else if !self.dev {
                    self.html = String::new();
                    self.read(JobPhase::AwaitCachedHead, StoreKind::Mutable, ".head.html")
                } else {
                    self.generate()
                }
            } else {
                self.after_check = AfterCheck::Stored;
                self.check()
            }
        } else {
            self.request()
        }
    }

    fn stored_state(&mut self, res: Result<String, StoreError>) -> (a: RenderAction)
        ensures
            stored_state_spec(*old(self), res, *final(self), a),
    {
        match res {
            Ok(s) => match template_state_from_str(s.as_str()) {
                Ok(st) => {
                    self.states.build_state = st;
                    self.request()
                },
                Err(m) => self.fail(ServerError::InvalidPageState { source: m }),
            },
            Err(_) => {
                self.states.build_state = None;
                self.request()
            },
        }
    }

    /// Takes the answer to the last action and gives the next one, until the
    /// job is done or has failed.
    pub fn step(&mut self, event: RenderEvent) -> (a: RenderAction)
        requires
            old(self).expects(event),
        ensures
            step_spec(*old(self), event, *final(self), a),
    {
        match self.phase {
            JobPhase::AwaitTranslator => match event {
                RenderEvent::Translator(Ok(tl)) => {
                    self.path_with_locale = join_locale(&self.raw_path, &tl);
                    self.phase = JobPhase::AwaitExtra;
                    RenderAction::Read {
                        store: StoreKind::Immutable,
                        name: asset_name(&self.template.path, ".extra.json"),
                    }
                },
                RenderEvent::Translator(Err(err)) => self.fail(err),
                _ => vstd::pervasive::unreached(),
            },
            JobPhase::AwaitExtra => match event {
                RenderEvent::Read(Ok(s)) => match template_state_from_str(s.as_str()) {
                    Ok(extra) => {
                        self.extra = extra;
                        self.build()
                    },
                    Err(m) => {
                        let template_name = self.template.path.clone();
                        self.fail(ServerError::InvalidBuildExtra { template_name, source: m })
                    },
                },
                RenderEvent::Read(Err(_)) => {
                    let template_name = self.template.path.clone();
                    self.fail(ServerError::MissingBuildExtra { template_name })
                },
                _ => vstd::pervasive::unreached(),
            },
            JobPhase::AwaitCachedHtml => match event {
                RenderEvent::Read(res) => self.cached_html(res),
                _ => vstd::pervasive::unreached(),
            },
            JobPhase::AwaitCachedHead => match event {
                RenderEvent::Read(Ok(hd)) => {
                    self.head = hd;
                    self.after_check = AfterCheck::Cached;
                    self.check()
                },
                _ => vstd::pervasive::unreached(),
            },
            JobPhase::AwaitRevalidationTime => match event {
                RenderEvent::Read(Ok(s)) => match parse_rfc3339(s.as_str()) {
                    Ok(t) => {
                        self.revalidate_at = t;
                        self.phase = JobPhase::AwaitNow;
                        RenderAction::GetNow
                    },
                    Err(m) => self.fail(ServerError::ServeError(ServeError::BadRevalidate { source: m })),
                },
                RenderEvent::Read(Err(err)) => self.fail(ServerError::StoreError(err)),
                _ => vstd::pervasive::unreached(),
            },
            JobPhase::AwaitNow => match event {
                RenderEvent::Now { secs, nanos } => {
                    let at = self.revalidate_at;
                    if at.0 > secs || (at.0 == secs && at.1 > nanos) {
                        self.checked(false)
                    } else if self.template.revalidates_with_logic {
                        self.phase = JobPhase::AwaitRevalidationLogic;
                        RenderAction::ShouldRevalidate { info: self.make_info() }
                    } else {
                        self.checked(true)
                    }
                },
                _ => vstd::pervasive::unreached(),
            },
            JobPhase::AwaitRevalidationLogic => match event {
                RenderEvent::Decision(Ok(due)) => self.checked(due),
                RenderEvent::Decision(Err(err)) => self.fail(err),
                _ => vstd::pervasive::unreached(),
            },
            JobPhase::AwaitStoredHtml(store) => match event {
                RenderEvent::Read(Ok(h)) => {
                    self.html = h;
                    self.read(JobPhase::AwaitStoredHead(store), store, ".head.html")
                },
                RenderEvent::Read(Err(err)) => self.fail(ServerError::StoreError(err)),
                _ => vstd::pervasive::unreached(),
            },
            JobPhase::AwaitStoredHead(store) => match event {
                RenderEvent::Read(Ok(hd)) => {
                    self.head = hd;
                    self.read(JobPhase::AwaitStoredState(store), store, ".json")
                },
                RenderEvent::Read(Err(err)) => self.fail(ServerError::StoreError(err)),
                _ => vstd::pervasive::unreached(),
            },
            JobPhase::AwaitStoredState(_) => match event {
                RenderEvent::Read(res) => self.stored_state(res),
                _ => vstd::pervasive::unreached(),
            },
            JobPhase::AwaitBuildState => match event {
                RenderEvent::State(Ok(st)) => {
                    self.states.build_state = clone_opt(&st);
                    self.phase = JobPhase::AwaitFreshHtml;
                    RenderAction::RenderHtml { path_with_locale: self.path_with_locale.clone(), state: st }
                },
                RenderEvent::State(Err(err)) => self.fail(err),
                _ => vstd::pervasive::unreached(),
            },
            JobPhase::AwaitFreshHtml => match event {
                RenderEvent::Rendered(h) => {
                    self.html = h;
                    self.phase = JobPhase::AwaitFreshHead;
                    RenderAction::RenderHead { state: clone_opt(&self.states.build_state) }
                },
                _ => vstd::pervasive::unreached(),
            },
            JobPhase::AwaitFreshHead => match event {
                RenderEvent::Rendered(hd) => {
                    self.head = hd;
                    if self.template.revalidates_with_time {
                        self.phase = JobPhase::AwaitRevalidationTimestamp;
                        RenderAction::ComputeRevalidationTime
                    } else {
                        let content = self.build_state_json();
                        self.write(JobPhase::AwaitWrittenState, ".json", content)
                    }
                },
                _ => vstd::pervasive::unreached(),
            },
            JobPhase::AwaitRevalidationTimestamp => match event {
                RenderEvent::Timestamp(ts) => self.write(JobPhase::AwaitWrittenTime, ".revld.txt", ts),
                _ => vstd::pervasive::unreached(),
            },
            JobPhase::AwaitWrittenTime => match event {
                RenderEvent::Written(Ok(())) => {
                    let content = self.build_state_json();
                    self.write(JobPhase::AwaitWrittenState, ".json", content)
                },
                RenderEvent::Written(Err(err)) => self.fail(ServerError::StoreError(err)),
                _ => vstd::pervasive::unreached(),
            },
            JobPhase::AwaitWrittenState => match event {
                RenderEvent::Written(Ok(())) => {
                    let content = self.html.clone();
                    self.write(JobPhase::AwaitWrittenHtml, ".html", content)
                },
                RenderEvent::Written(Err(err)) => self.fail(ServerError::StoreError(err)),
                _ => vstd::pervasive::unreached(),
            },
            JobPhase::AwaitWrittenHtml => match event {
                RenderEvent::Written(Ok(())) => {
                    let content = self.head.clone();
                    self.write(JobPhase::AwaitWrittenHead, ".head.html", content)
                },
                RenderEvent::Written(Err(err)) => self.fail(ServerError::StoreError(err)),
                _ => vstd::pervasive::unreached(),
            },
            JobPhase::AwaitWrittenHead => match event {
                RenderEvent::Written(Ok(())) => self.request(),
                RenderEvent::Written(Err(err)) => self.fail(ServerError::StoreError(err)),
                _ => vstd::pervasive::unreached(),
            },
            JobPhase::AwaitRequestState => match event {
                RenderEvent::State(Ok(st)) => {
                    self.states.request_state = st;
                    self.resolve()
                },
                RenderEvent::State(Err(err)) => self.fail(err),
                _ => vstd::pervasive::unreached(),
            },
            JobPhase::AwaitResolvedHead => match event {
                RenderEvent::Rendered(hd) => {
                    self.head = hd;
                    if self.render_html {
                        self.phase = JobPhase::AwaitResolvedHtml;
                        RenderAction::RenderHtml {
                            path_with_locale: self.path_with_locale.clone(),
                            state: clone_opt(&self.resolved),
                        }
                    } else {
                        self.finish()
                    }
                },
                _ => vstd::pervasive::unreached(),
            },
            JobPhase::AwaitResolvedHtml => match event {
                RenderEvent::Rendered(h) => {
                    self.html = h;
                    self.finish()
                },
                _ => vstd::pervasive::unreached(),
            },
            JobPhase::AwaitAmalgamated => match event {
                RenderEvent::State(Ok(st)) => {
                    self.resolved = clone_opt(&st);
                    if self.render_html {
                        self.phase = JobPhase::AwaitAmalgamatedHtml;
                        RenderAction::RenderHtml { path_with_locale: self.path_with_locale.clone(), state: st }
                    } else {
                        self.html = String::new();
                        self.phase = JobPhase::AwaitAmalgamatedHead;
                        RenderAction::RenderHead { state: st }
                    }
                },
                RenderEvent::State(Err(err)) => self.fail(err),
                _ => vstd::pervasive::unreached(),
            },
            JobPhase::AwaitAmalgamatedHtml => match event {
                RenderEvent::Rendered(h) => {
                    self.html = h;
                    self.phase = JobPhase::AwaitAmalgamatedHead;
                    RenderAction::RenderHead { state: clone_opt(&self.resolved) }
                },
                _ => vstd::pervasive::unreached(),
            },
            JobPhase::AwaitAmalgamatedHead => match event {
                RenderEvent::Rendered(hd) => {
                    self.head = hd;
                    self.finish()
                },
                _ => vstd::pervasive::unreached(),
            },
            JobPhase::Finished => vstd::pervasive::unreached(),
        }
    }
}

/// The work that getting the full global state asks of its surroundings.
#[derive(Debug)]
pub enum GlobalStateAction {
    /// Generate the global state at request time for the locale; answered
    /// with the generated state.
    GenerateRequestState { locale: String },
    /// Amalgamate the global states built before and generated now; answered
    /// with the amalgamated state.
    AmalgamateStates { locale: String, build_state: Option<String>, request_state: Option<String> },
    /// The full global state: the job is done.
    Done(Option<String>),
    /// The job failed with this error.
    Failed(ServerError),
}

/// Where getting the full global state stands.
#[derive(Debug, Clone, Copy, PartialEq, Eq, Structural)]
pub enum GlobalStatePhase {
    AwaitRequestState,
    AwaitAmalgamated,
    Finished,
}

/// Getting the full global state for a request from the state built before
/// (`None` for empty) and the global state creator's abilities.
#[derive(Debug)]
pub struct GlobalStateJob {
    /// The locale of the request.
    pub locale: String,
    /// The global state built at build time.
    pub built_state: Option<String>,
    /// Whether the creator generates global state at request time.
    pub uses_request_state: bool,
    /// Whether the creator can amalgamate build and request global state.
    pub can_amalgamate_states: bool,
    /// Where the job stands.
    pub phase: GlobalStatePhase,
}

/// One step of getting the full global state: request-time state wins over
/// the state built before unless the creator can amalgamate the two, and a
/// creator without request-time state keeps what was built.
pub open spec fn global_step_spec(
    pre: GlobalStateJob,
    res: Result<Option<String>, ServerError>,
    post: GlobalStateJob,
    a: GlobalStateAction,
) -> bool {
    match res {
        Err(err) => post == GlobalStateJob { phase: GlobalStatePhase::Finished, ..pre } && a
            == GlobalStateAction::Failed(err),
        Ok(st) => match pre.phase {
            GlobalStatePhase::AwaitRequestState => if pre.built_state is Some && pre.can_amalgamate_states {
                post == GlobalStateJob { phase: GlobalStatePhase::AwaitAmalgamated, ..pre } && a
                    == GlobalStateAction::AmalgamateStates {
                    locale: pre.locale,
                    build_state: pre.built_state,
                    request_state: st,
                }
            } else {
                post == GlobalStateJob { phase: GlobalStatePhase::Finished, ..pre } && a
                    == GlobalStateAction::Done(st)
            },
            GlobalStatePhase::AwaitAmalgamated => post == GlobalStateJob {
                phase: GlobalStatePhase::Finished,
                ..pre
            } && a == GlobalStateAction::Done(st),
            GlobalStatePhase::Finished => false,
        },
    }
}

impl GlobalStateJob {
    /// Starts getting the full global state: done at once where the creator
    /// generates nothing at request time.
    pub fn new(
        locale: String,
        built_state: Option<String>,
        uses_request_state: bool,
        can_amalgamate_states: bool,
    ) -> (r: (GlobalStateJob, GlobalStateAction))
        ensures
            r.0.locale == locale,
            r.0.built_state == built_state,
            r.0.uses_request_state == uses_request_state,
            r.0.can_amalgamate_states == can_amalgamate_states,
            uses_request_state ==> r.0.phase == GlobalStatePhase::AwaitRequestState && r.1 == (
            GlobalStateAction::GenerateRequestState { locale }),
            !uses_request_state ==> r.0.phase == GlobalStatePhase::Finished && r.1
                == GlobalStateAction::Done(built_state),
    {
        if uses_request_state {
            let job = GlobalStateJob {
                locale: locale.clone(),
                built_state,
                uses_request_state,
                can_amalgamate_states,
                phase: GlobalStatePhase::AwaitRequestState,
            };
            (job, GlobalStateAction::GenerateRequestState { locale })
        } else {
            let done = clone_opt(&built_state);
            let job = GlobalStateJob {
                locale,
                built_state,
                uses_request_state,
                can_amalgamate_states,
                phase: GlobalStatePhase::Finished,
            };
            (job, GlobalStateAction::Done(done))
        }
    }

    /// Takes the state generated for the last action and gives the next one.
    pub fn step(&mut self, res: Result<Option<String>, ServerError>) -> (a: GlobalStateAction)
        requires
            old(self).phase != GlobalStatePhase::Finished,
        ensures
            global_step_spec(*old(self), res, *final(self), a),
    {
        match res {
            Err(err) => {
                self.phase = GlobalStatePhase::Finished;
                GlobalStateAction::Failed(err)
            },
            Ok(st) => match self.phase {
                GlobalStatePhase::AwaitRequestState => if self.built_state.is_some()
                    && self.can_amalgamate_states {
                    self.phase = GlobalStatePhase::AwaitAmalgamated;
                    GlobalStateAction::AmalgamateStates {
                        locale: self.locale.clone(),
                        build_state: clone_opt(&self.built_state),
                        request_state: st,
                    }
                } else {
                    self.phase = GlobalStatePhase::Finished;
                    GlobalStateAction::Done(st)
                },
                _ => {
                    self.phase = GlobalStatePhase::Finished;
                    GlobalStateAction::Done(st)
                },
            },
        }
    }
}

/// How far a job is from finishing, at most: every step lowers it.
pub open spec fn phase_rank(p: JobPhase) -> nat {
    match p {
        JobPhase::AwaitTranslator => 30,
        JobPhase::AwaitExtra => 29,
        JobPhase::AwaitCachedHtml => 28,
        JobPhase::AwaitCachedHead => 27,
        JobPhase::AwaitRevalidationTime => 26,
        JobPhase::AwaitNow => 25,
        JobPhase::AwaitRevalidationLogic => 24,
        JobPhase::AwaitStoredHtml(_) => 23,
        JobPhase::AwaitStoredHead(_) => 22,
        JobPhase::AwaitStoredState(_) => 21,
        JobPhase::AwaitBuildState => 20,
        JobPhase::AwaitFreshHtml => 19,
        JobPhase::AwaitFreshHead => 18,
        JobPhase::AwaitRevalidationTimestamp => 17,
        JobPhase::AwaitWrittenTime => 16,
        JobPhase::AwaitWrittenState => 15,
        JobPhase::AwaitWrittenHtml => 14,
        JobPhase::AwaitWrittenHead => 13,
        JobPhase::AwaitRequestState => 10,
        JobPhase::AwaitResolvedHead => 9,
        JobPhase::AwaitResolvedHtml => 8,
        JobPhase::AwaitAmalgamated => 7,
        JobPhase::AwaitAmalgamatedHtml => 6,
        JobPhase::AwaitAmalgamatedHead => 5,
        JobPhase::Finished => 0,
    }
}

/// Every job finishes: each step brings it strictly closer to the end, so a
/// job takes at most thirty steps.
pub proof fn law_job_progresses(pre: PageStateJob, e: RenderEvent, post: PageStateJob, a: RenderAction)
    requires
        step_spec(pre, e, post, a),
    ensures
        phase_rank(post.phase) < phase_rank(pre.phase),
{
}

/// A job ends exactly when it gives the page's data or an error.
pub proof fn law_ends_with_result(pre: PageStateJob, e: RenderEvent, post: PageStateJob, a: RenderAction)
    requires
        step_spec(pre, e, post, a),
    ensures
        post.phase == JobPhase::Finished <==> (a is Done || a is Failed),
{
}

/// Where the content is not asked for, the page's data holds none.
pub proof fn law_no_content_unless_asked(pre: PageStateJob, e: RenderEvent, post: PageStateJob, a: RenderAction)
    requires
        step_spec(pre, e, post, a),
        !pre.render_html,
    ensures
        a matches RenderAction::Done(pd) ==> pd.content@ == Seq::<char>::empty(),
{
}

/// Request state wins over build state where the template cannot
/// amalgamate the two.
pub proof fn law_request_state_wins(pre: PageStateJob, st: Option<String>, post: PageStateJob, a: RenderAction)
    requires
        pre.phase == JobPhase::AwaitRequestState,
        pre.states.build_state is Some,
        st is Some,
        !pre.template.can_amalgamate_states,
        step_spec(pre, RenderEvent::State(Ok(st)), post, a),
    ensures
        post.resolved == st,
        a == (RenderAction::RenderHead { state: st }),
{
}

/// A revalidation time still to come means no revalidation, whatever the
/// template's logic would say.
pub proof fn law_future_revalidation_keeps_page(
    pre: PageStateJob,
    secs: i64,
    nanos: u32,
    post: PageStateJob,
    a: RenderAction,
)
    requires
        pre.phase == JobPhase::AwaitNow,
        later(pre.revalidate_at, (secs, nanos)),
        step_spec(pre, RenderEvent::Now { secs, nanos }, post, a),
    ensures
        !(a is GenerateBuildState),
        !(a is ShouldRevalidate),
{
}

/// In development nothing incrementally cached is used: the page is
/// generated afresh.
pub proof fn law_no_cache_in_development(
    pre: PageStateJob,
    e: RenderEvent,
    post: PageStateJob,
    a: RenderAction,
)
    requires
        pre.phase == JobPhase::AwaitCachedHtml,
        pre.dev,
        step_spec(pre, e, post, a),
    ensures
        a == (RenderAction::GenerateBuildState { info: pre.info() }),
{
}

/// The mutable store is written to only while caching freshly generated
/// state, content and metadata.
pub proof fn law_writes_only_when_caching(pre: PageStateJob, e: RenderEvent, post: PageStateJob, a: RenderAction)
    requires
        step_spec(pre, e, post, a),
        a is Write,
    ensures
        pre.phase == JobPhase::AwaitFreshHead || pre.phase == JobPhase::AwaitRevalidationTimestamp
            || pre.phase == JobPhase::AwaitWrittenTime || pre.phase == JobPhase::AwaitWrittenState
            || pre.phase == JobPhase::AwaitWrittenHtml,
{
}

/// A basic template's pages are static: once the extra build state is in,
/// the page is read from the immutable store.
pub proof fn law_basic_pages_are_static(pre: PageStateJob, e: RenderEvent, post: PageStateJob, a: RenderAction)
    requires
        pre.phase == JobPhase::AwaitExtra,
        pre.template.is_basic_spec(),
        e matches RenderEvent::Read(Ok(s)) && json_reserialized(s@) is Ok,
        step_spec(pre, e, post, a),
    ensures
        a matches RenderAction::Read { store, .. } && store == StoreKind::Immutable,
{
}

/// A page prerendered at build time (not an incremental match) of a
/// template with build state that does not revalidate is read as stored, from
/// the immutable store, whether or not the template also generates pages
/// incrementally; only an incremental match of such a template looks in the
/// incremental cache (the mutable store) or is generated afresh.
pub proof fn law_prerendered_pages_are_read_as_stored(
    pre: PageStateJob,
    e: RenderEvent,
    post: PageStateJob,
    a: RenderAction,
)
    requires
        pre.phase == JobPhase::AwaitExtra,
        pre.template.uses_build_state,
        !pre.template.revalidates_with_time,
        !pre.template.revalidates_with_logic,
        e matches RenderEvent::Read(Ok(s)) && json_reserialized(s@) is Ok,
        step_spec(pre, e, post, a),
    ensures
        !pre.was_incremental_match ==> (a matches RenderAction::Read { store, .. } && store == StoreKind::Immutable),
        pre.was_incremental_match && pre.template.uses_incremental ==> (a matches RenderAction::Read { store, .. }
            && store == StoreKind::Mutable) || a is GenerateBuildState,
{
}

/// The template's revalidation logic has the last word: where it finds
/// revalidation due, build state is generated afresh; where not, the cached
/// or stored page is read.
pub proof fn law_revalidation_logic_decides(pre: PageStateJob, due: bool, post: PageStateJob, a: RenderAction)
    requires
        pre.phase == JobPhase::AwaitRevalidationLogic,
        step_spec(pre, RenderEvent::Decision(Ok(due)), post, a),
    ensures
        due ==> a == (RenderAction::GenerateBuildState { info: pre.info() }),
        !due ==> a is Read,
{
}

} // verus!
