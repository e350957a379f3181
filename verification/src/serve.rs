//! Serving pages: matching a path to its template by the render
//! configuration, and getting the page's content and state, deciding among
//! incremental caching, revalidation, stored assets and state generated at
//! request time.
use crate::assoc::{has_key, keys_distinct, lemma_to_map_dom, lemma_to_map_index, to_map};
use crate::errors::{ServeError, ServerError, StoreError};
use crate::server::render::{
    defined_state, later, parse_rfc3339, rfc3339_instant, state_json, url_encode, url_encoded,
    TemplateFeatures,
};
use crate::template::states::States;
use crate::text::{join, split_on, split_string};
use crate::translator::lightweight::string_pairs;
use vstd::prelude::*;

verus! {

/// The render configuration as a map from paths to template names.
pub open spec fn cfg_map(cfg: Seq<(String, String)>) -> Map<Seq<char>, Seq<char>> {
    to_map(string_pairs(cfg))
}

/// The key tried for incremental generation after `i + 1` path segments.
pub open spec fn isr_key(segs: Seq<Seq<char>>, i: int) -> Seq<char> {
    join(segs.take(i + 1), "/"@) + "/*"@
}

/// The template named by the most specific incremental key, trying the keys
/// for more and more segments from the `i`-th on and stopping at the first
/// that the configuration lacks; `current` is the name found so far.
pub open spec fn isr_match(
    cfg: Map<Seq<char>, Seq<char>>,
    segs: Seq<Seq<char>>,
    i: int,
    current: Seq<char>,
) -> Seq<char>
    decreases segs.len() - i,
{
    if i < 0 || i >= segs.len() {
        current
    } else if cfg.dom().contains(isr_key(segs, i)) {
        isr_match(cfg, segs, i + 1, cfg[isr_key(segs, i)])
    } else {
        current
    }
}

/// The name of the template for `path`: a direct match in the configuration,
/// else the most specific incremental match; empty where there is none.
pub open spec fn template_name_for(cfg: Map<Seq<char>, Seq<char>>, path: Seq<char>) -> Seq<char> {
    let direct = if cfg.dom().contains(path) {
        cfg[path]
    } else {
        Seq::empty()
    };
    if direct.len() > 0 {
        direct
    } else {
        isr_match(cfg, split_on(path, '/'), 0, Seq::empty())
    }
}

/// Looks `k` up in the configuration.
fn cfg_get(cfg: &Vec<(String, String)>, k: &String) -> (r: Option<String>)
    requires
        keys_distinct(string_pairs(cfg@)),
    ensures
        match r {
            Some(v) => cfg_map(cfg@).dom().contains(k@) && cfg_map(cfg@)[k@] == v@,
            None => !cfg_map(cfg@).dom().contains(k@),
        },
{
    let ghost ps = string_pairs(cfg@);
    proof {
        lemma_to_map_dom(ps, k@);
    }
    match crate::assoc::find_key(cfg, k) {
        Some(i) => {
            proof {
                lemma_to_map_index(ps, i as int);
            }
            Some(cfg[i].1.clone())
        },
        None => {
            proof {
                if has_key(ps, k@) {
                    let j = choose|j: int| 0 <= j < ps.len() && ps[j].0 == k@;
                    assert(cfg@[j].0@ == k@);
                }
            }
            None
        },
    }
}

/// Matches a path to the name of its template: a direct match in the render
/// configuration first, then incremental matches of more and more specific
/// `<segments>/*` keys, as long as they are found. `None` where the page
/// doesn't exist.
pub fn match_template(path: &str, render_cfg: &Vec<(String, String)>) -> (r: Option<String>)
    requires
        keys_distinct(string_pairs(render_cfg@)),
    ensures
        match r {
            Some(t) => t@ == template_name_for(cfg_map(render_cfg@), path@) && t@.len() > 0,
            None => template_name_for(cfg_map(render_cfg@), path@).len() == 0,
        },
{
    let ghost cfg = cfg_map(render_cfg@);
    let key = path.to_owned();
    let mut name = match cfg_get(render_cfg, &key) {
        Some(t) => t,
        None => String::new(),
    };
    if name.unicode_len() == 0 {
        let segs = split_string(path, '/');
        let ghost sv = segs@.map_values(|p: String| p@);
        let mut prefix = String::new();
        let mut i: usize = 0;
        while i < segs.len()
            invariant_except_break
                prefix@ == join(sv.take(i as int), "/"@),
            invariant
                sv == segs@.map_values(|p: String| p@),
                sv == split_on(path@, '/'),
                cfg == cfg_map(render_cfg@),
                keys_distinct(string_pairs(render_cfg@)),
                i <= segs.len(),
                isr_match(cfg, sv, i as int, name@) == isr_match(cfg, sv, 0, Seq::empty()),
            ensures
                name@ == isr_match(cfg, sv, 0, Seq::empty()),
            decreases segs.len() - i,
        {
            assert(sv.take(i + 1).drop_last() == sv.take(i as int));
            if i != 0 {
                prefix.append("/");
            }
            prefix.append(segs[i].as_str());
            assert(prefix@ == join(sv.take(i + 1), "/"@));
            let mut try_key = prefix.clone();
            try_key.append("/*");
            match cfg_get(render_cfg, &try_key) {
                Some(t) => {
                    assert(try_key@ == isr_key(sv, i as int));
                    name = t;
                },
                None => {
                    assert(try_key@ == isr_key(sv, i as int));
                    break;
                },
            }
            i = i + 1;
        }
    }
    if name.unicode_len() == 0 {
        None
    } else {
        Some(name)
    }
}

/// The name of the template for a path, or the error that the page doesn't
/// exist.
pub fn find_template_name(path: &str, render_cfg: &Vec<(String, String)>) -> (r: Result<String, ServeError>)
    requires
        keys_distinct(string_pairs(render_cfg@)),
    ensures
        match r {
            Ok(t) => t@ == template_name_for(cfg_map(render_cfg@), path@) && t@.len() > 0,
            Err(e) => {
                &&& template_name_for(cfg_map(render_cfg@), path@).len() == 0
                &&& e matches ServeError::PageNotFound { path: p }
                &&& p@ == path@
            },
        },
{
    match match_template(path, render_cfg) {
        Some(t) => Ok(t),
        None => Err(ServeError::PageNotFound { path: path.to_owned() }),
    }
}

/// The template found under a name: a page whose template is missing doesn't
/// exist.
pub fn require_template(path: &str, found: Option<TemplateFeatures>) -> (r: Result<TemplateFeatures, ServeError>)
    ensures
        match found {
            Some(t) => r == Ok::<TemplateFeatures, ServeError>(t),
            None => r matches Err(ServeError::PageNotFound { path: p }) && p@ == path@,
        },
{
    match found {
        Some(t) => Ok(t),
        None => Err(ServeError::PageNotFound { path: path.to_owned() }),
    }
}

/// The name of a page's asset in the app's distribution directory.
pub open spec fn dist_asset(encoded: Seq<char>, suffix: Seq<char>) -> Seq<char> {
    "../app/dist/static/"@ + encoded + suffix
}

/// The work that serving a page asks of its surroundings.
#[derive(Debug)]
pub enum ServeAction {
    /// Read an asset; answered with `ServeEvent::Read`.
    Read { name: String },
    /// Write an asset; answered with `ServeEvent::Written`.
    Write { name: String, content: String },
    /// Generate build state for the path; answered with `ServeEvent::State`.
    GenerateBuildState { path: String },
    /// Generate request state for the path; answered with
    /// `ServeEvent::State`.
    GenerateRequestState { path: String },
    /// Run the template's revalidation logic; answered with
    /// `ServeEvent::Decision`.
    ShouldRevalidate,
    /// Get the current time; answered with `ServeEvent::Now`.
    GetNow,
    /// Compute the time of the next revalidation from the template's
    /// interval; answered with `ServeEvent::Timestamp`.
    ComputeRevalidationTime,
    /// Render the page with the state; answered with `ServeEvent::Rendered`.
    RenderHtml { state: Option<String> },
    /// Amalgamate build and request state; answered with
    /// `ServeEvent::Amalgamated`.
    AmalgamateStates { build_state: Option<String>, request_state: Option<String> },
    /// The page's content and state: the job is done.
    Done { content: String, state: Option<String> },
    /// The job failed with this error.
    Failed(ServerError),
}

/// The answer to the last action of serving a page.
#[derive(Debug)]
pub enum ServeEvent {
    /// The content of the asset.
    Read(Result<String, StoreError>),
    /// Whether the asset was written.
    Written(Result<(), StoreError>),
    /// The generated state.
    State(Result<String, ServerError>),
    /// The amalgamated state.
    Amalgamated(Result<Option<String>, ServerError>),
    /// The template's revalidation decision.
    Decision(Result<bool, ServerError>),
    /// The current time, in seconds since the Unix epoch and nanoseconds.
    Now { secs: i64, nanos: u32 },
    /// The time of the next revalidation, as RFC 3339 text.
    Timestamp(Result<String, ServerError>),
    /// The rendered content.
    Rendered(String),
}

/// Where serving a page stands: the answer it awaits.
#[derive(Debug, Clone, Copy, PartialEq, Eq, Structural)]
pub enum ServePhase {
    AwaitCachedHtml,
    AwaitRevalidationTime,
    AwaitNow,
    AwaitRevalidationLogic,
    AwaitCachedState,
    AwaitStoredHtml,
    AwaitStoredState,
    AwaitBuildState,
    AwaitFreshHtml,
    AwaitRevalidationTimestamp,
    AwaitWrittenTime,
    AwaitWrittenState,
    AwaitWrittenHtml,
    AwaitRequestState,
    AwaitRequestHtml,
    AwaitAmalgamated,
    Finished,
}

/// Serving the page at a path with its template: the decisions of the
/// server, driven by the answers to the actions it asks for.
#[derive(Debug)]
pub struct ServeJob {
    /// The path of the page.
    pub path: String,
    /// The encoded path: the key of the page's assets.
    pub path_encoded: String,
    /// Whether the app runs in development, where nothing is cached.
    pub dev: bool,
    /// The page's template.
    pub template: TemplateFeatures,
    /// Where the job stands.
    pub phase: ServePhase,
    /// The page's content so far.
    pub html: String,
    /// The states generated so far.
    pub states: States,
    /// The revalidation time read from the store.
    pub revalidate_at: (i64, u32),
    /// Whether the page was incrementally cached.
    pub cached: bool,
}

impl ServeJob {
    /// Whether `e` answers the action the job last asked for.
    pub open spec fn expects(self, e: ServeEvent) -> bool {
        match self.phase {
            ServePhase::AwaitCachedHtml | ServePhase::AwaitRevalidationTime | ServePhase::AwaitCachedState
            | ServePhase::AwaitStoredHtml | ServePhase::AwaitStoredState => e is Read,
            ServePhase::AwaitNow => e is Now,
            ServePhase::AwaitRevalidationLogic => e is Decision,
            ServePhase::AwaitBuildState | ServePhase::AwaitRequestState => e is State,
            ServePhase::AwaitFreshHtml | ServePhase::AwaitRequestHtml => e is Rendered,
            ServePhase::AwaitRevalidationTimestamp => e is Timestamp,
            ServePhase::AwaitWrittenTime | ServePhase::AwaitWrittenState | ServePhase::AwaitWrittenHtml => e is Written,
            ServePhase::AwaitAmalgamated => e is Amalgamated,
            ServePhase::Finished => false,
        }
    }
}

/// The job fails with `err`.
pub open spec fn serve_fail_spec(j: ServeJob, err: ServerError, post: ServeJob, a: ServeAction) -> bool {
    post == ServeJob { phase: ServePhase::Finished, ..j } && a == ServeAction::Failed(err)
}

/// The job ends with the page's content and `state`.
pub open spec fn serve_done_spec(j: ServeJob, state: Option<String>, post: ServeJob, a: ServeAction) -> bool {
    post == ServeJob { phase: ServePhase::Finished, ..j } && a == ServeAction::Done { content: j.html, state }
}

/// The job asks to read the asset with `suffix` and awaits it in `phase`.
pub open spec fn serve_read_spec(
    j: ServeJob,
    phase: ServePhase,
    suffix: Seq<char>,
    post: ServeJob,
    a: ServeAction,
) -> bool {
    &&& post == ServeJob { phase, ..j }
    &&& a matches ServeAction::Read { name }
    &&& name@ == dist_asset(j.path_encoded@, suffix)
}

/// The job asks to write `content` to the asset with `suffix` and awaits it
/// in `phase`.
pub open spec fn serve_write_spec(
    j: ServeJob,
    phase: ServePhase,
    suffix: Seq<char>,
    content: Seq<char>,
    post: ServeJob,
    a: ServeAction,
) -> bool {
    &&& post == ServeJob { phase, ..j }
    &&& a matches ServeAction::Write { name, content: c }
    &&& name@ == dist_asset(j.path_encoded@, suffix)
    &&& c@ == content
}

/// Settling the state: the only defined one, amalgamated states where the
/// template can amalgamate them, and otherwise request state.
pub open spec fn serve_resolve_spec(j: ServeJob, post: ServeJob, a: ServeAction) -> bool {
    let both = j.states.build_state is Some && j.states.request_state is Some;
    if !both {
        serve_done_spec(j, defined_state(j.states), post, a)
    } else if j.template.can_amalgamate_states {
        post == ServeJob { phase: ServePhase::AwaitAmalgamated, ..j } && a == ServeAction::AmalgamateStates {
            build_state: j.states.build_state,
            request_state: j.states.request_state,
        }
    } else {
        serve_done_spec(j, j.states.request_state, post, a)
    }
}

/// Generating request state, where the template does: its content always
/// replaces what was there.
pub open spec fn serve_request_spec(j: ServeJob, post: ServeJob, a: ServeAction) -> bool {
    if j.template.uses_request_state {
        post == ServeJob { phase: ServePhase::AwaitRequestState, ..j } && a == ServeAction::GenerateRequestState {
            path: j.path,
        }
    } else {
        serve_resolve_spec(j, post, a)
    }
}

/// Generating build state for the path `p` and caching the page.
pub open spec fn serve_generate_spec(j: ServeJob, p: Seq<char>, post: ServeJob, a: ServeAction) -> bool {
    &&& post == ServeJob { phase: ServePhase::AwaitBuildState, ..j }
    &&& a matches ServeAction::GenerateBuildState { path }
    &&& path@ == p
}

/// What follows the revalidation check: revalidating (generating for the
/// template's path and the page's), or the cached or stored page.
pub open spec fn serve_checked_spec(j: ServeJob, due: bool, post: ServeJob, a: ServeAction) -> bool {
    if due {
        serve_generate_spec(j, j.template.path@ + "/"@ + j.path@, post, a)
    } else if j.cached {
        serve_read_spec(j, ServePhase::AwaitCachedState, ".json"@, post, a)
    } else {
        serve_read_spec(j, ServePhase::AwaitStoredHtml, ".html"@, post, a)
    }
}

/// The revalidation check: time first, then the template's logic, which has
/// the last word.
pub open spec fn serve_check_spec(j: ServeJob, post: ServeJob, a: ServeAction) -> bool {
    if j.template.revalidates_with_time {
        serve_read_spec(j, ServePhase::AwaitRevalidationTime, ".revld.txt"@, post, a)
    } else if j.template.revalidates_with_logic {
        post == ServeJob { phase: ServePhase::AwaitRevalidationLogic, ..j } && a == ServeAction::ShouldRevalidate
    } else {
        serve_checked_spec(j, false, post, a)
    }
}

/// Where the build state comes from, if the template has any.
pub open spec fn serve_build_spec(j: ServeJob, post: ServeJob, a: ServeAction) -> bool {
    if j.template.uses_build_state || j.template.is_basic_spec() {
        if j.template.uses_incremental {
            serve_read_spec(j, ServePhase::AwaitCachedHtml, ".html"@, post, a)
        } else {
            serve_check_spec(j, post, a)
        }
    } else {
        serve_request_spec(j, post, a)
    }
}

/// State read from the store: none where it could not be read.
pub open spec fn serve_state_read_spec(j: ServeJob, res: Result<String, StoreError>, post: ServeJob, a: ServeAction) -> bool {
    match res {
        Ok(s) => serve_request_spec(ServeJob { states: States { build_state: Some(s), ..j.states }, ..j }, post, a),
        Err(_) => serve_request_spec(ServeJob { states: States { build_state: None, ..j.states }, ..j }, post, a),
    }
}

/// One step of serving a page: the answer `e` to its last action moves it
/// from `pre` to `post` and makes it ask for `a`.
pub open spec fn serve_step_spec(pre: ServeJob, e: ServeEvent, post: ServeJob, a: ServeAction) -> bool {
    match pre.phase {
        ServePhase::AwaitCachedHtml => match e {
            ServeEvent::Read(Ok(h)) => if !pre.dev {
                serve_check_spec(ServeJob { html: h, cached: true, ..pre }, post, a)
            } else {
                serve_generate_spec(pre, pre.path@, post, a)
            },
            ServeEvent::Read(Err(_)) => serve_generate_spec(pre, pre.path@, post, a),
            _ => false,
        },
        ServePhase::AwaitRevalidationTime => match e {
            ServeEvent::Read(Ok(s)) => match rfc3339_instant(s@) {
                Ok(t) => post == ServeJob { phase: ServePhase::AwaitNow, revalidate_at: t, ..pre } && a
                    == ServeAction::GetNow,
                Err(m) => {
                    &&& post == ServeJob { phase: ServePhase::Finished, ..pre }
                    &&& a matches ServeAction::Failed(ServerError::ServeError(ServeError::BadRevalidate { source }))
                    &&& source@ == m
                },
            },
            ServeEvent::Read(Err(err)) => serve_fail_spec(pre, ServerError::StoreError(err), post, a),
            _ => false,
        },
        ServePhase::AwaitNow => match e {
            ServeEvent::Now { secs, nanos } => if later(pre.revalidate_at, (secs, nanos)) {
                serve_checked_spec(pre, false, post, a)
            } else if pre.template.revalidates_with_logic {
                post == ServeJob { phase: ServePhase::AwaitRevalidationLogic, ..pre } && a
                    == ServeAction::ShouldRevalidate
            } else {
                serve_checked_spec(pre, true, post, a)
            },
            _ => false,
        },
        ServePhase::AwaitRevalidationLogic => match e {
            ServeEvent::Decision(Ok(due)) => serve_checked_spec(pre, due, post, a),
            ServeEvent::Decision(Err(err)) => serve_fail_spec(pre, err, post, a),
            _ => false,
        },
        ServePhase::AwaitCachedState | ServePhase::AwaitStoredState => match e {
            ServeEvent::Read(res) => serve_state_read_spec(pre, res, post, a),
            _ => false,
        },
        ServePhase::AwaitStoredHtml => match e {
            ServeEvent::Read(Ok(h)) => serve_read_spec(
                ServeJob { html: h, ..pre },
                ServePhase::AwaitStoredState,
                ".json"@,
                post,
                a,
            ),
            ServeEvent::Read(Err(err)) => serve_fail_spec(pre, ServerError::StoreError(err), post, a),
            _ => false,
        },
        ServePhase::AwaitBuildState => match e {
            ServeEvent::State(Ok(s)) => post == ServeJob {
                phase: ServePhase::AwaitFreshHtml,
                states: States { build_state: Some(s), ..pre.states },
                ..pre
            } && a == ServeAction::RenderHtml { state: Some(s) },
            ServeEvent::State(Err(err)) => serve_fail_spec(pre, err, post, a),
            _ => false,
        },
        ServePhase::AwaitFreshHtml => match e {
            ServeEvent::Rendered(h) => if pre.template.revalidates_with_time {
                post == ServeJob { phase: ServePhase::AwaitRevalidationTimestamp, html: h, ..pre } && a
                    == ServeAction::ComputeRevalidationTime
            } else {
                serve_write_spec(
                    ServeJob { html: h, ..pre },
                    ServePhase::AwaitWrittenState,
                    ".json"@,
                    state_json(pre.states.build_state),
                    post,
                    a,
                )
            },
            _ => false,
        },
        ServePhase::AwaitRevalidationTimestamp => match e {
            ServeEvent::Timestamp(Ok(ts)) => serve_write_spec(
                pre,
                ServePhase::AwaitWrittenTime,
                ".revld.txt"@,
                ts@,
                post,
                a,
            ),
            ServeEvent::Timestamp(Err(err)) => serve_fail_spec(pre, err, post, a),
            _ => false,
        },
        ServePhase::AwaitWrittenTime => match e {
            ServeEvent::Written(Ok(())) => serve_write_spec(
                pre,
                ServePhase::AwaitWrittenState,
                ".json"@,
                state_json(pre.states.build_state),
                post,
                a,
            ),
            ServeEvent::Written(Err(err)) => serve_fail_spec(pre, ServerError::StoreError(err), post, a),
            _ => false,
        },
        ServePhase::AwaitWrittenState => match e {
            ServeEvent::Written(Ok(())) => serve_write_spec(pre, ServePhase::AwaitWrittenHtml, ".html"@, pre.html@, post, a),
            ServeEvent::Written(Err(err)) => serve_fail_spec(pre, ServerError::StoreError(err), post, a),
            _ => false,
        },
        ServePhase::AwaitWrittenHtml => match e {
            ServeEvent::Written(Ok(())) => serve_request_spec(pre, post, a),
            ServeEvent::Written(Err(err)) => serve_fail_spec(pre, ServerError::StoreError(err), post, a),
            _ => false,
        },
        ServePhase::AwaitRequestState => match e {
            ServeEvent::State(Ok(s)) => post == ServeJob {
                phase: ServePhase::AwaitRequestHtml,
                states: States { request_state: Some(s), ..pre.states },
                ..pre
            } && a == ServeAction::RenderHtml { state: Some(s) },
            ServeEvent::State(Err(err)) => serve_fail_spec(pre, err, post, a),
            _ => false,
        },
        ServePhase::AwaitRequestHtml => match e {
            ServeEvent::Rendered(h) => serve_resolve_spec(ServeJob { html: h, ..pre }, post, a),
            _ => false,
        },
        ServePhase::AwaitAmalgamated => match e {
            ServeEvent::Amalgamated(Ok(st)) => serve_done_spec(pre, st, post, a),
            ServeEvent::Amalgamated(Err(err)) => serve_fail_spec(pre, err, post, a),
            _ => false,
        },
        ServePhase::Finished => false,
    }
}

/// A copy of an optional string.
fn copy_opt(o: &Option<String>) -> (r: Option<String>)
    ensures
        r == *o,
{
    match o {
        Some(s) => Some(s.clone()),
        None => None,
    }
}

/// The name of a page's asset in the app's distribution directory.
fn dist_asset_name(encoded: &String, suffix: &str) -> (r: String)
    ensures
        r@ == dist_asset(encoded@, suffix@),
{
    let mut r = "../app/dist/static/".to_owned();
    r.append(encoded.as_str());
    r.append(suffix);
    r
}

impl ServeJob {
    /// Starts serving the page at `path` with `template`.
    pub fn new(path: String, template: TemplateFeatures, dev: bool) -> (r: (ServeJob, ServeAction))
        ensures
            r.0.path == path,
            r.0.template == template,
            r.0.dev == dev,
            r.0.path_encoded@ == url_encoded(path@),
            r.0.html@ == Seq::<char>::empty(),
            serve_build_spec(
                (ServeJob {
                    path: r.0.path,
                    path_encoded: r.0.path_encoded,
                    dev,
                    template: r.0.template,
                    phase: ServePhase::Finished,
                    html: r.0.html,
                    states: States { build_state: None, request_state: None },
                    revalidate_at: (0, 0),
                    cached: false,
                }),
                r.0,
                r.1,
            ),
    {
        let path_encoded = url_encode(path.as_str());
        let mut job = ServeJob {
            path,
            path_encoded,
            dev,
            template,
            phase: ServePhase::Finished,
            html: String::new(),
            states: States { build_state: None, request_state: None },
            revalidate_at: (0, 0),
            cached: false,
        };
        let a = job.build();
        (job, a)
    }

    fn fail(&mut self, err: ServerError) -> (a: ServeAction)
        ensures
            serve_fail_spec(*old(self), err, *final(self), a),
    {
        self.phase = ServePhase::Finished;
        ServeAction::Failed(err)
    }

    fn done(&mut self, state: Option<String>) -> (a: ServeAction)
        ensures
            serve_done_spec(*old(self), state, *final(self), a),
    {
        self.phase = ServePhase::Finished;
        ServeAction::Done { content: self.html.clone(), state }
    }

    fn read(&mut self, phase: ServePhase, suffix: &str) -> (a: ServeAction)
        ensures
            serve_read_spec(*old(self), phase, suffix@, *final(self), a),
    {
        self.phase = phase;
        ServeAction::Read { name: dist_asset_name(&self.path_encoded, suffix) }
    }

    fn write(&mut self, phase: ServePhase, suffix: &str, content: String) -> (a: ServeAction)
        ensures
            serve_write_spec(*old(self), phase, suffix@, content@, *final(self), a),
    {
        self.phase = phase;
        ServeAction::Write { name: dist_asset_name(&self.path_encoded, suffix), content }
    }

    fn build_state_json(&self) -> (r: String)
        ensures
            r@ == state_json(self.states.build_state),
    {
        match &self.states.build_state {
            Some(s) => s.clone(),
            None => "null".to_owned(),
        }
    }

    fn resolve(&mut self) -> (a: ServeAction)
        ensures
            serve_resolve_spec(*old(self), *final(self), a),
    {
        let both = self.states.build_state.is_some() && self.states.request_state.is_some();
        if !both {
            let st = if self.states.build_state.is_some() {
                copy_opt(&self.states.build_state)
            } else {
                copy_opt(&self.states.request_state)
            };
            self.done(st)
        } else if self.template.can_amalgamate_states {
            self.phase = ServePhase::AwaitAmalgamated;
            ServeAction::AmalgamateStates {
                build_state: copy_opt(&self.states.build_state),
                request_state: copy_opt(&self.states.request_state),
            }
        } else {
            let st = copy_opt(&self.states.request_state);
            self.done(st)
        }
    }

    fn request(&mut self) -> (a: ServeAction)
        ensures
            serve_request_spec(*old(self), *final(self), a),
    {
        if self.template.uses_request_state {
            self.phase = ServePhase::AwaitRequestState;
            ServeAction::GenerateRequestState { path: self.path.clone() }
        } else {
            self.resolve()
        }
    }

    fn generate(&mut self, p: String) -> (a: ServeAction)
        ensures
            serve_generate_spec(*old(self), p@, *final(self), a),
    {
        self.phase = ServePhase::AwaitBuildState;
        ServeAction::GenerateBuildState { path: p }
    }

    fn checked(&mut self, due: bool) -> (a: ServeAction)
        ensures
            serve_checked_spec(*old(self), due, *final(self), a),
    {
        if due {
            let mut p = self.template.path.clone();
            p.append("/");
            p.append(self.path.as_str());
            self.generate(p)
        } else if self.cached {
            self.read(ServePhase::AwaitCachedState, ".json")
        } else {
            self.read(ServePhase::AwaitStoredHtml, ".html")
        }
    }

    fn check(&mut self) -> (a: ServeAction)
        ensures
            serve_check_spec(*old(self), *final(self), a),
    {
        if self.template.revalidates_with_time {
            self.read(ServePhase::AwaitRevalidationTime, ".revld.txt")
        } else if self.template.revalidates_with_logic {
            self.phase = ServePhase::AwaitRevalidationLogic;
            ServeAction::ShouldRevalidate
        } else {
            self.checked(false)
        }
    }

    fn build(&mut self) -> (a: ServeAction)
        ensures
            serve_build_spec(*old(self), *final(self), a),
    {
        if self.template.uses_build_state || self.template.is_basic() {
            if self.template.uses_incremental {
                self.read(ServePhase::AwaitCachedHtml, ".html")
            } else {
                self.check()
            }
        } else {
            self.request()
        }
    }

    fn state_read(&mut self, res: Result<String, StoreError>) -> (a: ServeAction)
        ensures
            serve_state_read_spec(*old(self), res, *final(self), a),
    {
        match res {
            Ok(s) => {
                self.states.build_state = Some(s);
                self.request()
            },
            Err(_) => {
                self.states.build_state = None;
                self.request()
            },
        }
    }

    /// Takes the answer to the last action and gives the next one, until the
    /// page is served or serving it has failed.
    pub fn step(&mut self, event: ServeEvent) -> (a: ServeAction)
        requires
            old(self).expects(event),
        ensures
            serve_step_spec(*old(self), event, *final(self), a),
    {
        match self.phase {
            ServePhase::AwaitCachedHtml => match event {
                ServeEvent::Read(Ok(h)) => if !self.dev {
                    self.html = h;
                    self.cached = true;
                    self.check()
                } else {
                    let p = self.path.clone();
                    self.generate(p)
                },
                ServeEvent::Read(Err(_)) => {
                    let p = self.path.clone();
                    self.generate(p)
                },
                _ => vstd::pervasive::unreached(),
            },
            ServePhase::AwaitRevalidationTime => match event {
                ServeEvent::Read(Ok(s)) => match parse_rfc3339(s.as_str()) {
                    Ok(t) => {
                        self.revalidate_at = t;
                        self.phase = ServePhase::AwaitNow;
                        ServeAction::GetNow
                    },
                    Err(m) => self.fail(ServerError::ServeError(ServeError::BadRevalidate { source: m })),
                },
                ServeEvent::Read(Err(err)) => self.fail(ServerError::StoreError(err)),
                _ => vstd::pervasive::unreached(),
            },
            ServePhase::AwaitNow => match event {
                ServeEvent::Now { secs, nanos } => {
                    let at = self.revalidate_at;
                    if at.0 > secs || (at.0 == secs && at.1 > nanos) {
                        self.checked(false)
                    } else if self.template.revalidates_with_logic {
                        self.phase = ServePhase::AwaitRevalidationLogic;
                        ServeAction::ShouldRevalidate
                    } else {
                        self.checked(true)
                    }
                },
                _ => vstd::pervasive::unreached(),
            },
            ServePhase::AwaitRevalidationLogic => match event {
                ServeEvent::Decision(Ok(due)) => self.checked(due),
                ServeEvent::Decision(Err(err)) => self.fail(err),
                _ => vstd::pervasive::unreached(),
            },
            ServePhase::AwaitCachedState | ServePhase::AwaitStoredState => match event {
                ServeEvent::Read(res) => self.state_read(res),
                _ => vstd::pervasive::unreached(),
            },
            ServePhase::AwaitStoredHtml => match event {
                ServeEvent::Read(Ok(h)) => {
                    self.html = h;
                    self.read(ServePhase::AwaitStoredState, ".json")
                },
                ServeEvent::Read(Err(err)) => self.fail(ServerError::StoreError(err)),
                _ => vstd::pervasive::unreached(),
            },
            ServePhase::AwaitBuildState => match event {
                ServeEvent::State(Ok(s)) => {
                    self.states.build_state = Some(s.clone());
                    self.phase = ServePhase::AwaitFreshHtml;
                    ServeAction::RenderHtml { state: Some(s) }
                },
                ServeEvent::State(Err(err)) => self.fail(err),
                _ => vstd::pervasive::unreached(),
            },
            ServePhase::AwaitFreshHtml => match event {
                ServeEvent::Rendered(h) => {
                    self.html = h;
                    if self.template.revalidates_with_time {
                        self.phase = ServePhase::AwaitRevalidationTimestamp;
                        ServeAction::ComputeRevalidationTime
                    } else {
                        let content = self.build_state_json();
                        self.write(ServePhase::AwaitWrittenState, ".json", content)
                    }
                },
                _ => vstd::pervasive::unreached(),
            },
            ServePhase::AwaitRevalidationTimestamp => match event {
                ServeEvent::Timestamp(Ok(ts)) => self.write(ServePhase::AwaitWrittenTime, ".revld.txt", ts),
                ServeEvent::Timestamp(Err(err)) => self.fail(err),
                _ => vstd::pervasive::unreached(),
            },
            ServePhase::AwaitWrittenTime => match event {
                ServeEvent::Written(Ok(())) => {
                    let content = self.build_state_json();
                    self.write(ServePhase::AwaitWrittenState, ".json", content)
                },
                ServeEvent::Written(Err(err)) => self.fail(ServerError::StoreError(err)),
                _ => vstd::pervasive::unreached(),
            },
            ServePhase::AwaitWrittenState => match event {
                ServeEvent::Written(Ok(())) => {
                    let content = self.html.clone();
                    self.write(ServePhase::AwaitWrittenHtml, ".html", content)
                },
                ServeEvent::Written(Err(err)) => self.fail(ServerError::StoreError(err)),
                _ => vstd::pervasive::unreached(),
            },
            ServePhase::AwaitWrittenHtml => match event {
                ServeEvent::Written(Ok(())) => self.request(),
                ServeEvent::Written(Err(err)) => self.fail(ServerError::StoreError(err)),
                _ => vstd::pervasive::unreached(),
            },
            ServePhase::AwaitRequestState => match event {
                ServeEvent::State(Ok(s)) => {
                    self.states.request_state = Some(s.clone());
                    self.phase = ServePhase::AwaitRequestHtml;
                    ServeAction::RenderHtml { state: Some(s) }
                },
                ServeEvent::State(Err(err)) => self.fail(err),
                _ => vstd::pervasive::unreached(),
            },
            ServePhase::AwaitRequestHtml => match event {
                ServeEvent::Rendered(h) => {
                    self.html = h;
                    self.resolve()
                },
                _ => vstd::pervasive::unreached(),
            },
            ServePhase::AwaitAmalgamated => match event {
                ServeEvent::Amalgamated(Ok(st)) => self.done(st),
                ServeEvent::Amalgamated(Err(err)) => self.fail(err),
                _ => vstd::pervasive::unreached(),
            },
            ServePhase::Finished => vstd::pervasive::unreached(),
        }
    }
}

/// A direct match in the configuration wins over incremental matches.
pub proof fn law_direct_match_wins(cfg: Map<Seq<char>, Seq<char>>, path: Seq<char>)
    requires
        cfg.dom().contains(path),
        cfg[path].len() > 0,
    ensures
        template_name_for(cfg, path) == cfg[path],
{
}

/// The incremental match from the `i`-th key on is `current` or the template
/// of one of those keys.
proof fn lemma_isr_match_named(cfg: Map<Seq<char>, Seq<char>>, segs: Seq<Seq<char>>, i: int, current: Seq<char>)
    ensures
        isr_match(cfg, segs, i, current) == current || exists|j: int|
            i <= j < segs.len() && cfg.dom().contains(#[trigger] isr_key(segs, j)) && cfg[isr_key(segs, j)]
                == isr_match(cfg, segs, i, current),
    decreases segs.len() - i,
{
    if 0 <= i < segs.len() && cfg.dom().contains(isr_key(segs, i)) {
        lemma_isr_match_named(cfg, segs, i + 1, cfg[isr_key(segs, i)]);
    }
}

/// A page's template is one that the configuration names: under the page's
/// path itself or under an incremental `<segments>/*` key of it.
pub proof fn law_matched_template_is_configured(cfg: Map<Seq<char>, Seq<char>>, path: Seq<char>)
    requires
        template_name_for(cfg, path).len() > 0,
    ensures
        exists|k: Seq<char>| cfg.dom().contains(k) && cfg[k] == template_name_for(cfg, path),
{
    let segs = split_on(path, '/');
    if !(cfg.dom().contains(path) && cfg[path].len() > 0) {
        lemma_isr_match_named(cfg, segs, 0, Seq::empty());
        let j = choose|j: int|
            0 <= j < segs.len() && cfg.dom().contains(#[trigger] isr_key(segs, j)) && cfg[isr_key(segs, j)]
                == isr_match(cfg, segs, 0, Seq::empty());
        assert(cfg.dom().contains(isr_key(segs, j)));
    }
}

/// How far serving a page is from finishing, at most: every step lowers it.
pub open spec fn serve_rank(p: ServePhase) -> nat {
    match p {
        ServePhase::AwaitCachedHtml => 20,
        ServePhase::AwaitRevalidationTime => 19,
        ServePhase::AwaitNow => 18,
        ServePhase::AwaitRevalidationLogic => 17,
        ServePhase::AwaitStoredHtml => 16,
        ServePhase::AwaitCachedState => 15,
        ServePhase::AwaitStoredState => 15,
        ServePhase::AwaitBuildState => 14,
        ServePhase::AwaitFreshHtml => 13,
        ServePhase::AwaitRevalidationTimestamp => 12,
        ServePhase::AwaitWrittenTime => 11,
        ServePhase::AwaitWrittenState => 10,
        ServePhase::AwaitWrittenHtml => 9,
        ServePhase::AwaitRequestState => 5,
        ServePhase::AwaitRequestHtml => 4,
        ServePhase::AwaitAmalgamated => 3,
        ServePhase::Finished => 0,
    }
}

/// Serving a page always finishes: each step brings it strictly closer to
/// the end.
pub proof fn law_serving_progresses(pre: ServeJob, e: ServeEvent, post: ServeJob, a: ServeAction)
    requires
        serve_step_spec(pre, e, post, a),
    ensures
        serve_rank(post.phase) < serve_rank(pre.phase),
        post.phase == ServePhase::Finished <==> (a is Done || a is Failed),
{
}

/// HTML rendered at request time replaces anything generated before: the
/// page is served with it, whatever the states amalgamate to.
pub proof fn law_request_html_wins(pre: ServeJob, h: String, post: ServeJob, a: ServeAction)
    requires
        pre.phase == ServePhase::AwaitRequestHtml,
        serve_step_spec(pre, ServeEvent::Rendered(h), post, a),
    ensures
        post.html == h,
        a matches ServeAction::Done { content, .. } ==> content == h,
{
}

/// Amalgamation keeps the content that was served so far.
pub proof fn law_amalgamation_keeps_content(pre: ServeJob, e: ServeEvent, post: ServeJob, a: ServeAction)
    requires
        pre.phase == ServePhase::AwaitAmalgamated,
        serve_step_spec(pre, e, post, a),
    ensures
        a matches ServeAction::Done { content, .. } ==> content == pre.html,
{
}

/// A page whose stored revalidation time is still to come is not
/// revalidated: once the current time is known, serving goes on with the
/// cached or stored page, neither regenerating it nor asking the template's
/// logic; once that time has come, the page is regenerated or the logic is
/// asked.
pub proof fn law_future_revalidation_serves_page(
    pre: ServeJob,
    secs: i64,
    nanos: u32,
    post: ServeJob,
    a: ServeAction,
)
    requires
        pre.phase == ServePhase::AwaitNow,
        serve_step_spec(pre, ServeEvent::Now { secs, nanos }, post, a),
    ensures
        pre.revalidate_at.0 > secs || (pre.revalidate_at.0 == secs && pre.revalidate_at.1 > nanos) ==> {
            &&& a is Read
            &&& post.phase == ServePhase::AwaitCachedState || post.phase == ServePhase::AwaitStoredHtml
        },
        !(pre.revalidate_at.0 > secs || (pre.revalidate_at.0 == secs && pre.revalidate_at.1 > nanos)) ==> (
        a is GenerateBuildState || a is ShouldRevalidate),
{
}

/// The template's revalidation logic has the last word: where it finds
/// revalidation due, the page is regenerated (for the template's path and the
/// page's); where not, the cached or stored page is read.
pub proof fn law_revalidation_logic_decides(pre: ServeJob, due: bool, post: ServeJob, a: ServeAction)
    requires
        pre.phase == ServePhase::AwaitRevalidationLogic,
        serve_step_spec(pre, ServeEvent::Decision(Ok(due)), post, a),
    ensures
        due ==> (a matches ServeAction::GenerateBuildState { path } && path@ == pre.template.path@ + "/"@
            + pre.path@),
        !due ==> a is Read,
{
}

} // verus!
