//! Widgets: the paths capsules are rendered at, and the decisions of
//! rendering a widget on the engine-side at build time and at request time.
use crate::assoc::{find_key, keys_distinct, lemma_to_map_index, lemma_to_map_dom, to_map};
use crate::errors::{ClientError, ServerError, ServerErrorData, StoreError};
use crate::path::path_maybe_with_locale;
use crate::server::render::{
    asset, join_locale, path_with_locale_spec, url_encode, url_encoded, TemplateFeatures,
};
use crate::state::template_state::{json_reserialized, state_of_json, template_state_from_str};
use crate::text::opt_view;
use vstd::prelude::*;

verus! {

/// `s` without one leading `/`, if it has one.
pub open spec fn strip_leading_slash(s: Seq<char>) -> Seq<char> {
    if s.len() > 0 && s[0] == '/' {
        s.skip(1)
    } else {
        s
    }
}

/// `s` without one trailing `/`, if it has one.
pub open spec fn strip_trailing_slash(s: Seq<char>) -> Seq<char> {
    if s.len() > 0 && s[s.len() - 1] == '/' {
        s.take(s.len() - 1)
    } else {
        s
    }
}

/// The path of a widget: the capsule's path, then the given path without
/// one leading and one trailing slash.
pub open spec fn widget_path_spec(capsule_path: Seq<char>, path: Seq<char>) -> Seq<char> {
    capsule_path + "/"@ + strip_trailing_slash(strip_leading_slash(path))
}

/// The path of the widget of a capsule at `path`.
pub fn widget_path(capsule_path: &str, path: &str) -> (r: String)
    ensures
        r@ == widget_path_spec(capsule_path@, path@),
{
    let n = path.unicode_len();
    let start: usize = if n > 0 && path.get_char(0) == '/' {
        1
    } else {
        0
    };
    let end: usize = if n > start && path.get_char(n - 1) == '/' {
        n - 1
    } else {
        n
    };
    let inner = path.substring_char(start, end);
    proof {
        let a = strip_leading_slash(path@);
        assert(a == path@.subrange(start as int, n as int));
        assert(strip_trailing_slash(a) == path@.subrange(start as int, end as int));
    }
    let mut r = capsule_path.to_owned();
    r.append("/");
    r.append(inner);
    r
}

/// What rendering a widget at build time comes to.
#[derive(Debug)]
pub enum EngineWidgetStep {
    /// The render has already stopped: render nothing.
    Nothing,
    /// The widget cannot be rendered at build time: cancel the render (it
    /// will happen at request time) and render nothing.
    Cancel,
    /// Read the widget's state from the immutable store, then decide with
    /// `engine_widget_state`.
    ReadState { name: String },
    /// The render failed with this error: record it and render nothing.
    Fail(ServerError),
    /// Record the widget's state under the capsule's name and render the
    /// widget at its path with the locale (none for `xx-XX`).
    Render { path_with_locale: String, capsule_name: String, state: Option<String> },
}

/// The name of the state asset of the widget at `path` in `locale`.
pub open spec fn widget_state_asset(locale: Seq<char>, path: Seq<char>) -> Seq<char> {
    asset(locale + "-"@ + url_encoded(path), ".json"@)
}

/// Starts rendering a widget at build time: nothing where the render has
/// already stopped, a cancelled render where the widget isn't in the
/// widget render configuration (`capsule_name` is what it holds for the
/// path) or needs request-time work, else a read of its state.
pub fn engine_widget_start(
    render_ok: bool,
    capsule_name: Option<String>,
    capsule: &TemplateFeatures,
    locale: &str,
    path: &str,
) -> (r: EngineWidgetStep)
    ensures
        !render_ok ==> r is Nothing,
        render_ok && (capsule_name is None || capsule.uses_request_state || capsule.revalidates_spec())
            ==> r is Cancel,
        render_ok && capsule_name is Some && !capsule.uses_request_state && !capsule.revalidates_spec() ==> (
        r matches EngineWidgetStep::ReadState { name } && name@ == widget_state_asset(locale@, path@)),
{
    if !render_ok {
        return EngineWidgetStep::Nothing;
    }
    match capsule_name {
        None => EngineWidgetStep::Cancel,
        Some(_) => if capsule.uses_request_state || capsule.revalidates() {
            EngineWidgetStep::Cancel
        } else {
            let mut key = locale.to_owned();
            key.append("-");
            key.append(url_encode(path).as_str());
            let mut name = "static/".to_owned();
            name.append(key.as_str());
            name.append(".json");
            EngineWidgetStep::ReadState { name }
        },
    }
}

/// Continues rendering a widget at build time with what reading its state
/// gave: a store error or state that isn't JSON fails the render, else the
/// state is recorded and the widget rendered.
pub fn engine_widget_state(
    read: Result<String, StoreError>,
    capsule_name: String,
    locale: &str,
    path: &str,
) -> (r: EngineWidgetStep)
    ensures
        match read {
            Err(e) => r == EngineWidgetStep::Fail(ServerError::StoreError(e)),
            Ok(s) => match json_reserialized(s@) {
                Err(m) => r matches EngineWidgetStep::Fail(ServerError::InvalidPageState { source }) && source@ == m,
                Ok(t) => r matches EngineWidgetStep::Render { path_with_locale, capsule_name: c, state } && c
                    == capsule_name && opt_view(state) == state_of_json(t) && path_with_locale@ == path_with_locale_spec(
                    path@,
                    locale@,
                ),
            },
        },
{
    match read {
        Err(e) => EngineWidgetStep::Fail(ServerError::StoreError(e)),
        Ok(s) => match template_state_from_str(s.as_str()) {
            Err(m) => EngineWidgetStep::Fail(ServerError::InvalidPageState { source: m }),
            Ok(state) => {
                let path_with_locale = join_locale(&path.to_owned(), &locale.to_owned());
                EngineWidgetStep::Render { path_with_locale, capsule_name, state }
            },
        },
    }
}

/// What getting a widget's state at request time gave: its state, or the
/// error the server met.
pub type WidgetStateResult = Result<Option<String>, ServerErrorData>;

/// Widget states by full path (with the locale) as models.
pub open spec fn widget_state_pairs(v: Seq<(String, WidgetStateResult)>) -> Seq<(Seq<char>, WidgetStateResult)> {
    v.map_values(|p: (String, WidgetStateResult)| (p.0@, p.1))
}

/// What rendering a widget at request time comes to.
#[derive(Debug, PartialEq, Eq)]
pub enum RequestWidgetStep {
    /// Render the widget for the server at its full path with this state.
    Render { full_path: String, state: Option<String> },
    /// Render the error views' rendering of this error in place of the
    /// widget.
    ErrorView(ClientError),
    /// The widget's state is not known yet: add its path to the unresolved
    /// widgets, to be resolved for the next pass, and render nothing.
    Unresolved { path: String },
}

/// Decides how to render a widget at request time (on an initial load) from
/// the widget states gathered so far, by the widget's full path in the
/// locale: render it with its state, render the error the server met for
/// it, or record it as unresolved.
pub fn request_widget_step(widget_states: &Vec<(String, WidgetStateResult)>, locale: &str, path: &str) -> (r:
    RequestWidgetStep)
    requires
        keys_distinct(widget_state_pairs(widget_states@)),
    ensures
        ({
            let full = path_with_locale_spec(path@, locale@);
            let m = to_map(widget_state_pairs(widget_states@));
            if !m.dom().contains(full) {
                r matches RequestWidgetStep::Unresolved { path: p } && p@ == path@
            } else {
                match m[full] {
                    Ok(s) => r matches RequestWidgetStep::Render { full_path, state } && full_path@ == full && state
                        == s,
                    Err(e) => r == RequestWidgetStep::ErrorView(
                        ClientError::ServerError { status: e.status, message: e.msg },
                    ),
                }
            }
        }),
{
    let full_path = path_maybe_with_locale(path, locale);
    let ghost ps = widget_state_pairs(widget_states@);
    match find_key(widget_states, &full_path) {
        None => {
            proof {
                lemma_to_map_dom(ps, full_path@);
                if exists|i: int| 0 <= i < ps.len() && ps[i].0 == full_path@ {
                    let i = choose|i: int| 0 <= i < ps.len() && ps[i].0 == full_path@;
                    assert(widget_states@[i].0@ == full_path@);
                }
            }
            RequestWidgetStep::Unresolved { path: path.to_owned() }
        },
        Some(i) => {
            proof {
                lemma_to_map_index(ps, i as int);
                assert(ps[i as int].0 == full_path@);
            }
            match &widget_states[i].1 {
                Ok(state) => RequestWidgetStep::Render { full_path, state: state.clone() },
                Err(e) => RequestWidgetStep::ErrorView(
                    ClientError::ServerError { status: e.status, message: e.msg.clone() },
                ),
            }
        },
    }
}

} // verus!
