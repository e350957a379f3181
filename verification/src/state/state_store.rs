//! The page state store (PSS): a cache of the state and document metadata of
//! each page and widget the user has visited, with least-recently-registered
//! eviction of pages, a keep list, widget dependency tracking and preloads.
use crate::assoc::{
    key_pred, lemma_to_map_filter,
    find_key, contains_string, remove_all_strings, string_views, not_eq, keys_distinct, to_map,
    has_key, lemma_filter_props, lemma_to_map_dom, lemma_to_map_index, lemma_to_map_update,
    lemma_to_map_remove, lemma_to_map_push,
};
use crate::errors::{ClientError, ClientInvariantError, ClientPreloadError};
use crate::path::PathMaybeWithLocale;
use crate::text::opt_view;
use crate::state::rx_state::Freeze;
use vstd::prelude::*;

verus! {

/// The page state of a PSS entry. This is used to determine whether or not we
/// need to request data from the server.
#[derive(Debug)]
pub enum PssState<T> {
    /// There is state.
    Present(T),
    /// There is no state, but there could be some in future.
    Vacant,
    /// There is no state, and there never will be any (i.e. this page does not
    /// use state).
    Never,
}

/// The various things the PSS can contain for a single page. It might have
/// state, a head, both, or neither.
#[derive(Debug, PartialEq, Eq, Structural)]
pub enum PssContains {
    /// There is no entry for this page.
    Nothing,
    /// There is page state only recorded for this page.
    State,
    /// There is only document metadata recorded for this page. There is no
    /// state recorded, but that doesn't mean the page has none.
    Head,
    /// There is document metadata recorded for this page, along with an
    /// assurance that there will never be any state.
    HeadNoState,
    /// Both document metadata and page state are present for this page.
    All,
    /// The page's data has been preloaded, and will need proper processing
    /// into a state.
    Preloaded,
}

/// The data of a page as fetched ahead of time: its state (as JSON text) and
/// its document metadata.
#[derive(Debug)]
pub struct PageDataPartial {
    /// The state of the page, as JSON text.
    pub state: String,
    /// The document metadata of the page.
    pub head: String,
}

/// The model of a [`PageDataPartial`].
pub struct PageDataPartialView {
    pub state: Seq<char>,
    pub head: Seq<char>,
}

impl View for PageDataPartial {
    type V = PageDataPartialView;

    open spec fn view(&self) -> PageDataPartialView {
        PageDataPartialView { state: self.state@, head: self.head@ }
    }
}

/// An entry for a single page or widget in the PSS.
#[derive(Debug)]
pub struct PssEntry<S> {
    /// The page state, if any exists.
    state: PssState<S>,
    /// The document metadata of the page.
    head: Option<String>,
    /// The widgets this page/widget depends on, by path.
    dependencies: Vec<String>,
    /// The pages/widgets that depend on this widget, by path.
    dependents: Vec<String>,
}

/// The model of a [`PssEntry`].
pub struct PssEntryView<S> {
    pub state: PssState<S>,
    pub head: Option<Seq<char>>,
    pub dependencies: Seq<Seq<char>>,
    pub dependents: Seq<Seq<char>>,
}

impl<S> PssEntryView<S> {
    /// An entry with nothing in it.
    pub open spec fn empty() -> Self {
        PssEntryView {
            state: PssState::Vacant,
            head: None,
            dependencies: Seq::empty(),
            dependents: Seq::empty(),
        }
    }
}

impl<S> View for PssEntry<S> {
    type V = PssEntryView<S>;

    closed spec fn view(&self) -> PssEntryView<S> {
        PssEntryView {
            state: self.state,
            head: opt_view(self.head),
            dependencies: string_views(self.dependencies@),
            dependents: string_views(self.dependents@),
        }
    }
}

impl<S> Default for PssEntry<S> {
    fn default() -> (r: Self)
        ensures
            r@ == PssEntryView::<S>::empty(),
    {
        let r = PssEntry {
            state: PssState::Vacant,
            head: None,
            dependencies: Vec::new(),
            dependents: Vec::new(),
        };
        assert(string_views(r.dependencies@) == Seq::<Seq<char>>::empty());
        assert(string_views(r.dependents@) == Seq::<Seq<char>>::empty());
        r
    }
}

impl<S> PssEntry<S> {
    /// Declare that this entry will *never* have state.
    pub fn set_state_never(&mut self)
        ensures
            final(self)@ == (PssEntryView { state: PssState::Never, ..old(self)@ }),
    {
        self.state = PssState::Never;
    }

    /// Adds document metadata to this entry.
    pub fn set_head(&mut self, head: String)
        ensures
            final(self)@ == (PssEntryView { head: Some(head@), ..old(self)@ }),
    {
        self.head = Some(head);
    }

    /// Declares a widget that this page/widget depends on, by its path.
    pub(crate) fn add_dependency(&mut self, path: String)
        ensures
            final(self)@ == (PssEntryView {
                dependencies: old(self)@.dependencies.push(path@),
                ..old(self)@
            }),
    {
        self.dependencies.push(path);
        assert(string_views(self.dependencies@) == string_views(old(self).dependencies@).push(
            path@,
        ));
    }

    /// Declares a page/widget that this widget is used by, by its path.
    pub(crate) fn add_dependent(&mut self, path: String)
        ensures
            final(self)@ == (PssEntryView {
                dependents: old(self)@.dependents.push(path@),
                ..old(self)@
            }),
    {
        self.dependents.push(path);
        assert(string_views(self.dependents@) == string_views(old(self).dependents@).push(path@));
    }

    /// Adds state to this entry. This will return an error if this entry has
    /// previously been marked as having no state.
    pub fn set_state(&mut self, state: S) -> (r: Result<(), ClientError>)
        ensures
            old(self)@.state is Never ==> r == Err::<(), ClientError>(
                ClientError::InvariantError(ClientInvariantError::IllegalStateRegistration),
            ) && final(self)@ == old(self)@,
            !(old(self)@.state is Never) ==> r is Ok && final(self)@ == (PssEntryView {
                state: PssState::Present(state),
                ..old(self)@
            }),
    {
        if let PssState::Never = self.state {
            Err(ClientError::InvariantError(ClientInvariantError::IllegalStateRegistration))
        } else {
            self.state = PssState::Present(state);
            Ok(())
        }
    }
}

/// A container for page state: for each page or widget (keyed by path, with
/// any locale prepended), its state and its document metadata, evicting the
/// oldest pages once more than a maximum number of them are held.
pub struct PageStateStore<S> {
    /// The entries of the store, by path.
    map: Vec<(String, PssEntry<S>)>,
    /// The order in which pages were submitted to the store (widgets and kept
    /// pages are not listed).
    order: Vec<String>,
    /// The maximum number of pages in `order` before the oldest is evicted.
    max_size: usize,
    /// Pages that will be kept in the store no matter what.
    keep_list: Vec<String>,
    /// Pages/widgets whose data have been preloaded globally.
    preloaded: Vec<(String, PageDataPartial)>,
    /// Pages/widgets that have been preloaded for the current route.
    route_preloaded: Vec<(String, PageDataPartial)>,
}

/// The model of a [`PageStateStore`].
pub struct StoreView<S> {
    pub entries: Map<Seq<char>, PssEntryView<S>>,
    pub order: Seq<Seq<char>>,
    pub max_size: nat,
    pub keep_list: Seq<Seq<char>>,
    pub preloaded: Map<Seq<char>, PageDataPartialView>,
    pub route_preloaded: Map<Seq<char>, PageDataPartialView>,
}

/// The entries of a store as (path, entry) pairs of models.
pub open spec fn entry_pairs<S>(v: Seq<(String, PssEntry<S>)>) -> Seq<(Seq<char>, PssEntryView<S>)> {
    v.map_values(|p: (String, PssEntry<S>)| (p.0@, p.1@))
}

/// Preloaded data as (path, data) pairs of models.
pub open spec fn data_pairs(v: Seq<(String, PageDataPartial)>) -> Seq<(Seq<char>, PageDataPartialView)> {
    v.map_values(|p: (String, PageDataPartial)| (p.0@, p.1@))
}

/// The entries left after the widgets that the evicted page `old` depended on
/// have dropped it as a dependent (each dependency in turn, skipping kept
/// ones), and those that no longer have any dependents have been removed.
pub open spec fn evict_widgets<S>(
    m: Map<Seq<char>, PssEntryView<S>>,
    deps: Seq<Seq<char>>,
    old: Seq<char>,
    keep: Seq<Seq<char>>,
) -> Map<Seq<char>, PssEntryView<S>>
    decreases deps.len(),
{
    if deps.len() == 0 {
        m
    } else {
        let d = deps[0];
        let m2 = if keep.contains(d) || !m.dom().contains(d) {
            m
        } else {
            let remaining = m[d].dependents.filter(not_eq(old));
            if remaining.len() == 0 {
                m.remove(d)
            } else {
                m.insert(d, PssEntryView { dependents: remaining, ..m[d] })
            }
        };
        evict_widgets(m2, deps.drop_first(), old, keep)
    }
}

impl<S> StoreView<S> {
    /// The invariant of the store, but for the bound on the number of pages:
    /// no page is twice in the eviction order, and no kept page is in it.
    pub open spec fn wf_base(self) -> bool {
        &&& self.order.no_duplicates()
        &&& forall|i: int| 0 <= i < self.order.len() ==> !self.keep_list.contains(#[trigger] self.order[i])
    }

    /// The invariant of the store.
    pub open spec fn wf(self) -> bool {
        self.wf_base() && self.order.len() <= self.max_size
    }

    /// Entering `url` as the newest page evicts the oldest page, and `url` is
    /// a widget that page depended on and that nothing else depends on, so
    /// that `url`'s entry leaves the store with that page.
    pub open spec fn leaves_with_oldest(self, url: Seq<char>, is_widget: bool) -> bool {
        let r = self.reenter(url);
        &&& !self.keep_list.contains(url)
        &&& !is_widget
        &&& r.order.len() > r.max_size
        &&& r.entry_or_empty(r.order[0]).dependencies.contains(url)
        &&& self.entry_or_empty(url).dependents.filter(not_eq(r.order[0])).len() == 0
    }

    /// The entry for `url`, or an empty one.
    pub open spec fn entry_or_empty(self, url: Seq<char>) -> PssEntryView<S> {
        if self.entries.dom().contains(url) {
            self.entries[url]
        } else {
            PssEntryView::empty()
        }
    }

    /// The store with the entry for `url` replaced.
    pub open spec fn with_entry(self, url: Seq<char>, e: PssEntryView<S>) -> Self {
        StoreView { entries: self.entries.insert(url, e), ..self }
    }

    /// The store with state `val` registered for `url`.
    pub open spec fn with_state(self, url: Seq<char>, val: S) -> Self {
        self.with_entry(url, PssEntryView { state: PssState::Present(val), ..self.entry_or_empty(url) })
    }

    /// The store with document metadata `head` registered for `url`.
    pub open spec fn with_head(self, url: Seq<char>, head: Seq<char>) -> Self {
        self.with_entry(url, PssEntryView { head: Some(head), ..self.entry_or_empty(url) })
    }

    /// The store with `url` marked as never taking state.
    pub open spec fn with_state_never(self, url: Seq<char>) -> Self {
        self.with_entry(url, PssEntryView { state: PssState::Never, ..self.entry_or_empty(url) })
    }

    /// The store after evicting the oldest page, if there are more pages than
    /// the maximum.
    pub open spec fn evict(self) -> Self {
        if self.order.len() > self.max_size && self.order.len() > 0 {
            let old = self.order[0];
            let deps = self.entry_or_empty(old).dependencies;
            StoreView {
                order: self.order.drop_first(),
                entries: evict_widgets(self.entries.remove(old), deps, old, self.keep_list),
                ..self
            }
        } else {
            self
        }
    }

    /// The store with `url` moved (or added) to the end of the eviction order.
    pub open spec fn reenter(self, url: Seq<char>) -> Self {
        StoreView { order: self.order.filter(not_eq(url)).push(url), ..self }
    }

    /// The store after `url` has been (re)entered as the newest page, unless it
    /// is kept or is a widget, followed by any needed eviction.
    pub open spec fn touch(self, url: Seq<char>, is_widget: bool) -> Self {
        if !self.keep_list.contains(url) && !is_widget {
            self.reenter(url).evict()
        } else {
            self
        }
    }

    /// The store after widget `w` was declared a dependency of `c`.
    pub open spec fn with_dependency(self, w: Seq<char>, c: Seq<char>) -> Self {
        let e1 = self.entries.insert(
            c,
            PssEntryView { dependencies: self.entries[c].dependencies.push(w), ..self.entries[c] },
        );
        StoreView {
            entries: e1.insert(w, PssEntryView { dependents: e1[w].dependents.push(c), ..e1[w] }),
            ..self
        }
    }

    /// What the store holds for `url`.
    pub open spec fn contains_spec(self, url: Seq<char>) -> PssContains {
        let c = if !self.entries.dom().contains(url) {
            PssContains::Nothing
        } else {
            let e = self.entries[url];
            match e.state {
                PssState::Present(_) => if e.head is Some {
                    PssContains::All
                } else {
                    PssContains::State
                },
                PssState::Vacant => if e.head is Some {
                    PssContains::Head
                } else {
                    PssContains::Nothing
                },
                PssState::Never => if e.head is Some {
                    PssContains::HeadNoState
                } else {
                    PssContains::Nothing
                },
            }
        };
        if (c == PssContains::Nothing || c == PssContains::Head || c == PssContains::State) && (
        self.preloaded.dom().contains(url) || self.route_preloaded.dom().contains(url)) {
            PssContains::Preloaded
        } else {
            c
        }
    }
}

/// Filtering twice by the same predicate is filtering once.
pub proof fn lemma_filter_twice<A>(s: Seq<A>, p: spec_fn(A) -> bool)
    ensures
        s.filter(p).filter(p) == s.filter(p),
{
    let f = s.filter(p);
    lemma_filter_props(s, p);
    lemma_filter_props(f, p);
    assert forall|i: int| 0 <= i < f.len() implies p(#[trigger] f[i]) by {
        assert(f.contains(f[i]));
    }
}

/// What widget eviction leaves: which entries remain and what they hold.
pub proof fn lemma_evict_widgets<S>(
    m: Map<Seq<char>, PssEntryView<S>>,
    deps: Seq<Seq<char>>,
    old: Seq<char>,
    keep: Seq<Seq<char>>,
)
    ensures
        forall|k: Seq<char>| #[trigger]
            evict_widgets(m, deps, old, keep).dom().contains(k) <==> (m.dom().contains(k) && !(
            deps.contains(k) && !keep.contains(k) && m[k].dependents.filter(not_eq(old)).len()
                == 0)),
        forall|k: Seq<char>| #[trigger]
            evict_widgets(m, deps, old, keep).dom().contains(k) ==> evict_widgets(
                m,
                deps,
                old,
                keep,
            )[k] == (if deps.contains(k) && !keep.contains(k) {
                PssEntryView { dependents: m[k].dependents.filter(not_eq(old)), ..m[k] }
            } else {
                m[k]
            }),
    decreases deps.len(),
{
    if deps.len() > 0 {
        let d = deps[0];
        let rest = deps.drop_first();
        let m2 = if keep.contains(d) || !m.dom().contains(d) {
            m
        } else {
            let remaining = m[d].dependents.filter(not_eq(old));
            if remaining.len() == 0 {
                m.remove(d)
            } else {
                m.insert(d, PssEntryView { dependents: remaining, ..m[d] })
            }
        };
        lemma_evict_widgets(m2, rest, old, keep);
        assert(evict_widgets(m, deps, old, keep) == evict_widgets(m2, rest, old, keep));
        assert forall|k: Seq<char>| k != d implies (#[trigger] deps.contains(k) <==> rest.contains(k)) by {
            if deps.contains(k) {
                let j = choose|j: int| 0 <= j < deps.len() && deps[j] == k;
                assert(j != 0);
                assert(rest[j - 1] == k);
            }
            if rest.contains(k) {
                let j = choose|j: int| 0 <= j < rest.len() && rest[j] == k;
                assert(deps[j + 1] == k);
            }
        }
        assert(deps.contains(d)) by {
            assert(deps[0] == d);
        }
        if m.dom().contains(d) {
            lemma_filter_twice(m[d].dependents, not_eq(old));
        }
    }
}

/// Evicting the oldest page of a store that holds at most one page too many
/// restores the invariant.
pub proof fn lemma_evict_wf<S>(v: StoreView<S>)
    requires
        v.wf_base(),
        v.order.len() <= v.max_size + 1,
    ensures
        v.evict().wf(),
{
    if v.order.len() > v.max_size && v.order.len() > 0 {
        let r = v.evict();
        assert forall|i: int| 0 <= i < r.order.len() implies !r.keep_list.contains(#[trigger] r.order[i]) by {
            assert(r.order[i] == v.order[i + 1]);
        }
        assert(r.order.no_duplicates()) by {
            assert forall|a: int, b: int| 0 <= a < r.order.len() && 0 <= b < r.order.len() && a != b implies r.order[a]
                != r.order[b] by {
                assert(r.order[a] == v.order[a + 1] && r.order[b] == v.order[b + 1]);
            }
        }
    }
}

/// Replacing or adding an entry keeps the invariant.
pub proof fn lemma_with_entry_wf<S>(v: StoreView<S>, url: Seq<char>, e: PssEntryView<S>)
    requires
        v.wf(),
    ensures
        v.with_entry(url, e).wf(),
        v.with_entry(url, e).entries.dom().contains(url),
{
}

/// Re-entering a page as the newest keeps the invariant.
pub proof fn lemma_touch_wf<S>(v: StoreView<S>, url: Seq<char>, is_widget: bool)
    requires
        v.wf(),
    ensures
        v.touch(url, is_widget).wf(),
        !v.keep_list.contains(url) && !is_widget ==> v.reenter(url).wf_base() && v.reenter(
            url,
        ).order.len() <= v.max_size + 1,
{
    if !v.keep_list.contains(url) && !is_widget {
        let f = v.order.filter(not_eq(url));
        lemma_filter_props(v.order, not_eq(url));
        let v1 = v.reenter(url);
        assert(!f.contains(url)) by {
            assert(!not_eq(url)(url));
        }
        assert(v1.order.no_duplicates()) by {
            assert forall|a: int, b: int| 0 <= a < v1.order.len() && 0 <= b < v1.order.len() && a != b implies v1.order[a]
                != v1.order[b] by {
                if a < f.len() && b < f.len() {
                } else if a < f.len() {
                    assert(f.contains(f[a]));
                } else {
                    assert(f.contains(f[b]));
                }
            }
        }
        assert forall|i: int| 0 <= i < v1.order.len() implies !v1.keep_list.contains(#[trigger] v1.order[i]) by {
            if i < f.len() {
                assert(f.contains(f[i]));
                assert(v.order.contains(f[i]));
                let j = choose|j: int| 0 <= j < v.order.len() && v.order[j] == f[i];
                assert(!v.keep_list.contains(v.order[j]));
            }
        }
        assert(v1.wf_base());
        lemma_evict_wf(v1);
    }
}

/// Finds the position of the preloaded data for `url`.
fn data_index(v: &Vec<(String, PageDataPartial)>, url: &String) -> (r: Option<usize>)
    requires
        keys_distinct(data_pairs(v@)),
    ensures
        match r {
            Some(i) => i < v.len() && v@[i as int].0@ == url@ && to_map(data_pairs(v@)).dom().contains(url@)
                && to_map(data_pairs(v@))[url@] == v@[i as int].1@,
            None => !to_map(data_pairs(v@)).dom().contains(url@),
        },
{
    let r = find_key(v, url);
    proof {
        let ps = data_pairs(v@);
        lemma_to_map_dom(ps, url@);
        match r {
            Some(i) => {
                lemma_to_map_index(ps, i as int);
            },
            None => {
                if has_key(ps, url@) {
                    let j = choose|j: int| 0 <= j < ps.len() && ps[j].0 == url@;
                    assert(v@[j].0@ == url@);
                }
            },
        }
    }
    r
}

/// Inserts (or replaces) the preloaded data for `url`.
fn insert_data(v: &mut Vec<(String, PageDataPartial)>, url: String, d: PageDataPartial)
    requires
        keys_distinct(data_pairs(old(v)@)),
    ensures
        keys_distinct(data_pairs(final(v)@)),
        to_map(data_pairs(final(v)@)) == to_map(data_pairs(old(v)@)).insert(url@, d@),
{
    let ghost ps = data_pairs(v@);
    let ghost k = url@;
    let ghost dv = d@;
    match data_index(v, &url) {
        Some(i) => {
            proof {
                lemma_to_map_update(ps, i as int, dv);
            }
            v.remove(i);
            v.insert(i, (url, d));
            assert(data_pairs(v@) == ps.update(i as int, (k, dv)));
        },
        None => {
            proof {
                lemma_to_map_dom(ps, k);
                lemma_to_map_push(ps, k, dv);
            }
            v.push((url, d));
            assert(data_pairs(v@) == ps.push((k, dv)));
        },
    }
}

/// Removes the preloaded data for `url`, returning it if there was any.
fn take_data(v: &mut Vec<(String, PageDataPartial)>, url: &String) -> (r: Option<PageDataPartial>)
    requires
        keys_distinct(data_pairs(old(v)@)),
    ensures
        keys_distinct(data_pairs(final(v)@)),
        to_map(data_pairs(final(v)@)) == to_map(data_pairs(old(v)@)).remove(url@),
        match r {
            Some(d) => to_map(data_pairs(old(v)@)).dom().contains(url@) && d@ == to_map(
                data_pairs(old(v)@),
            )[url@],
            None => !to_map(data_pairs(old(v)@)).dom().contains(url@) && final(v)@ == old(v)@,
        },
{
    let ghost ps = data_pairs(v@);
    match data_index(v, url) {
        Some(i) => {
            proof {
                lemma_to_map_remove(ps, i as int);
            }
            let (_, d) = v.remove(i);
            assert(data_pairs(v@) == ps.remove(i as int));
            Some(d)
        },
        None => {
            assert(to_map(ps).remove(url@) =~= to_map(ps));
            None
        },
    }
}

/// The predicate "is one of `keys`".
pub open spec fn in_seq(keys: Seq<Seq<char>>) -> spec_fn(Seq<char>) -> bool {
    |k: Seq<char>| keys.contains(k)
}

/// The character content of a sequence of string references.
pub open spec fn ref_views(v: Seq<&String>) -> Seq<Seq<char>> {
    v.map_values(|s: &String| s@)
}

/// The address of the page data that preloading a page fetches.
pub open spec fn preload_asset_url_spec(
    path_prefix: Seq<char>,
    locale: Seq<char>,
    path: Seq<char>,
    entity_name: Seq<char>,
    was_incremental_match: bool,
) -> Seq<char> {
    path_prefix + "/.perseus/page/"@ + locale + "/"@ + path + ".json?entity_name="@ + entity_name
        + "&was_incremental_match="@ + (if was_incremental_match {
        "true"@
    } else {
        "false"@
    })
}

/// Builds the address of the page data that preloading a page fetches (the
/// path prefix, then `/.perseus/page/<locale>/<path>.json` with the entity
/// name and whether this was an incremental match as query parameters).
pub fn preload_asset_url(
    path_prefix: &str,
    locale: &str,
    path: &str,
    entity_name: &str,
    was_incremental_match: bool,
) -> (r: String)
    ensures
        r@ == preload_asset_url_spec(path_prefix@, locale@, path@, entity_name@, was_incremental_match),
{
    let mut r = path_prefix.to_owned();
    r.append("/.perseus/page/");
    r.append(locale);
    r.append("/");
    r.append(path);
    r.append(".json?entity_name=");
    r.append(entity_name);
    r.append("&was_incremental_match=");
    if was_incremental_match {
        r.append("true");
    } else {
        r.append("false");
    }
    r
}

impl<S> View for PageStateStore<S> {
    type V = StoreView<S>;

    closed spec fn view(&self) -> StoreView<S> {
        StoreView {
            entries: to_map(entry_pairs(self.map@)),
            order: string_views(self.order@),
            max_size: self.max_size as nat,
            keep_list: string_views(self.keep_list@),
            preloaded: to_map(data_pairs(self.preloaded@)),
            route_preloaded: to_map(data_pairs(self.route_preloaded@)),
        }
    }
}

impl<S> PageStateStore<S> {
    /// The invariant of the store.
    pub closed spec fn wf(&self) -> bool {
        &&& keys_distinct(entry_pairs(self.map@))
        &&& keys_distinct(data_pairs(self.preloaded@))
        &&& keys_distinct(data_pairs(self.route_preloaded@))
        &&& self@.wf()
    }

    /// The model of a well-formed store is well-formed.
    pub proof fn lemma_view_wf(&self)
        requires
            self.wf(),
        ensures
            self@.wf(),
    {
    }

    /// Creates a new, empty page state store with the given maximum size.
    /// After this number of pages have been entered, the oldest ones will have
    /// their states eliminated.
    pub fn new(max_size: usize) -> (r: Self)
        ensures
            r.wf(),
            r@.entries == Map::<Seq<char>, PssEntryView<S>>::empty(),
            r@.order == Seq::<Seq<char>>::empty(),
            r@.keep_list == Seq::<Seq<char>>::empty(),
            r@.max_size == max_size,
            r@.preloaded == Map::<Seq<char>, PageDataPartialView>::empty(),
            r@.route_preloaded == Map::<Seq<char>, PageDataPartialView>::empty(),
    {
        let r = PageStateStore {
            map: Vec::new(),
            order: Vec::new(),
            max_size,
            keep_list: Vec::new(),
            preloaded: Vec::new(),
            route_preloaded: Vec::new(),
        };
        assert(string_views(r.order@) == Seq::<Seq<char>>::empty());
        assert(string_views(r.keep_list@) == Seq::<Seq<char>>::empty());
        assert(entry_pairs(r.map@) == Seq::<(Seq<char>, PssEntryView<S>)>::empty());
        assert(data_pairs(r.preloaded@) == Seq::<(Seq<char>, PageDataPartialView)>::empty());
        assert(data_pairs(r.route_preloaded@) == Seq::<(Seq<char>, PageDataPartialView)>::empty());
        r
    }

    /// Finds the position of the entry for `url`.
    fn entry_index(&self, url: &String) -> (r: Option<usize>)
        requires
            self.wf(),
        ensures
            match r {
                Some(i) => i < self.map.len() && self.map@[i as int].0@ == url@
                    && self@.entries.dom().contains(url@) && self@.entries[url@]
                    == self.map@[i as int].1@,
                None => !self@.entries.dom().contains(url@),
            },
    {
        let r = find_key(&self.map, url);
        proof {
            let ps = entry_pairs(self.map@);
            lemma_to_map_dom(ps, url@);
            match r {
                Some(i) => {
                    lemma_to_map_index(ps, i as int);
                },
                None => {
                    if has_key(ps, url@) {
                        let j = choose|j: int| 0 <= j < ps.len() && ps[j].0 == url@;
                        assert(self.map@[j].0@ == url@);
                    }
                },
            }
        }
        r
    }

    /// Gets the state registered for a URL, if there is any. This will NOT
    /// return any document metadata.
    pub fn get_state(&self, url: &PathMaybeWithLocale) -> (r: Option<&S>)
        requires
            self.wf(),
        ensures
            match r {
                Some(s) => self@.entries.dom().contains(url@) && self@.entries[url@].state
                    == PssState::Present(*s),
                None => !(self@.entries.dom().contains(url@) && self@.entries[url@].state is Present),
            },
    {
        match self.entry_index(url) {
            Some(i) => match &self.map[i].1.state {
                PssState::Present(state) => Some(state),
                _ => None,
            },
            None => None,
        }
    }

    /// Gets the document metadata registered for a URL, if it exists.
    pub fn get_head(&self, url: &PathMaybeWithLocale) -> (r: Option<String>)
        requires
            self.wf(),
        ensures
            opt_view(r) == (if self@.entries.dom().contains(url@) {
                self@.entries[url@].head
            } else {
                None
            }),
    {
        match self.entry_index(url) {
            Some(i) => match &self.map[i].1.head {
                Some(h) => Some(h.clone()),
                None => None,
            },
            None => None,
        }
    }

    /// Replaces the entry at position `i` (keeping its key).
    fn replace_entry(&mut self, i: usize, e: PssEntry<S>)
        requires
            old(self).wf(),
            i < old(self).map.len(),
            e@.dependencies == old(self).map@[i as int].1@.dependencies,
            e@.dependents == old(self).map@[i as int].1@.dependents,
        ensures
            final(self).wf(),
            final(self)@ == old(self)@.with_entry(old(self).map@[i as int].0@, e@),
            final(self).map@[i as int].0@ == old(self).map@[i as int].0@,
    {
        let ghost k = self.map@[i as int].0@;
        let ghost ps = entry_pairs(self.map@);
        proof {
            lemma_to_map_index(ps, i as int);
            lemma_to_map_update(ps, i as int, e@);
            lemma_with_entry_wf(self@, k, e@);
        }
        let (key, _old_entry) = self.map.remove(i);
        self.map.insert(i, (key, e));
        assert(entry_pairs(self.map@) == ps.update(i as int, (k, e@)));
    }

    /// Adds a fresh entry for a path that has none.
    fn push_entry(&mut self, url: &String, e: PssEntry<S>)
        requires
            old(self).wf(),
            !old(self)@.entries.dom().contains(url@),
            e@.dependencies == Seq::<Seq<char>>::empty(),
            e@.dependents == Seq::<Seq<char>>::empty(),
        ensures
            final(self).wf(),
            final(self)@ == old(self)@.with_entry(url@, e@),
    {
        let ghost ps = entry_pairs(self.map@);
        proof {
            lemma_to_map_dom(ps, url@);
            lemma_to_map_push(ps, url@, e@);
            lemma_with_entry_wf(self@, url@, e@);
        }
        self.map.push((url.clone(), e));
        assert(entry_pairs(self.map@) == ps.push((url@, e@)));
    }

    /// Enters `url` as the newest page (unless it is kept or a widget) and
    /// evicts the oldest page if there are now too many.
    fn touch(&mut self, url: &String, is_widget: bool)
        requires
            old(self).wf(),
        ensures
            final(self).wf(),
            final(self)@ == old(self)@.touch(url@, is_widget),
    {
        proof {
            lemma_touch_wf(self@, url@, is_widget);
        }
        if !contains_string(&self.keep_list, url) && !is_widget {
            remove_all_strings(&mut self.order, url);
            self.order.push(url.clone());
            proof {
                lemma_filter_props(old(self)@.order, not_eq(url@));
                assert(string_views(self.order@) == old(self)@.order.filter(not_eq(url@)).push(url@));
                assert(self@ == old(self)@.reenter(url@));
            }
            self.evict_page_if_needed();
        }
    }

    /// Adds page state to the entry in the store with the given URL, creating
    /// it if it doesn't exist. Any state previously set for the item will be
    /// overridden, but any document metadata will be preserved.
    ///
    /// This will be added to the end of the order in which pages are evicted
    /// (removing any previous mention of it there), unless it is a widget or is
    /// kept.
    ///
    /// If there's already an entry for the given URL that has been marked as
    /// not accepting state, this will return an error, and nothing changes.
    pub fn add_state(&mut self, url: &PathMaybeWithLocale, val: S, is_widget: bool) -> (r: Result<
        (),
        ClientError,
    >)
        requires
            old(self).wf(),
        ensures
            final(self).wf(),
            old(self)@.entry_or_empty(url@).state is Never ==> r == Err::<(), ClientError>(
                ClientError::InvariantError(ClientInvariantError::IllegalStateRegistration),
            ) && final(self)@ == old(self)@,
            !(old(self)@.entry_or_empty(url@).state is Never) ==> r is Ok && final(self)@ == old(
                self,
            )@.with_state(url@, val).touch(url@, is_widget),
    {
        match self.entry_index(url) {
            Some(i) => {
                let (key, mut entry) = self.map.remove(i);
                let res = entry.set_state(val);
                self.map.insert(i, (key, entry));
                if res.is_err() {
                    assert(entry_pairs(self.map@) == entry_pairs(old(self).map@));
                    return res;
                }
                assert(self.map@ == old(self).map@.update(i as int, self.map@[i as int]));
                let ghost ps = entry_pairs(old(self).map@);
                proof {
                    lemma_to_map_update(ps, i as int, self.map@[i as int].1@);
                    assert(entry_pairs(self.map@) == ps.update(i as int, (url@, self.map@[i as int].1@)));
                    lemma_with_entry_wf(old(self)@, url@, self.map@[i as int].1@);
                }
            },
            None => {
                let mut entry = PssEntry::default();
                let _ = entry.set_state(val);
                self.push_entry(url, entry);
            },
        }
        self.touch(url, is_widget);
        Ok(())
    }

    /// Adds document metadata to the entry in the store for the given URL,
    /// creating it if it doesn't exist (any state is preserved). The page is
    /// entered as the newest, as for [`PageStateStore::add_state`].
    pub fn add_head(&mut self, url: &PathMaybeWithLocale, head: String, is_widget: bool)
        requires
            old(self).wf(),
        ensures
            final(self).wf(),
            final(self)@ == old(self)@.with_head(url@, head@).touch(url@, is_widget),
    {
        let ghost h = head@;
        match self.entry_index(url) {
            Some(i) => {
                let (key, mut entry) = self.map.remove(i);
                entry.set_head(head);
                self.map.insert(i, (key, entry));
                assert(self.map@ == old(self).map@.update(i as int, self.map@[i as int]));
                let ghost ps = entry_pairs(old(self).map@);
                proof {
                    lemma_to_map_update(ps, i as int, self.map@[i as int].1@);
                    assert(entry_pairs(self.map@) == ps.update(i as int, (url@, self.map@[i as int].1@)));
                    lemma_with_entry_wf(old(self)@, url@, self.map@[i as int].1@);
                }
            },
            None => {
                let mut entry = PssEntry::default();
                entry.set_head(head);
                self.push_entry(url, entry);
            },
        }
        self.touch(url, is_widget);
    }

    /// Sets the given entry as not being able to take any state, creating it
    /// if it doesn't exist. The page is entered as the newest, as for
    /// [`PageStateStore::add_state`].
    pub fn set_state_never(&mut self, url: &PathMaybeWithLocale, is_widget: bool)
        requires
            old(self).wf(),
        ensures
            final(self).wf(),
            final(self)@ == old(self)@.with_state_never(url@).touch(url@, is_widget),
    {
        match self.entry_index(url) {
            Some(i) => {
                let (key, mut entry) = self.map.remove(i);
                entry.set_state_never();
                self.map.insert(i, (key, entry));
                assert(self.map@ == old(self).map@.update(i as int, self.map@[i as int]));
                let ghost ps = entry_pairs(old(self).map@);
                proof {
                    lemma_to_map_update(ps, i as int, self.map@[i as int].1@);
                    assert(entry_pairs(self.map@) == ps.update(i as int, (url@, self.map@[i as int].1@)));
                    lemma_with_entry_wf(old(self)@, url@, self.map@[i as int].1@);
                }
            },
            None => {
                let mut entry = PssEntry::default();
                entry.set_state_never();
                self.push_entry(url, entry);
            },
        }
        self.touch(url, is_widget);
    }

    /// Checks what the store holds for the given URL: an entry's state and
    /// head, or (where that leaves the page incomplete) whether its data has
    /// been preloaded.
    pub fn contains(&self, url: &PathMaybeWithLocale) -> (r: PssContains)
        requires
            self.wf(),
        ensures
            r == self@.contains_spec(url@),
    {
        let c = match self.entry_index(url) {
            Some(i) => {
                let e = &self.map[i].1;
                match &e.state {
                    PssState::Present(_) => if e.head.is_some() {
                        PssContains::All
                    } else {
                        PssContains::State
                    },
                    PssState::Vacant => if e.head.is_some() {
                        PssContains::Head
                    } else {
                        PssContains::Nothing
                    },
                    PssState::Never => if e.head.is_some() {
                        PssContains::HeadNoState
                    } else {
                        PssContains::Nothing
                    },
                }
            },
            None => PssContains::Nothing,
        };
        match c {
            PssContains::Nothing | PssContains::Head | PssContains::State => {
                if data_index(&self.route_preloaded, url).is_some() || data_index(
                    &self.preloaded,
                    url,
                ).is_some() {
                    PssContains::Preloaded
                } else {
                    c
                }
            },
            _ => c,
        }
    }

    /// Overwrites the entry at position `i` (keeping its key), without regard
    /// to the store's invariant.
    fn set_entry_at(&mut self, i: usize, e: PssEntry<S>)
        requires
            keys_distinct(entry_pairs(old(self).map@)),
            i < old(self).map.len(),
        ensures
            keys_distinct(entry_pairs(final(self).map@)),
            final(self)@ == old(self)@.with_entry(old(self).map@[i as int].0@, e@),
            final(self).map.len() == old(self).map.len(),
            forall|j: int| 0 <= j < final(self).map.len() ==> #[trigger] final(self).map@[j].0@ == old(self).map@[j].0@,
            final(self).preloaded == old(self).preloaded,
            final(self).route_preloaded == old(self).route_preloaded,
    {
        let ghost k = self.map@[i as int].0@;
        let ghost ps = entry_pairs(self.map@);
        proof {
            lemma_to_map_update(ps, i as int, e@);
        }
        let (key, _old_entry) = self.map.remove(i);
        self.map.insert(i, (key, e));
        assert(entry_pairs(self.map@) == ps.update(i as int, (k, e@)));
    }

    /// Declares that a certain page/widget depends on a certain widget. This
    /// is recorded in both directions, so that the widget is evicted only
    /// after all the pages using it have been.
    pub fn declare_dependency(
        &mut self,
        widget_path: &PathMaybeWithLocale,
        caller_path: &PathMaybeWithLocale,
    )
        requires
            old(self).wf(),
            old(self)@.entries.dom().contains(widget_path@),
            old(self)@.entries.dom().contains(caller_path@),
        ensures
            final(self).wf(),
            final(self)@ == old(self)@.with_dependency(widget_path@, caller_path@),
    {
        let ci = match self.entry_index(caller_path) {
            Some(i) => i,
            None => {
                return ;
            },
        };
        let (ck, mut caller) = self.map.remove(ci);
        caller.add_dependency(widget_path.clone());
        self.map.insert(ci, (ck, caller));
        let ghost ps = entry_pairs(old(self).map@);
        proof {
            lemma_to_map_update(ps, ci as int, self.map@[ci as int].1@);
            assert(entry_pairs(self.map@) == ps.update(ci as int, (caller_path@, self.map@[ci as int].1@)));
        }
        let ghost mid = self@;
        let wi = match find_key(&self.map, widget_path) {
            Some(i) => i,
            None => {
                proof {
                    let ps2 = entry_pairs(self.map@);
                    lemma_to_map_dom(ps2, widget_path@);
                    let j = choose|j: int| 0 <= j < ps2.len() && ps2[j].0 == widget_path@;
                    assert(self.map@[j].0@ == widget_path@);
                }
                return ;
            },
        };
        let ghost ps2 = entry_pairs(self.map@);
        proof {
            lemma_to_map_index(ps2, wi as int);
        }
        let (wk, mut widget) = self.map.remove(wi);
        widget.add_dependent(caller_path.clone());
        self.map.insert(wi, (wk, widget));
        proof {
            lemma_to_map_update(ps2, wi as int, self.map@[wi as int].1@);
            assert(entry_pairs(self.map@) == ps2.update(wi as int, (widget_path@, self.map@[wi as int].1@)));
            assert(self@.entries == mid.entries.insert(widget_path@, self.map@[wi as int].1@));
        }
    }

    /// Forces the store to keep a certain page, so that it is never evicted.
    pub fn force_keep(&mut self, url: &PathMaybeWithLocale)
        requires
            old(self).wf(),
        ensures
            final(self).wf(),
            final(self)@ == (StoreView {
                order: old(self)@.order.filter(not_eq(url@)),
                keep_list: old(self)@.keep_list.push(url@),
                ..old(self)@
            }),
    {
        remove_all_strings(&mut self.order, url);
        self.keep_list.push(url.clone());
        proof {
            let v = old(self)@;
            let r = self@;
            lemma_filter_props(v.order, not_eq(url@));
            assert(string_views(self.keep_list@) == v.keep_list.push(url@));
            assert forall|i: int| 0 <= i < r.order.len() implies !r.keep_list.contains(#[trigger] r.order[i]) by {
                let o = r.order[i];
                assert(r.order.contains(o));
                let j = choose|j: int| 0 <= j < v.order.len() && v.order[j] == o;
                assert(!v.keep_list.contains(v.order[j]));
                assert(o != url@);
                if r.keep_list.contains(o) {
                    let q = choose|q: int| 0 <= q < r.keep_list.len() && r.keep_list[q] == o;
                    if q < v.keep_list.len() {
                        assert(v.keep_list.contains(o));
                    }
                }
            }
        }
    }

    /// Forcibly removes a page from the store (and from the eviction order),
    /// returning its entry, if it was found.
    pub fn force_remove(&mut self, url: &PathMaybeWithLocale) -> (r: Option<PssEntry<S>>)
        requires
            old(self).wf(),
        ensures
            final(self).wf(),
            final(self)@ == (StoreView {
                order: old(self)@.order.filter(not_eq(url@)),
                entries: old(self)@.entries.remove(url@),
                ..old(self)@
            }),
            match r {
                Some(e) => old(self)@.entries.dom().contains(url@) && e@ == old(self)@.entries[url@],
                None => !old(self)@.entries.dom().contains(url@),
            },
    {
        let ghost ps = entry_pairs(self.map@);
        let idx = self.entry_index(url);
        remove_all_strings(&mut self.order, url);
        let r = match idx {
            Some(i) => {
                proof {
                    lemma_to_map_remove(ps, i as int);
                }
                let (_, e) = self.map.remove(i);
                assert(entry_pairs(self.map@) == ps.remove(i as int));
                Some(e)
            },
            None => {
                assert(to_map(ps).remove(url@) =~= to_map(ps));
                None
            },
        };
        proof {
            let v = old(self)@;
            let rv = self@;
            lemma_filter_props(v.order, not_eq(url@));
            assert forall|i: int| 0 <= i < rv.order.len() implies !rv.keep_list.contains(#[trigger] rv.order[i]) by {
                let o = rv.order[i];
                assert(rv.order.contains(o));
                let j = choose|j: int| 0 <= j < v.order.len() && v.order[j] == o;
                assert(!v.keep_list.contains(v.order[j]));
            }
        }
        r
    }

    /// Gets a preloaded page, searching the globally preloaded pages first and
    /// then those preloaded for the current route. The page is removed from
    /// the preload cache, since it's expected to be rendered immediately.
    pub fn get_preloaded(&mut self, url: &PathMaybeWithLocale) -> (r: Option<PageDataPartial>)
        requires
            old(self).wf(),
        ensures
            final(self).wf(),
            old(self)@.preloaded.dom().contains(url@) ==> (r matches Some(d) && d@ == old(self)@.preloaded[url@]
                && final(self)@ == (StoreView { preloaded: old(self)@.preloaded.remove(url@), ..old(self)@ })),
            !old(self)@.preloaded.dom().contains(url@) && old(self)@.route_preloaded.dom().contains(url@)
                ==> (r matches Some(d) && d@ == old(self)@.route_preloaded[url@] && final(self)@ == (StoreView {
                route_preloaded: old(self)@.route_preloaded.remove(url@),
                ..old(self)@
            })),
            !old(self)@.preloaded.dom().contains(url@) && !old(self)@.route_preloaded.dom().contains(url@)
                ==> r is None && final(self)@ == old(self)@,
    {
        let r = take_data(&mut self.preloaded, url);
        match r {
            Some(d) => Some(d),
            None => {
                assert(self@ == old(self)@);
                take_data(&mut self.route_preloaded, url)
            },
        }
    }

    /// Clears all the pages that were preloaded for the last route, keeping
    /// only those listed.
    pub fn cycle_route_preloaded(&mut self, keep_urls: &[&PathMaybeWithLocale])
        requires
            old(self).wf(),
        ensures
            final(self).wf(),
            final(self)@ == (StoreView {
                route_preloaded: old(self)@.route_preloaded.restrict(
                    Set::new(in_seq(ref_views(keep_urls@))),
                ),
                ..old(self)@
            }),
    {
        let ghost keys = ref_views(keep_urls@);
        let ghost p = key_pred::<Seq<char>, PageDataPartialView>(in_seq(keys));
        let mut rest: Vec<(String, PageDataPartial)> = Vec::new();
        std::mem::swap(&mut rest, &mut self.route_preloaded);
        let ghost orig = data_pairs(rest@);
        let ghost n = rest.len();
        let mut taken: usize = 0;
        assert(orig.take(0).filter(p) == Seq::<(Seq<char>, PageDataPartialView)>::empty()) by {
            reveal(Seq::filter);
        }
        assert(data_pairs(self.route_preloaded@) == Seq::<(Seq<char>, PageDataPartialView)>::empty());
        while rest.len() > 0
            invariant
                taken + rest.len() == n,
                n == orig.len(),
                data_pairs(rest@) == orig.skip(taken as int),
                data_pairs(self.route_preloaded@) == orig.take(taken as int).filter(p),
                keys == ref_views(keep_urls@),
                p == key_pred::<Seq<char>, PageDataPartialView>(in_seq(keys)),
                self.map == old(self).map,
                self.order == old(self).order,
                self.keep_list == old(self).keep_list,
                self.max_size == old(self).max_size,
                self.preloaded == old(self).preloaded,
            decreases rest.len(),
        {
            let ghost prev = rest@;
            let (k, d) = rest.remove(0);
            assert(data_pairs(rest@) =~= data_pairs(prev).skip(1));
            assert(orig.skip(taken as int).skip(1) =~= orig.skip(taken + 1));
            assert(orig[taken as int] == (k@, d@)) by {
                assert(orig.skip(taken as int)[0] == orig[taken as int]);
            }
            assert(data_pairs(rest@) == orig.skip(taken + 1));
            let mut keep = false;
            let mut j: usize = 0;
            while j < keep_urls.len()
                invariant
                    j <= keep_urls.len(),
                    keys == ref_views(keep_urls@),
                    keep == (exists|q: int| 0 <= q < j && keys[q] == k@),
                decreases keep_urls.len() - j,
            {
                assert(keys[j as int] == keep_urls@[j as int]@);
                if *keep_urls[j] == k {
                    keep = true;
                }
                j = j + 1;
            }
            assert(keep == keys.contains(k@));
            assert(orig.take(taken + 1).drop_last() == orig.take(taken as int));
            reveal(Seq::filter);
            if keep {
                assert(p((k@, d@)));
                self.route_preloaded.push((k, d));
            } else {
                assert(!p((k@, d@)));
            }
            taken = taken + 1;
        }
        proof {
            assert(orig.take(n as int) == orig);
            lemma_to_map_filter(orig, in_seq(keys));
        }
    }

    /// Adds the given widget's state to the global preloads, so it can be
    /// picked up during the initial load render (widgets never have heads).
    pub fn add_initial_widget(&mut self, url: PathMaybeWithLocale, state: String)
        requires
            old(self).wf(),
        ensures
            final(self).wf(),
            final(self)@ == (StoreView {
                preloaded: old(self)@.preloaded.insert(
                    url@,
                    PageDataPartialView { state: state@, head: Seq::empty() },
                ),
                ..old(self)@
            }),
    {
        let head = String::new();
        insert_data(&mut self.preloaded, url, PageDataPartial { state, head });
    }

    /// Whether a page still has to be fetched to preload it: this is not so if
    /// the store fully holds it, holds its head with the assurance of no
    /// state, or has it preloaded already.
    pub fn needs_preload(&self, full_path: &PathMaybeWithLocale) -> (b: bool)
        requires
            self.wf(),
        ensures
            b == !(self@.contains_spec(full_path@) == PssContains::All || self@.contains_spec(full_path@)
                == PssContains::HeadNoState || self@.contains_spec(full_path@) == PssContains::Preloaded),
    {
        match self.contains(full_path) {
            PssContains::All | PssContains::HeadNoState | PssContains::Preloaded => false,
            _ => true,
        }
    }

    /// Stores the data fetched to preload a page: with the pages preloaded for
    /// the current route if `is_route_preload`, and with the global preloads
    /// otherwise.
    pub fn add_preloaded(
        &mut self,
        full_path: PathMaybeWithLocale,
        page_data: PageDataPartial,
        is_route_preload: bool,
    )
        requires
            old(self).wf(),
        ensures
            final(self).wf(),
            is_route_preload ==> final(self)@ == (StoreView {
                route_preloaded: old(self)@.route_preloaded.insert(full_path@, page_data@),
                ..old(self)@
            }),
            !is_route_preload ==> final(self)@ == (StoreView {
                preloaded: old(self)@.preloaded.insert(full_path@, page_data@),
                ..old(self)@
            }),
    {
        if is_route_preload {
            insert_data(&mut self.route_preloaded, full_path, page_data);
        } else {
            insert_data(&mut self.preloaded, full_path, page_data);
        }
    }

    /// Finishes preloading the page at `path` (`full_path` with its locale)
    /// with what fetching its data gave: an error is passed on, a page that
    /// doesn't exist is an error, and fetched data is stored as
    /// `add_preloaded` stores it.
    pub fn preload_response(
        &mut self,
        full_path: PathMaybeWithLocale,
        path: &str,
        fetched: Result<Option<PageDataPartial>, ClientError>,
        is_route_preload: bool,
    ) -> (r: Result<(), ClientError>)
        requires
            old(self).wf(),
        ensures
            final(self).wf(),
            match fetched {
                Err(e) => r == Err::<(), ClientError>(e) && final(self)@ == old(self)@,
                Ok(None) => {
                    &&& final(self)@ == old(self)@
                    &&& r matches Err(ClientError::PreloadError(ClientPreloadError::PreloadNotFound { path: p }))
                    &&& p@ == path@
                },
                Ok(Some(page_data)) => r is Ok && (is_route_preload ==> final(self)@ == (StoreView {
                    route_preloaded: old(self)@.route_preloaded.insert(full_path@, page_data@),
                    ..old(self)@
                })) && (!is_route_preload ==> final(self)@ == (StoreView {
                    preloaded: old(self)@.preloaded.insert(full_path@, page_data@),
                    ..old(self)@
                })),
            },
    {
        match fetched {
            Err(e) => Err(e),
            Ok(None) => Err(ClientError::PreloadError(ClientPreloadError::PreloadNotFound { path: path.to_owned() })),
            Ok(Some(page_data)) => {
                self.add_preloaded(full_path, page_data, is_route_preload);
                Ok(())
            },
        }
    }

    /// Evicts the oldest page in the store if there are more pages than the
    /// maximum. This also removes any widgets that only that page used (never
    /// those in the keep list). An entry that is already gone (removed by
    /// force, or with an earlier page as its widget) is passed over.
    fn evict_page_if_needed(&mut self)
        requires
            keys_distinct(entry_pairs(old(self).map@)),
            keys_distinct(data_pairs(old(self).preloaded@)),
            keys_distinct(data_pairs(old(self).route_preloaded@)),
            old(self)@.wf_base(),
            old(self)@.order.len() <= old(self)@.max_size + 1,
        ensures
            final(self).wf(),
            final(self)@ == old(self)@.evict(),
    {
        proof {
            lemma_evict_wf(self@);
        }
        if self.order.len() > self.max_size {
            let old_url = self.order.remove(0);
            assert(string_views(self.order@) == old(self)@.order.drop_first());
            let ghost v0 = old(self)@;
            assert(v0.order[0] == old_url@);
            let i = match find_key(&self.map, &old_url) {
                Some(i) => i,
                None => {
                    proof {
                        let ps = entry_pairs(self.map@);
                        lemma_to_map_dom(ps, old_url@);
                        if has_key(ps, old_url@) {
                            let j = choose|j: int| 0 <= j < ps.len() && ps[j].0 == old_url@;
                            assert(self.map@[j].0@ == old_url@);
                        }
                        assert(v0.entries.remove(old_url@) =~= v0.entries);
                        assert(self@ == v0.evict());
                    }
                    return ;
                },
            };
            let ghost ps0 = entry_pairs(self.map@);
            proof {
                lemma_to_map_index(ps0, i as int);
                lemma_to_map_remove(ps0, i as int);
            }
            let (_, entry) = self.map.remove(i);
            assert(entry_pairs(self.map@) == ps0.remove(i as int));
            let deps = entry.dependencies;
            let ghost dv = string_views(deps@);
            let ghost keep = v0.keep_list;
            let ghost target = evict_widgets(v0.entries.remove(old_url@), dv, old_url@, keep);
            assert(dv == v0.entries[old_url@].dependencies);
            let mut j: usize = 0;
            assert(dv.skip(0) == dv);
            while j < deps.len()
                invariant
                    j <= deps.len(),
                    dv == string_views(deps@),
                    keep == string_views(self.keep_list@),
                    keys_distinct(entry_pairs(self.map@)),
                    evict_widgets(to_map(entry_pairs(self.map@)), dv.skip(j as int), old_url@, keep)
                        == target,
                    string_views(self.order@) == v0.order.drop_first(),
                    self.max_size == v0.max_size,
                    string_views(self.keep_list@) == v0.keep_list,
                    to_map(data_pairs(self.preloaded@)) == v0.preloaded,
                    to_map(data_pairs(self.route_preloaded@)) == v0.route_preloaded,
                    keys_distinct(data_pairs(self.preloaded@)),
                    keys_distinct(data_pairs(self.route_preloaded@)),
                decreases deps.len() - j,
            {
                let dep = &deps[j];
                let ghost m = to_map(entry_pairs(self.map@));
                assert(dv.skip(j as int)[0] == dep@);
                assert(dv.skip(j as int).drop_first() == dv.skip(j + 1));
                if !contains_string(&self.keep_list, dep) {
                    match find_key(&self.map, dep) {
                        Some(di) => {
                            let ghost ps = entry_pairs(self.map@);
                            proof {
                                lemma_to_map_index(ps, di as int);
                                lemma_to_map_remove(ps, di as int);
                            }
                            let (dk, mut de) = self.map.remove(di);
                            assert(entry_pairs(self.map@) == ps.remove(di as int));
                            let ghost before = de@;
                            remove_all_strings(&mut de.dependents, &old_url);
                            assert(de@ == PssEntryView {
                                dependents: before.dependents.filter(not_eq(old_url@)),
                                ..before
                            });
                            if de.dependents.len() != 0 {
                                proof {
                                    lemma_to_map_push(ps.remove(di as int), dk@, de@);
                                }
                                self.map.push((dk, de));
                                assert(entry_pairs(self.map@) == ps.remove(di as int).push((dep@, de@)));
                                assert(to_map(entry_pairs(self.map@)) == m.insert(dep@, de@));
                            } else {
                                assert(de@.dependents.len() == 0);
                            }
                        },
                        None => {
                            proof {
                                let ps = entry_pairs(self.map@);
                                lemma_to_map_dom(ps, dep@);
                                if has_key(ps, dep@) {
                                    let q = choose|q: int| 0 <= q < ps.len() && ps[q].0 == dep@;
                                    assert(self.map@[q].0@ == dep@);
                                }
                            }
                        },
                    }
                }
                j = j + 1;
            }
            assert(dv.skip(deps.len() as int) == Seq::<Seq<char>>::empty());
        }
    }
}

/// The paths of frozen (path, state) pairs.
pub open spec fn frozen_keys(v: Seq<(String, String)>) -> Seq<Seq<char>> {
    v.map_values(|p: (String, String)| p.0@)
}

/// The pair `p` is the frozen state of its path's entry in `v`.
pub open spec fn frozen_entry<S: Freeze>(v: StoreView<S>, p: (String, String)) -> bool {
    &&& v.entries.dom().contains(p.0@)
    &&& v.entries[p.0@].state is Present
    &&& p.1@ == v.entries[p.0@].state->Present_0.frozen()
}

impl<S: Freeze> PageStateStore<S> {
    /// Freezes the entries that hold state into (path, frozen state) pairs,
    /// one per such path. Document metadata is not included.
    pub fn freeze_to_hash_map(&self) -> (r: Vec<(PathMaybeWithLocale, String)>)
        requires
            self.wf(),
        ensures
            frozen_keys(r@).no_duplicates(),
            forall|k: Seq<char>|
                #[trigger] frozen_keys(r@).contains(k) <==> (self@.entries.dom().contains(k)
                    && self@.entries[k].state is Present),
            forall|q: int| 0 <= q < r.len() ==> #[trigger] frozen_entry(self@, r@[q]),
    {
        let mut out: Vec<(String, String)> = Vec::new();
        let mut i: usize = 0;
        let ghost ps = entry_pairs(self.map@);
        while i < self.map.len()
            invariant
                i <= self.map.len(),
                ps == entry_pairs(self.map@),
                keys_distinct(ps),
                frozen_keys(out@).no_duplicates(),
                forall|k: Seq<char>|
                    #[trigger] frozen_keys(out@).contains(k) <==> (exists|j: int|
                        0 <= j < i && ps[j].0 == k && ps[j].1.state is Present),
                forall|q: int| 0 <= q < out.len() ==> #[trigger] frozen_entry(self@, out@[q]),
            decreases self.map.len() - i,
        {
            let ghost before = out@;
            if let PssState::Present(state) = &self.map[i].1.state {
                let v_str = state.freeze();
                out.push((self.map[i].0.clone(), v_str));
                proof {
                    lemma_to_map_index(ps, i as int);
                    assert(frozen_entry(self@, out@[out.len() - 1]));
                    assert forall|q: int| 0 <= q < out.len() implies #[trigger] frozen_entry(self@, out@[q]) by {
                        if q < out.len() - 1 {
                            assert(out@[q] == before[q]);
                        }
                    }
                    let k0 = ps[i as int].0;
                    assert(frozen_keys(out@) == frozen_keys(before).push(k0));
                    assert(!frozen_keys(before).contains(k0)) by {
                        if frozen_keys(before).contains(k0) {
                            let j = choose|j: int| 0 <= j < i && ps[j].0 == k0 && ps[j].1.state is Present;
                            assert(j != i);
                        }
                    }
                    assert forall|a: int, b: int|
                        0 <= a < frozen_keys(out@).len() && 0 <= b < frozen_keys(out@).len() && a != b implies frozen_keys(out@)[a]
                        != frozen_keys(out@)[b] by {
                        if a < frozen_keys(before).len() && b == frozen_keys(before).len() {
                            assert(frozen_keys(before).contains(frozen_keys(before)[a]));
                        } else if b < frozen_keys(before).len() && a == frozen_keys(before).len() {
                            assert(frozen_keys(before).contains(frozen_keys(before)[b]));
                        }
                    }
                    assert forall|k: Seq<char>|
                        #[trigger] frozen_keys(out@).contains(k) <==> (exists|j: int|
                            0 <= j < i + 1 && ps[j].0 == k && ps[j].1.state is Present) by {
                        if frozen_keys(out@).contains(k) && k != k0 {
                            let q = choose|q: int| 0 <= q < frozen_keys(out@).len() && frozen_keys(out@)[q] == k;
                            assert(frozen_keys(before)[q] == k);
                            assert(frozen_keys(before).contains(k));
                        }
                        if frozen_keys(out@).contains(k) && k == k0 {
                            assert(ps[i as int].0 == k && ps[i as int].1.state is Present);
                        }
                        if exists|j: int| 0 <= j < i + 1 && ps[j].0 == k && ps[j].1.state is Present {
                            let j = choose|j: int| 0 <= j < i + 1 && ps[j].0 == k && ps[j].1.state is Present;
                            if j < i {
                                assert(frozen_keys(before).contains(k));
                                let q = choose|q: int| 0 <= q < frozen_keys(before).len() && frozen_keys(before)[q] == k;
                                assert(frozen_keys(out@)[q] == k);
                            } else {
                                assert(frozen_keys(out@)[frozen_keys(out@).len() - 1] == k);
                            }
                        }
                    }
                }
            } else {
                proof {
                    assert forall|k: Seq<char>|
                        #[trigger] frozen_keys(out@).contains(k) <==> (exists|j: int|
                            0 <= j < i + 1 && ps[j].0 == k && ps[j].1.state is Present) by {
                        if exists|j: int| 0 <= j < i + 1 && ps[j].0 == k && ps[j].1.state is Present {
                            let j = choose|j: int| 0 <= j < i + 1 && ps[j].0 == k && ps[j].1.state is Present;
                            assert(j != i);
                        }
                    }
                }
            }
            i = i + 1;
        }
        proof {
            assert forall|k: Seq<char>|
                #[trigger] frozen_keys(out@).contains(k) <==> (self@.entries.dom().contains(k)
                    && self@.entries[k].state is Present) by {
                lemma_to_map_dom(ps, k);
                if exists|j: int| 0 <= j < ps.len() && ps[j].0 == k && ps[j].1.state is Present {
                    let j = choose|j: int| 0 <= j < ps.len() && ps[j].0 == k && ps[j].1.state is Present;
                    lemma_to_map_index(ps, j);
                }
                if self@.entries.dom().contains(k) && self@.entries[k].state is Present {
                    let j = choose|j: int| 0 <= j < ps.len() && ps[j].0 == k;
                    lemma_to_map_index(ps, j);
                }
            }
        }
        out
    }
}

/// Eviction removes only the oldest page and the widgets that only it used:
/// any other entry survives it, with the same state and head.
pub proof fn lemma_evict_preserves<S>(v: StoreView<S>, u: Seq<char>)
    requires
        v.entries.dom().contains(u),
        v.order.len() > v.max_size && v.order.len() > 0 ==> v.order[0] != u && !(v.entry_or_empty(
            v.order[0],
        ).dependencies.contains(u) && !v.keep_list.contains(u) && v.entries[u].dependents.filter(
            not_eq(v.order[0]),
        ).len() == 0),
    ensures
        v.evict().entries.dom().contains(u),
        v.evict().entries[u].state == v.entries[u].state,
        v.evict().entries[u].head == v.entries[u].head,
{
    if v.order.len() > v.max_size && v.order.len() > 0 {
        let old = v.order[0];
        lemma_evict_widgets(v.entries.remove(old), v.entry_or_empty(old).dependencies, old, v.keep_list);
    }
}

/// Re-entering any page leaves the entry of a kept page in place.
proof fn lemma_kept_survives_touch<S>(w: StoreView<S>, kept: Seq<char>, url: Seq<char>, is_widget: bool)
    requires
        w.wf(),
        w.keep_list.contains(kept),
        w.entries.dom().contains(kept),
    ensures
        w.touch(url, is_widget).entries.dom().contains(kept),
        w.touch(url, is_widget).entries[kept].state == w.entries[kept].state,
        w.touch(url, is_widget).entries[kept].head == w.entries[kept].head,
{
    lemma_touch_wf(w, url, is_widget);
    if !w.keep_list.contains(url) && !is_widget {
        let r = w.reenter(url);
        if r.order.len() > 0 && r.order.len() > r.max_size {
            assert(!r.keep_list.contains(r.order[0]));
        }
        lemma_evict_preserves(r, kept);
    }
}

/// What a read gives back of a write: once state has been registered for a
/// page (that does not refuse state), the store holds exactly that state for
/// it, and the page's document metadata is unchanged. There are two
/// exceptions, where the page's entry leaves the store at once: the store
/// keeps no pages at all (a maximum size of zero) and the page is neither
/// kept nor a widget, or the page is also a widget that only the page evicted
/// to make room for it used.
pub proof fn law_add_state_then_get<S>(v: StoreView<S>, url: Seq<char>, val: S, is_widget: bool)
    requires
        v.wf(),
        !(v.entry_or_empty(url).state is Never),
        !v.leaves_with_oldest(url, is_widget),
        v.max_size > 0 || v.keep_list.contains(url) || is_widget,
    ensures
        v.with_state(url, val).touch(url, is_widget).entries.dom().contains(url),
        v.with_state(url, val).touch(url, is_widget).entries[url].state == PssState::Present(val),
        v.with_state(url, val).touch(url, is_widget).entries[url].head == v.entry_or_empty(url).head,
{
    let w = v.with_state(url, val);
    lemma_with_entry_wf(v, url, PssEntryView { state: PssState::Present(val), ..v.entry_or_empty(url) });
    lemma_touch_wf(w, url, is_widget);
    if !w.keep_list.contains(url) && !is_widget {
        let r = w.reenter(url);
        assert(r.order[r.order.len() - 1] == url);
        assert(r.order.contains(url));
        lemma_filter_props(w.order, not_eq(url));
        if r.order.len() > r.max_size && r.order[0] == url {
            assert(r.order.len() == 1) by {
                if r.order.len() > 1 {
                    assert(r.order[0] == r.order[r.order.len() - 1]);
                }
            }
        }
        lemma_evict_preserves(r, url);
    }
}

/// Registering document metadata for a page makes the store hold exactly that
/// metadata for it and leaves its state as it was, with the same exception as
/// for state.
pub proof fn law_add_head_then_get<S>(v: StoreView<S>, url: Seq<char>, head: Seq<char>, is_widget: bool)
    requires
        v.wf(),
        !v.leaves_with_oldest(url, is_widget),
        v.max_size > 0 || v.keep_list.contains(url) || is_widget,
    ensures
        v.with_head(url, head).touch(url, is_widget).entries.dom().contains(url),
        v.with_head(url, head).touch(url, is_widget).entries[url].head == Some(head),
        v.with_head(url, head).touch(url, is_widget).entries[url].state == v.entry_or_empty(url).state,
{
    let w = v.with_head(url, head);
    lemma_with_entry_wf(v, url, PssEntryView { head: Some(head), ..v.entry_or_empty(url) });
    lemma_touch_wf(w, url, is_widget);
    if !w.keep_list.contains(url) && !is_widget {
        let r = w.reenter(url);
        assert(r.order[r.order.len() - 1] == url);
        assert(r.order.contains(url));
        lemma_filter_props(w.order, not_eq(url));
        if r.order.len() > r.max_size && r.order[0] == url {
            assert(r.order.len() == 1) by {
                if r.order.len() > 1 {
                    assert(r.order[0] == r.order[r.order.len() - 1]);
                }
            }
        }
        lemma_evict_preserves(r, url);
    }
}

/// A page declared never to take state refuses it afterwards: after
/// `set_state_never`, the entry's state is `Never` (so a later `add_state`
/// fails and changes nothing), its document metadata is kept, and the store
/// reports it as holding metadata without state (or, without metadata, as
/// holding nothing but possibly preloaded data), with the same exception as
/// for state.
pub proof fn law_state_never_refuses<S>(v: StoreView<S>, url: Seq<char>, is_widget: bool)
    requires
        v.wf(),
        !v.leaves_with_oldest(url, is_widget),
        v.max_size > 0 || v.keep_list.contains(url) || is_widget,
    ensures
        v.with_state_never(url).touch(url, is_widget).entry_or_empty(url).state is Never,
        v.with_state_never(url).touch(url, is_widget).entries.dom().contains(url),
        v.with_state_never(url).touch(url, is_widget).entries[url].head == v.entry_or_empty(url).head,
        v.with_state_never(url).touch(url, is_widget).contains_spec(url) == (if v.entry_or_empty(url).head is Some {
            PssContains::HeadNoState
        } else if v.preloaded.dom().contains(url) || v.route_preloaded.dom().contains(url) {
            PssContains::Preloaded
        } else {
            PssContains::Nothing
        }),
{
    let w = v.with_state_never(url);
    lemma_with_entry_wf(v, url, PssEntryView { state: PssState::Never, ..v.entry_or_empty(url) });
    lemma_touch_wf(w, url, is_widget);
    if !w.keep_list.contains(url) && !is_widget {
        let r = w.reenter(url);
        assert(r.order[r.order.len() - 1] == url);
        assert(r.order.contains(url));
        lemma_filter_props(w.order, not_eq(url));
        if r.order.len() > r.max_size && r.order[0] == url {
            assert(r.order.len() == 1) by {
                if r.order.len() > 1 {
                    assert(r.order[0] == r.order[r.order.len() - 1]);
                }
            }
        }
        lemma_evict_preserves(r, url);
    }
}

/// Adding state keeps the document metadata: once metadata has been
/// registered for a page, registering state for it later (which the page
/// accepts) leaves that metadata beside the new state, with the exceptions of
/// the read of state after a write, at either registration.
pub proof fn law_head_survives_add_state<S>(
    v: StoreView<S>,
    url: Seq<char>,
    head: Seq<char>,
    head_widget: bool,
    val: S,
    state_widget: bool,
)
    requires
        v.wf(),
        !v.leaves_with_oldest(url, head_widget),
        !v.with_head(url, head).touch(url, head_widget).leaves_with_oldest(url, state_widget),
        !(v.entry_or_empty(url).state is Never),
        v.max_size > 0 || v.keep_list.contains(url) || (head_widget && state_widget),
    ensures
        v.with_head(url, head).touch(url, head_widget).with_state(url, val).touch(
            url,
            state_widget,
        ).entries.dom().contains(url),
        v.with_head(url, head).touch(url, head_widget).with_state(url, val).touch(
            url,
            state_widget,
        ).entries[url].head == Some(head),
        v.with_head(url, head).touch(url, head_widget).with_state(url, val).touch(
            url,
            state_widget,
        ).entries[url].state == PssState::Present(val),
{
    law_add_head_then_get(v, url, head, head_widget);
    lemma_with_entry_wf(v, url, PssEntryView { head: Some(head), ..v.entry_or_empty(url) });
    lemma_touch_wf(v.with_head(url, head), url, head_widget);
    law_add_state_then_get(v.with_head(url, head).touch(url, head_widget), url, val, state_widget);
}

/// Where registering state for a page succeeds, the eviction order afterwards
/// is the old one with that page moved (or added) to the end, less its oldest
/// page, whose entry then leaves the store, when that makes more pages than
/// the maximum size; a kept page or a widget leaves the order as it was. The
/// order never holds a page twice nor more pages than the maximum size.
pub proof fn law_add_state_order<S>(v: StoreView<S>, url: Seq<char>, val: S, is_widget: bool)
    requires
        v.wf(),
        !(v.entry_or_empty(url).state is Never),
    ensures
        ({
            let after = v.with_state(url, val).touch(url, is_widget);
            let moved = v.order.filter(not_eq(url)).push(url);
            &&& if !v.keep_list.contains(url) && !is_widget {
                if moved.len() > v.max_size {
                    after.order == moved.drop_first() && !after.entries.dom().contains(moved[0])
                } else {
                    after.order == moved
                }
            } else {
                after.order == v.order
            }
            &&& after.order.no_duplicates()
            &&& after.order.len() <= v.max_size
        }),
{
    let w = v.with_state(url, val);
    lemma_with_entry_wf(v, url, PssEntryView { state: PssState::Present(val), ..v.entry_or_empty(url) });
    lemma_touch_wf(w, url, is_widget);
    if !w.keep_list.contains(url) && !is_widget {
        let r = w.reenter(url);
        if r.order.len() > r.max_size {
            let old = r.order[0];
            lemma_evict_widgets(r.entries.remove(old), r.entry_or_empty(old).dependencies, old, r.keep_list);
        }
    }
}

/// A kept page is never evicted: registering state, document metadata or
/// the refusal of state for any other page leaves the entry of a page in the
/// keep list in the store, with its state and head unchanged.
pub proof fn law_kept_survives_add<S>(
    v: StoreView<S>,
    kept: Seq<char>,
    url: Seq<char>,
    val: S,
    head: Seq<char>,
    is_widget: bool,
)
    requires
        v.wf(),
        v.keep_list.contains(kept),
        v.entries.dom().contains(kept),
        kept != url,
    ensures
        v.with_state(url, val).touch(url, is_widget).entries.dom().contains(kept),
        v.with_state(url, val).touch(url, is_widget).entries[kept].state == v.entries[kept].state,
        v.with_state(url, val).touch(url, is_widget).entries[kept].head == v.entries[kept].head,
        v.with_head(url, head).touch(url, is_widget).entries.dom().contains(kept),
        v.with_head(url, head).touch(url, is_widget).entries[kept].state == v.entries[kept].state,
        v.with_head(url, head).touch(url, is_widget).entries[kept].head == v.entries[kept].head,
        v.with_state_never(url).touch(url, is_widget).entries.dom().contains(kept),
        v.with_state_never(url).touch(url, is_widget).entries[kept].state == v.entries[kept].state,
        v.with_state_never(url).touch(url, is_widget).entries[kept].head == v.entries[kept].head,
{
    lemma_kept_survives_touch(v.with_state(url, val), kept, url, is_widget);
    lemma_kept_survives_touch(v.with_head(url, head), kept, url, is_widget);
    lemma_kept_survives_touch(v.with_state_never(url), kept, url, is_widget);
}

/// What the store reports for a page whose data has not been preloaded
/// follows what its entry holds: all of it where it has state and metadata,
/// the state or the metadata alone where it has only one of them, metadata
/// without state where it refuses state, and nothing where it has no entry or
/// neither.
pub proof fn law_contains_reports_entry<S>(v: StoreView<S>, url: Seq<char>)
    requires
        !(v.preloaded.dom().contains(url) || v.route_preloaded.dom().contains(url)),
    ensures
        v.contains_spec(url) == PssContains::All <==> v.entries.dom().contains(url)
            && v.entries[url].state is Present && v.entries[url].head is Some,
        v.contains_spec(url) == PssContains::State <==> v.entries.dom().contains(url)
            && v.entries[url].state is Present && v.entries[url].head is None,
        v.contains_spec(url) == PssContains::Head <==> v.entries.dom().contains(url)
            && v.entries[url].state is Vacant && v.entries[url].head is Some,
        v.contains_spec(url) == PssContains::HeadNoState <==> v.entries.dom().contains(url)
            && v.entries[url].state is Never && v.entries[url].head is Some,
        v.contains_spec(url) == PssContains::Nothing <==> !v.entries.dom().contains(url)
            || (v.entries[url].head is None && !(v.entries[url].state is Present)),
{
}

/// Document metadata registered for a page that holds no state is reported:
/// the store then holds the metadata alone for it (or reports its preloaded
/// data), with the exceptions of the read of metadata after a write.
pub proof fn law_head_alone_is_reported<S>(v: StoreView<S>, url: Seq<char>, head: Seq<char>, is_widget: bool)
    requires
        v.wf(),
        v.entry_or_empty(url).state is Vacant,
        !v.leaves_with_oldest(url, is_widget),
        v.max_size > 0 || v.keep_list.contains(url) || is_widget,
    ensures
        v.with_head(url, head).touch(url, is_widget).contains_spec(url) == (if v.preloaded.dom().contains(url)
            || v.route_preloaded.dom().contains(url) {
            PssContains::Preloaded
        } else {
            PssContains::Head
        }),
{
    law_add_head_then_get(v, url, head, is_widget);
}

/// The store never holds more pages in its eviction order than its maximum
/// size, each at most once, and none of them kept.
pub proof fn law_bounded<S>(s: &PageStateStore<S>)
    requires
        s.wf(),
    ensures
        s@.order.len() <= s@.max_size,
        s@.order.no_duplicates(),
        forall|i: int| 0 <= i < s@.order.len() ==> !s@.keep_list.contains(#[trigger] s@.order[i]),
{
}

/// After a page has been forcibly removed, the store holds nothing for it but
/// possibly preloaded data.
pub proof fn law_force_remove_then_contains<S>(v: StoreView<S>, url: Seq<char>)
    ensures
        (StoreView { order: v.order.filter(not_eq(url)), entries: v.entries.remove(url), ..v }).contains_spec(url)
            == (if v.preloaded.dom().contains(url) || v.route_preloaded.dom().contains(url) {
            PssContains::Preloaded
        } else {
            PssContains::Nothing
        }),
{
}

} // verus!
