//! The render context's state handling: choosing between the active state
//! in the page state store, the state of a frozen app being thawed, and the
//! state sent by the server, for pages and for the global state.
use crate::assoc::{
    find_key, has_key, keys_distinct, lemma_to_map_dom, lemma_to_map_index, lemma_to_map_remove,
    to_map,
};
use crate::errors::ClientError;
use crate::path::PathMaybeWithLocale;
use crate::state::freeze::{FrozenApp, ThawPrefs};
use crate::state::global_state::FrozenGlobalState;
use crate::state::rx_state::Freeze;
use crate::state::state_store::{PageStateStore, PssState, StoreView};
use vstd::prelude::*;

verus! {

/// The backend for the different kinds of global state.
#[derive(Debug)]
pub enum GlobalStateType<G> {
    /// The global state has been deserialized and loaded, and is ready for
    /// use.
    Loaded(G),
    /// The global state is in string form from the server.
    Server(String),
    /// The server provided no global state: the app does not use it.
    Unused,
}

/// What a thaw asks of the router.
#[derive(Debug, PartialEq, Eq)]
pub enum ThawAction {
    /// Reload the current route.
    Reload,
    /// Navigate to the frozen route.
    Navigate(String),
}

/// The state-handling part of the render context: the page state store, the
/// global state, and any frozen app being thawed, with the preferences for
/// thawing it.
pub struct RenderCtx<S, G> {
    /// The page state store.
    page_state_store: PageStateStore<S>,
    /// The global state.
    global_state: GlobalStateType<G>,
    /// A previous state the app was once in, to be thawed gradually.
    frozen_app: Option<(FrozenApp, ThawPrefs)>,
}

/// The frozen pages of a frozen app as (path, frozen state) pairs.
pub open spec fn frozen_pairs(v: Seq<(String, String)>) -> Seq<(Seq<char>, String)> {
    v.map_values(|p: (String, String)| (p.0@, p.1))
}

/// The frozen pages of a frozen app, by path.
pub open spec fn frozen_map(app: FrozenApp) -> Map<Seq<char>, String> {
    to_map(frozen_pairs(app.state_store@))
}

/// The frozen state of the page at `url`, if the frozen app holds one.
pub open spec fn frozen_page(app: FrozenApp, url: Seq<char>) -> Option<String> {
    if frozen_map(app).dom().contains(url) {
        Some(frozen_map(app)[url])
    } else {
        None
    }
}

impl<S: Clone, G: Clone> RenderCtx<S, G> {
    /// The invariant: the page state store's, and distinct paths in the
    /// frozen state store.
    pub closed spec fn wf(&self) -> bool {
        &&& self.page_state_store.wf()
        &&& (self.frozen_app matches Some((app, _)) ==> keys_distinct(frozen_pairs(app.state_store@)))
    }

    /// The model of the page state store.
    pub closed spec fn pss(&self) -> StoreView<S> {
        self.page_state_store@
    }

    /// The global state.
    pub closed spec fn global(&self) -> GlobalStateType<G> {
        self.global_state
    }

    /// The frozen app being thawed, with the preferences for thawing it.
    pub closed spec fn frozen(&self) -> Option<(FrozenApp, ThawPrefs)> {
        self.frozen_app
    }

    /// Whether thawing prefers frozen state for the page at `url`.
    pub open spec fn prefers_frozen_page(&self, url: Seq<char>) -> bool {
        self.frozen() matches Some((_, prefs)) && prefs.page.prefers_frozen(url)
    }

    /// Whether thawing prefers frozen global state.
    pub open spec fn prefers_frozen_global(&self) -> bool {
        self.frozen() matches Some((_, prefs)) && prefs.global_prefer_frozen
    }

    /// The active state of the page at `url`, if any.
    pub open spec fn active_page(&self, url: Seq<char>) -> Option<S> {
        if self.pss().entries.dom().contains(url) && self.pss().entries[url].state is Present {
            Some(self.pss().entries[url].state->Present_0)
        } else {
            None
        }
    }

    /// The active global state, if it has been loaded.
    pub open spec fn active_global(&self) -> Option<G> {
        match self.global() {
            GlobalStateType::Loaded(g) => Some(g),
            _ => None,
        }
    }

    /// Creates the context in the browser with the given maximum size for the
    /// page state store and the global state injected by the server, if any.
    pub fn new(pss_max_size: usize, server_global_state: Option<String>) -> (r: Self)
        ensures
            r.wf(),
            r.pss().entries.dom().len() == 0,
            r.pss().order.len() == 0,
            r.pss().keep_list.len() == 0,
            r.pss().max_size == pss_max_size,
            r.frozen() is None,
            r.global() == (match server_global_state {
                Some(s) => GlobalStateType::Server(s),
                None => GlobalStateType::<G>::Unused,
            }),
    {
        RenderCtx {
            page_state_store: PageStateStore::new(pss_max_size),
            global_state: match server_global_state {
                Some(s) => GlobalStateType::Server(s),
                None => GlobalStateType::Unused,
            },
            frozen_app: None,
        }
    }

    /// Creates the context on the server-side, where there is no need for a
    /// page state store (its maximum size is zero): the global state is the
    /// server's where there is any, else the app has none.
    pub fn server(global_state: Option<String>) -> (r: Self)
        ensures
            r.wf(),
            r.pss().entries.dom().len() == 0,
            r.pss().max_size == 0,
            r.frozen() is None,
            r.global() == (match global_state {
                Some(s) => GlobalStateType::Server(s),
                None => GlobalStateType::<G>::Unused,
            }),
    {
        Self::new(0, global_state)
    }

    /// Gives access to the page state store.
    pub fn page_state_store(&self) -> (r: &PageStateStore<S>)
        requires
            self.wf(),
        ensures
            r.wf(),
            r@ == self.pss(),
    {
        &self.page_state_store
    }

    /// Registers a frozen app and the preferences for thawing it, and decides
    /// what the router must do: reload if the app was frozen on the current
    /// route or before it was hydrated, and otherwise go to the frozen route.
    pub fn thaw(&mut self, new_frozen_app: FrozenApp, thaw_prefs: ThawPrefs, curr_route: &String) -> (r:
        ThawAction)
        requires
            old(self).wf(),
            keys_distinct(frozen_pairs(new_frozen_app.state_store@)),
        ensures
            final(self).wf(),
            final(self).pss() == old(self).pss(),
            final(self).global() == old(self).global(),
            final(self).frozen() == Some((new_frozen_app, thaw_prefs)),
            r == (match new_frozen_app.route {
                Some(route) => if route@ == curr_route@ {
                    ThawAction::Reload
                } else {
                    ThawAction::Navigate(route)
                },
                None => ThawAction::Reload,
            }),
    {
        let action = match &new_frozen_app.route {
            Some(route) => if *route == *curr_route {
                ThawAction::Reload
            } else {
                ThawAction::Navigate(route.clone())
            },
            None => ThawAction::Reload,
        };
        self.frozen_app = Some((new_frozen_app, thaw_prefs));
        action
    }

    /// The active state of the page at `url`, cloned.
    fn get_active_page_state(&self, url: &PathMaybeWithLocale) -> (r: Option<S>)
        requires
            self.wf(),
        ensures
            clone_of(self.active_page(url@), r),
    {
        match self.page_state_store.get_state(url) {
            Some(s) => Some(s.clone()),
            None => None,
        }
    }

    /// The frozen state of the page at `url`, if thawing prefers it: thawed
    /// with `thaw` and registered in the page state store (and removed from
    /// the frozen app). Where the frozen app holds nothing for the page, this
    /// gives the active state instead.
    fn get_frozen_page_state_and_register<F: Fn(String) -> Option<S>>(
        &mut self,
        url: &PathMaybeWithLocale,
        is_widget: bool,
        thaw: &F,
    ) -> (r: Option<S>)
        requires
            old(self).wf(),
            forall|s: String| call_requires(*thaw, (s,)),
        ensures
            final(self).wf(),
            final(self).global() == old(self).global(),
            page_outcome(old(self), final(self), url@, is_widget, *thaw, r, false),
    {
        let prefers = match &self.frozen_app {
            Some((_, prefs)) => prefs.page.should_prefer_frozen_state(url),
            None => false,
        };
        if !prefers {
            return None;
        }
        let found = match &self.frozen_app {
            Some((app, _)) => {
                let ghost ps = frozen_pairs(app.state_store@);
                proof {
                    lemma_to_map_dom(ps, url@);
                }
                match find_key(&app.state_store, url) {
                    Some(i) => {
                        proof {
                            lemma_to_map_index(ps, i as int);
                        }
                        Some((i, app.state_store[i].1.clone()))
                    },
                    None => {
                        proof {
                            if has_key(ps, url@) {
                                let j = choose|j: int| 0 <= j < ps.len() && ps[j].0 == url@;
                                assert(app.state_store@[j].0@ == url@);
                            }
                        }
                        None
                    },
                }
            },
            None => None,
        };
        match found {
            Some((i, state_str)) => {
                let ghost fs = state_str;
                let ghost app0 = self.frozen()->Some_0.0;
                assert(frozen_page(app0, url@)->Some_0 == fs);
                let t = thaw(state_str);
                assert(call_ensures(*thaw, (fs,), t));
                let rx = match t {
                    Some(rx) => rx,
                    None => {
                        return None;
                    },
                };
                let copy = rx.clone();
                if self.page_state_store.add_state(url, rx, is_widget).is_err() {
                    return None;
                }
                let mut taken = None;
                std::mem::swap(&mut taken, &mut self.frozen_app);
                match taken {
                    Some((mut app, prefs)) => {
                        let ghost ps = frozen_pairs(app.state_store@);
                        proof {
                            lemma_to_map_remove(ps, i as int);
                        }
                        app.state_store.remove(i);
                        assert(frozen_pairs(app.state_store@) == ps.remove(i as int));
                        self.frozen_app = Some((app, prefs));
                    },
                    None => {},
                }
                Some(copy)
            },
            None => self.get_active_page_state(url),
        }
    }

    /// Gets either the active or the frozen state of the page at `url`. With
    /// a frozen app being thawed whose preferences favour frozen state for the
    /// page, its frozen state is thawed with `thaw` and registered (falling
    /// back to the active state if there is none, it cannot be thawed, or the
    /// page takes no state); otherwise the active state is used.
    pub fn get_active_or_frozen_page_state<F: Fn(String) -> Option<S>>(
        &mut self,
        url: &PathMaybeWithLocale,
        is_widget: bool,
        thaw: &F,
    ) -> (r: Option<S>)
        requires
            old(self).wf(),
            forall|s: String| call_requires(*thaw, (s,)),
        ensures
            final(self).wf(),
            final(self).global() == old(self).global(),
            page_outcome(old(self), final(self), url@, is_widget, *thaw, r, true),
    {
        let prefers = match &self.frozen_app {
            Some((_, prefs)) => prefs.page.should_prefer_frozen_state(url),
            None => false,
        };
        if self.frozen_app.is_some() {
            if prefers {
                match self.get_frozen_page_state_and_register(url, is_widget, thaw) {
                    Some(state) => Some(state),
                    None => self.get_active_page_state(url),
                }
            } else {
                match self.get_active_page_state(url) {
                    Some(state) => Some(state),
                    None => self.get_frozen_page_state_and_register(url, is_widget, thaw),
                }
            }
        } else {
            self.get_active_page_state(url)
        }
    }

    /// The frozen global state, if thawing prefers it and the frozen app
    /// holds some: thawed with `thaw`, registered as the active global state,
    /// and marked as used in the frozen app.
    fn get_frozen_global_state_and_register<F: Fn(String) -> Option<G>>(&mut self, thaw: &F) -> (r:
        Option<G>)
        requires
            old(self).wf(),
            forall|s: String| call_requires(*thaw, (s,)),
        ensures
            final(self).wf(),
            final(self).pss() == old(self).pss(),
            global_outcome(old(self), final(self), *thaw, r, false),
    {
        let prefers = match &self.frozen_app {
            Some((_, prefs)) => prefs.global_prefer_frozen,
            None => false,
        };
        if !prefers {
            return None;
        }
        let state_str = match &self.frozen_app {
            Some((app, _)) => match &app.global_state {
                FrozenGlobalState::Frozen(s) => s.clone(),
                _ => {
                    return None;
                },
            },
            None => {
                return None;
            },
        };
        let ghost fs = state_str;
        let t = thaw(state_str);
        assert(call_ensures(*thaw, (fs,), t));
        let rx = match t {
            Some(rx) => rx,
            None => {
                return None;
            },
        };
        let copy = rx.clone();
        self.global_state = GlobalStateType::Loaded(rx);
        let mut taken = None;
        std::mem::swap(&mut taken, &mut self.frozen_app);
        match taken {
            Some((mut app, prefs)) => {
                app.global_state = FrozenGlobalState::Used;
                self.frozen_app = Some((app, prefs));
            },
            None => {},
        }
        Some(copy)
    }

    /// The active global state, cloned.
    fn get_active_global_state(&self) -> (r: Option<G>)
        ensures
            clone_of(self.active_global(), r),
    {
        match &self.global_state {
            GlobalStateType::Loaded(g) => Some(g.clone()),
            _ => None,
        }
    }

    /// Gets either the active or the frozen global state, as for page state.
    pub fn get_active_or_frozen_global_state<F: Fn(String) -> Option<G>>(&mut self, thaw: &F) -> (r:
        Option<G>)
        requires
            old(self).wf(),
            forall|s: String| call_requires(*thaw, (s,)),
        ensures
            final(self).wf(),
            final(self).pss() == old(self).pss(),
            global_outcome(old(self), final(self), *thaw, r, true),
    {
        let prefers = match &self.frozen_app {
            Some((_, prefs)) => prefs.global_prefer_frozen,
            None => false,
        };
        if self.frozen_app.is_some() {
            if prefers {
                match self.get_frozen_global_state_and_register(thaw) {
                    Some(state) => Some(state),
                    None => self.get_active_global_state(),
                }
            } else {
                match self.get_active_global_state() {
                    Some(state) => Some(state),
                    None => self.get_frozen_global_state_and_register(thaw),
                }
            }
        } else {
            self.get_active_global_state()
        }
    }

    /// Registers (deserialized) state for the page at `url` in the page state
    /// store, giving back a clone of it. If the page takes no state, the state
    /// is returned but not registered.
    pub fn register_page_state_value(&mut self, url: &PathMaybeWithLocale, rx: S, is_widget: bool) -> (r: S)
        requires
            old(self).wf(),
        ensures
            final(self).wf(),
            final(self).global() == old(self).global(),
            final(self).frozen() == old(self).frozen(),
            cloned(rx, r),
            old(self).pss().entry_or_empty(url@).state is Never ==> final(self).pss() == old(self).pss(),
            !(old(self).pss().entry_or_empty(url@).state is Never) ==> final(self).pss() == old(
                self,
            ).pss().with_state(url@, rx).touch(url@, is_widget),
    {
        let copy = rx.clone();
        let _ = self.page_state_store.add_state(url, rx, is_widget);
        copy
    }

    /// Registers (deserialized) global state as the active global state,
    /// giving back a clone of it.
    pub fn register_global_state_value(&mut self, rx: G) -> (r: G)
        requires
            old(self).wf(),
        ensures
            final(self).wf(),
            final(self).pss() == old(self).pss(),
            final(self).frozen() == old(self).frozen(),
            final(self).global() == GlobalStateType::Loaded(rx),
            cloned(rx, r),
    {
        let copy = rx.clone();
        self.global_state = GlobalStateType::Loaded(rx);
        copy
    }

    /// Registers a page as definitely taking no state.
    pub fn register_page_no_state(&mut self, url: &PathMaybeWithLocale, is_widget: bool)
        requires
            old(self).wf(),
        ensures
            final(self).wf(),
            final(self).global() == old(self).global(),
            final(self).frozen() == old(self).frozen(),
            final(self).pss() == old(self).pss().with_state_never(url@).touch(url@, is_widget),
    {
        self.page_state_store.set_state_never(url, is_widget);
    }

    /// Gets the global state, if the app has any: the active or frozen state,
    /// or else the state from the server, converted with `from_server` and
    /// registered as the active global state (whose error is passed on).
    pub fn try_get_global_state<F: Fn(String) -> Option<G>, H: Fn(String) -> Result<G, ClientError>>(
        &mut self,
        thaw: &F,
        from_server: &H,
    ) -> (r: Result<Option<G>, ClientError>)
        requires
            old(self).wf(),
            forall|s: String| call_requires(*thaw, (s,)),
            forall|s: String| call_requires(*from_server, (s,)),
        ensures
            final(self).wf(),
            final(self).pss() == old(self).pss(),
            old(self).global() is Unused ==> r == Ok::<Option<G>, ClientError>(None) && final(self).global()
                == old(self).global() && final(self).frozen() == old(self).frozen(),
            !(old(self).global() is Unused) ==> exists|mid: RenderCtx<S, G>, o: Option<G>|
                #[trigger] global_outcome(old(self), &mid, *thaw, o, true) && mid.pss() == old(self).pss()
                    && match o {
                    Some(g) => r == Ok::<Option<G>, ClientError>(Some(g)) && final(self).global()
                        == mid.global() && final(self).frozen() == mid.frozen(),
                    None => final(self).frozen() == mid.frozen() && match mid.global() {
                        GlobalStateType::Server(s) => exists|res: Result<G, ClientError>|
                            #[trigger] call_ensures(*from_server, (s,), res) && match res {
                                Ok(g) => final(self).global() == GlobalStateType::Loaded(g) && (r matches Ok(
                                    Some(c),
                                ) && cloned(g, c)),
                                Err(e) => r == Err::<Option<G>, ClientError>(e) && final(self).global()
                                    == mid.global(),
                            },
                        _ => false,
                    },
                },
    {
        if let GlobalStateType::Unused = &self.global_state {
            return Ok(None);
        }
        let ghost pre = *self;
        let found = self.get_active_or_frozen_global_state(thaw);
        let ghost mid = *self;
        assert(global_outcome(&pre, &mid, *thaw, found, true));
        match found {
            Some(rx) => Ok(Some(rx)),
            None => {
                let server_state = match &self.global_state {
                    GlobalStateType::Server(s) => s.clone(),
                    _ => {
                        proof {
                            lemma_global_outcome_none(&pre, &mid, *thaw);
                        }
                        return Ok(None);
                    },
                };
                let ghost ss = server_state;
                let res = from_server(server_state);
                assert(call_ensures(*from_server, (ss,), res));
                match res {
                    Ok(rx) => Ok(Some(self.register_global_state_value(rx))),
                    Err(e) => Err(e),
                }
            },
        }
    }
}

impl<S: Clone + Freeze, G: Clone + Freeze> RenderCtx<S, G> {
    /// The global state in frozen form: loaded state is frozen, state still
    /// in string form from the server is marked as such, and an app without
    /// global state has none.
    pub fn freeze_global_state(&self) -> (r: FrozenGlobalState)
        ensures
            match self.global() {
                GlobalStateType::Loaded(g) => r matches FrozenGlobalState::Frozen(s) && s@ == g.frozen(),
                GlobalStateType::Server(_) => r is Server,
                GlobalStateType::Unused => r is Absent,
            },
    {
        match &self.global_state {
            GlobalStateType::Loaded(g) => FrozenGlobalState::Frozen(g.freeze()),
            GlobalStateType::Server(_) => FrozenGlobalState::Server,
            GlobalStateType::Unused => FrozenGlobalState::Absent,
        }
    }

    /// 'Freezes' the relevant parts of the context: the global state, the
    /// given route and the frozen state of every page that has state.
    pub fn freeze(&self, route: Option<PathMaybeWithLocale>) -> (r: FrozenApp)
        requires
            self.wf(),
        ensures
            r.route == route,
            match self.global() {
                GlobalStateType::Loaded(g) => r.global_state matches FrozenGlobalState::Frozen(s) && s@
                    == g.frozen(),
                GlobalStateType::Server(_) => r.global_state is Server,
                GlobalStateType::Unused => r.global_state is Absent,
            },
            crate::state::state_store::frozen_keys(r.state_store@).no_duplicates(),
            forall|k: Seq<char>|
                #[trigger] crate::state::state_store::frozen_keys(r.state_store@).contains(k) <==> (
                self.pss().entries.dom().contains(k) && self.pss().entries[k].state is Present),
            forall|q: int|
                0 <= q < r.state_store.len() ==> #[trigger] crate::state::state_store::frozen_entry(
                    self.pss(),
                    r.state_store@[q],
                ),
    {
        FrozenApp {
            global_state: self.freeze_global_state(),
            route,
            state_store: self.page_state_store.freeze_to_hash_map(),
        }
    }
}

/// What a read gives back of a write: once state has been registered for a
/// page that takes state, the context gives exactly that state as the page's
/// active state, with the exceptions of the page state store's read of state
/// after a write (the page's entry leaving the store at once).
pub proof fn law_registered_state_is_active<S: Clone, G: Clone>(
    pre: RenderCtx<S, G>,
    url: Seq<char>,
    rx: S,
    is_widget: bool,
    post: RenderCtx<S, G>,
)
    requires
        pre.wf(),
        !(pre.pss().entry_or_empty(url).state is Never),
        !pre.pss().leaves_with_oldest(url, is_widget),
        pre.pss().max_size > 0 || pre.pss().keep_list.contains(url) || is_widget,
        post.pss() == pre.pss().with_state(url, rx).touch(url, is_widget),
    ensures
        post.active_page(url) == Some(rx),
{
    pre.page_state_store.lemma_view_wf();
    crate::state::state_store::law_add_state_then_get(pre.pss(), url, rx, is_widget);
}

/// Frozen global state is thawed at most once: once a get of the global
/// state has thawed it (the active global state changed), any later get, with
/// whatever global state has been registered since, gives that active state
/// and changes nothing, instead of thawing the frozen state again.
pub proof fn law_frozen_global_thawed_once<S: Clone, G: Clone, F: Fn(String) -> Option<G>>(
    pre: &RenderCtx<S, G>,
    mid: &RenderCtx<S, G>,
    later: &RenderCtx<S, G>,
    post: &RenderCtx<S, G>,
    thaw: F,
    first: Option<G>,
    second: Option<G>,
    g: G,
    fallback: bool,
)
    requires
        global_outcome(pre, mid, thaw, first, true),
        mid.global() != pre.global(),
        later.frozen() == mid.frozen(),
        later.global() == GlobalStateType::Loaded(g),
        global_outcome(later, post, thaw, second, fallback),
    ensures
        post.global() == later.global(),
        post.frozen() == later.frozen(),
        fallback ==> clone_of(Some(g), second),
        !fallback ==> second is None,
{
}

/// Frozen page state is thawed at most once: once a get of a page's state
/// has thawed and registered its frozen state (the page state store changed),
/// the frozen app no longer holds state for the page, so any later get of
/// it, whatever has been registered since, gives the active state and changes
/// nothing.
pub proof fn law_frozen_page_thawed_once<S: Clone, G: Clone, F: Fn(String) -> Option<S>>(
    pre: &RenderCtx<S, G>,
    mid: &RenderCtx<S, G>,
    later: &RenderCtx<S, G>,
    post: &RenderCtx<S, G>,
    url: Seq<char>,
    is_widget: bool,
    later_widget: bool,
    thaw: F,
    first: Option<S>,
    second: Option<S>,
)
    requires
        page_outcome(pre, mid, url, is_widget, thaw, first, true),
        mid.pss() != pre.pss(),
        later.frozen() == mid.frozen(),
        page_outcome(later, post, url, later_widget, thaw, second, true),
    ensures
        post.pss() == later.pss(),
        post.frozen() == later.frozen(),
        clone_of(later.active_page(url), second),
{
    let (app, prefs) = pre.frozen()->Some_0;
    let (app2, prefs2) = mid.frozen()->Some_0;
    assert(!frozen_map(app2).dom().contains(url));
}

/// `r` is a clone of `v`, where there is one.
pub open spec fn clone_of<T: Clone>(v: Option<T>, r: Option<T>) -> bool {
    match v {
        Some(s) => r matches Some(c) && cloned(s, c),
        None => r is None,
    }
}

/// What getting the state of the page at `url` leads to, between the context
/// before (`pre`) and after (`post`) and the result `r`; with `fallback`, the
/// active state stands in wherever no frozen state is registered.
pub open spec fn page_outcome<S: Clone, G: Clone, F: Fn(String) -> Option<S>>(
    pre: &RenderCtx<S, G>,
    post: &RenderCtx<S, G>,
    url: Seq<char>,
    is_widget: bool,
    thaw: F,
    r: Option<S>,
    fallback: bool,
) -> bool {
    let unchanged = post.pss() == pre.pss() && post.frozen() == pre.frozen();
    let otherwise = if fallback {
        clone_of(pre.active_page(url), r)
    } else {
        r is None
    };
    if !pre.prefers_frozen_page(url) {
        unchanged && otherwise
    } else {
        let (app, prefs) = pre.frozen()->Some_0;
        match frozen_page(app, url) {
            None => unchanged && clone_of(pre.active_page(url), r),
            Some(frozen) => exists|t: Option<S>|
                #[trigger] call_ensures(thaw, (frozen,), t) && match t {
                    Some(rx) => if pre.pss().entry_or_empty(url).state is Never {
                        unchanged && otherwise
                    } else {
                        &&& r matches Some(c) && cloned(rx, c)
                        &&& post.pss() == pre.pss().with_state(url, rx).touch(url, is_widget)
                        &&& post.frozen() matches Some((app2, prefs2))
                        &&& prefs2 == prefs
                        &&& app2.global_state == app.global_state
                        &&& app2.route == app.route
                        &&& frozen_map(app2) == frozen_map(app).remove(url)
                    },
                    None => unchanged && otherwise,
                },
        }
    }
}

/// What getting the global state leads to, between the context before
/// (`pre`) and after (`post`) and the result `r`; with `fallback`, the active
/// state stands in wherever no frozen state is registered.
pub open spec fn global_outcome<S: Clone, G: Clone, F: Fn(String) -> Option<G>>(
    pre: &RenderCtx<S, G>,
    post: &RenderCtx<S, G>,
    thaw: F,
    r: Option<G>,
    fallback: bool,
) -> bool {
    let unchanged = post.global() == pre.global() && post.frozen() == pre.frozen();
    let otherwise = if fallback {
        clone_of(pre.active_global(), r)
    } else {
        r is None
    };
    if !pre.prefers_frozen_global() {
        unchanged && otherwise
    } else {
        let (app, prefs) = pre.frozen()->Some_0;
        match app.global_state {
            FrozenGlobalState::Frozen(frozen) => exists|t: Option<G>|
                #[trigger] call_ensures(thaw, (frozen,), t) && match t {
                    Some(rx) => {
                        &&& r matches Some(c) && cloned(rx, c)
                        &&& post.global() == GlobalStateType::Loaded(rx)
                        &&& post.frozen() matches Some((app2, prefs2))
                        &&& prefs2 == prefs
                        &&& app2.global_state == FrozenGlobalState::Used
                        &&& app2.route == app.route
                        &&& app2.state_store == app.state_store
                    },
                    None => unchanged && otherwise,
                },
            _ => unchanged && otherwise,
        }
    }
}

/// Where getting the active or frozen global state gave nothing for an app
/// with global state, that state is still in string form from the server.
proof fn lemma_global_outcome_none<S: Clone, G: Clone, F: Fn(String) -> Option<G>>(
    pre: &RenderCtx<S, G>,
    post: &RenderCtx<S, G>,
    thaw: F,
)
    requires
        global_outcome(pre, post, thaw, None, true),
        !(pre.global() is Unused),
    ensures
        post.global() is Server,
{
    if pre.prefers_frozen_global() {
        let (app, prefs) = pre.frozen()->Some_0;
        if let FrozenGlobalState::Frozen(frozen) = app.global_state {
            let t = choose|t: Option<G>| #[trigger] call_ensures(thaw, (frozen,), t) && match t {
                Some(rx) => {
                    &&& (None::<G>) matches Some(c) && cloned(rx, c)
                    &&& post.global() == GlobalStateType::Loaded(rx)
                    &&& post.frozen() matches Some((app2, prefs2))
                    &&& prefs2 == prefs
                    &&& app2.global_state == FrozenGlobalState::Used
                    &&& app2.route == app.route
                    &&& app2.state_store == app.state_store
                },
                None => post.global() == pre.global() && post.frozen() == pre.frozen() && clone_of(
                    pre.active_global(),
                    None,
                ),
            };
        }
    }
}

} // verus!
