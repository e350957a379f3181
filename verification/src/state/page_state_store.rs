//! The simpler page state store, keyed by plain URLs: each page's state and
//! document metadata, evicting the least recently registered page once more
//! than a maximum number are held, except pages in a keep list.
use crate::assoc::{
    find_key, contains_string, remove_all_strings, string_views, not_eq, keys_distinct, to_map,
    has_key, lemma_filter_props, lemma_to_map_dom, lemma_to_map_index, lemma_to_map_update,
    lemma_to_map_remove, lemma_to_map_push,
};
use crate::state::rx_state::Freeze;
use vstd::prelude::*;

verus! {

/// The page state of a PSS entry.
#[derive(Debug)]
pub enum PssState<T> {
    /// There is state.
    Present(T),
    /// There is no state, but there could be some in future.
    Vacant,
    /// There is no state, and there never will be any.
    Never,
}

/// The various things the PSS can contain for a single page.
#[derive(Debug, PartialEq, Eq, Structural)]
pub enum PssContains {
    /// There is no entry for this page.
    Nothing,
    /// There is page state only recorded for this page.
    State,
    /// There is only document metadata recorded for this page.
    Head,
    /// There is document metadata recorded for this page, along with an
    /// assurance that there will never be any state.
    HeadNoState,
    /// Both document metadata and page state are present for this page.
    All,
}

/// An entry for a single page in the PSS.
pub struct PssEntry<S> {
    /// The page state, if any exists.
    state: PssState<S>,
    /// The document metadata of the page.
    head: Option<String>,
}

/// The model of a [`PssEntry`].
pub struct PssEntryView<S> {
    pub state: PssState<S>,
    pub head: Option<Seq<char>>,
}

impl<S> View for PssEntry<S> {
    type V = PssEntryView<S>;

    closed spec fn view(&self) -> PssEntryView<S> {
        PssEntryView {
            state: self.state,
            head: match self.head {
                Some(h) => Some(h@),
                None => None,
            },
        }
    }
}

impl<S> PssEntryView<S> {
    /// An entry with nothing in it.
    pub open spec fn empty() -> Self {
        PssEntryView { state: PssState::Vacant, head: None }
    }
}

impl<S> Default for PssEntry<S> {
    fn default() -> (r: Self)
        ensures
            r@ == PssEntryView::<S>::empty(),
    {
        PssEntry { state: PssState::Vacant, head: None }
    }
}

impl<S> PssEntry<S> {
    /// Declare that this entry will *never* have state.
    pub fn set_state_never(&mut self)
        ensures
            final(self)@ == (PssEntryView { state: PssState::Never, ..old(self)@ }),
    {
        self.state = PssState::Never;
    }

    /// Adds document metadata to this entry.
    pub fn set_head(&mut self, head: String)
        ensures
            final(self)@ == (PssEntryView { head: Some(head@), ..old(self)@ }),
    {
        self.head = Some(head);
    }

    /// Adds state to this entry. This will return `false` and do nothing if
    /// the entry has been marked as never being able to accept state.
    pub fn set_state(&mut self, state: S) -> (r: bool)
        ensures
            r == !(old(self)@.state is Never),
            r ==> final(self)@ == (PssEntryView { state: PssState::Present(state), ..old(self)@ }),
            !r ==> final(self)@ == old(self)@,
    {
        if let PssState::Never = self.state {
            false
        } else {
            self.state = PssState::Present(state);
            true
        }
    }
}

/// A container for page state, keyed by page URL.
pub struct PageStateStore<S> {
    /// The entries of the store, by URL.
    map: Vec<(String, PssEntry<S>)>,
    /// The order in which pages were submitted to the store.
    order: Vec<String>,
    /// The maximum number of pages in `order` before the oldest is evicted.
    max_size: usize,
    /// Pages that will be kept in the store no matter what.
    keep_list: Vec<String>,
}

/// The model of a [`PageStateStore`].
pub struct StoreView<S> {
    pub entries: Map<Seq<char>, PssEntryView<S>>,
    pub order: Seq<Seq<char>>,
    pub max_size: nat,
    pub keep_list: Seq<Seq<char>>,
}

/// The entries of a store as (URL, entry) pairs of models.
pub open spec fn entry_pairs<S>(v: Seq<(String, PssEntry<S>)>) -> Seq<(Seq<char>, PssEntryView<S>)> {
    v.map_values(|p: (String, PssEntry<S>)| (p.0@, p.1@))
}

impl<S> StoreView<S> {
    /// The invariant of the store.
    pub open spec fn wf(self) -> bool {
        &&& self.order.no_duplicates()
        &&& self.order.len() <= self.max_size
        &&& forall|i: int| 0 <= i < self.order.len() ==> !self.keep_list.contains(#[trigger] self.order[i])
    }

    /// The entry for `url`, or an empty one.
    pub open spec fn entry_or_empty(self, url: Seq<char>) -> PssEntryView<S> {
        if self.entries.dom().contains(url) {
            self.entries[url]
        } else {
            PssEntryView::empty()
        }
    }

    /// The store with state `val` registered for `url`.
    pub open spec fn with_state(self, url: Seq<char>, val: S) -> Self {
        StoreView {
            entries: self.entries.insert(
                url,
                PssEntryView { state: PssState::Present(val), ..self.entry_or_empty(url) },
            ),
            ..self
        }
    }

    /// The store with document metadata `head` registered for `url`.
    pub open spec fn with_head(self, url: Seq<char>, head: Seq<char>) -> Self {
        StoreView {
            entries: self.entries.insert(url, PssEntryView { head: Some(head), ..self.entry_or_empty(url) }),
            ..self
        }
    }

    /// The store with `url` marked as never taking state.
    pub open spec fn with_state_never(self, url: Seq<char>) -> Self {
        StoreView {
            entries: self.entries.insert(url, PssEntryView { state: PssState::Never, ..self.entry_or_empty(url) }),
            ..self
        }
    }

    /// The store after `url` has been (re)entered as the newest page, unless it
    /// is kept, evicting the oldest page if there are then too many.
    pub open spec fn touch(self, url: Seq<char>) -> Self {
        if !self.keep_list.contains(url) {
            let o = self.order.filter(not_eq(url)).push(url);
            if o.len() > self.max_size {
                StoreView { order: o.drop_first(), entries: self.entries.remove(o[0]), ..self }
            } else {
                StoreView { order: o, ..self }
            }
        } else {
            self
        }
    }

    /// What the store holds for `url`.
    pub open spec fn contains_spec(self, url: Seq<char>) -> PssContains {
        if !self.entries.dom().contains(url) {
            PssContains::Nothing
        } else {
            let e = self.entries[url];
            match e.state {
                PssState::Present(_) => if e.head is Some {
                    PssContains::All
                } else {
                    PssContains::State
                },
                PssState::Vacant => if e.head is Some {
                    PssContains::Head
                } else {
                    PssContains::Nothing
                },
                PssState::Never => if e.head is Some {
                    PssContains::HeadNoState
                } else {
                    PssContains::Nothing
                },
            }
        }
    }
}

/// Re-entering a page keeps the invariant (whatever the entries).
pub proof fn lemma_touch_wf<S>(v: StoreView<S>, url: Seq<char>)
    requires
        v.wf(),
    ensures
        v.touch(url).wf(),
{
    if !v.keep_list.contains(url) {
        let f = v.order.filter(not_eq(url));
        lemma_filter_props(v.order, not_eq(url));
        let o = f.push(url);
        assert(!f.contains(url)) by {
            assert(!not_eq(url)(url));
        }
        assert(o.no_duplicates()) by {
            assert forall|a: int, b: int| 0 <= a < o.len() && 0 <= b < o.len() && a != b implies o[a] != o[b] by {
                if a < f.len() && b == f.len() {
                    assert(f.contains(f[a]));
                } else if b < f.len() && a == f.len() {
                    assert(f.contains(f[b]));
                }
            }
        }
        assert forall|i: int| 0 <= i < o.len() implies !v.keep_list.contains(#[trigger] o[i]) by {
            if i < f.len() {
                assert(f.contains(f[i]));
                let j = choose|j: int| 0 <= j < v.order.len() && v.order[j] == f[i];
                assert(!v.keep_list.contains(v.order[j]));
            }
        }
        if o.len() > v.max_size {
            let r = v.touch(url);
            assert(r.order == o.drop_first());
            assert forall|a: int, b: int| 0 <= a < r.order.len() && 0 <= b < r.order.len() && a != b implies r.order[a]
                != r.order[b] by {
                assert(r.order[a] == o[a + 1] && r.order[b] == o[b + 1]);
            }
            assert forall|i: int| 0 <= i < r.order.len() implies !r.keep_list.contains(#[trigger] r.order[i]) by {
                assert(r.order[i] == o[i + 1]);
            }
        }
    }
}

impl<S> View for PageStateStore<S> {
    type V = StoreView<S>;

    closed spec fn view(&self) -> StoreView<S> {
        StoreView {
            entries: to_map(entry_pairs(self.map@)),
            order: string_views(self.order@),
            max_size: self.max_size as nat,
            keep_list: string_views(self.keep_list@),
        }
    }
}

impl<S> PageStateStore<S> {
    /// The invariant of the store.
    pub closed spec fn wf(&self) -> bool {
        keys_distinct(entry_pairs(self.map@)) && self@.wf()
    }

    /// Creates a new, empty page state store with the given maximum size.
    pub fn new(max_size: usize) -> (r: Self)
        ensures
            r.wf(),
            r@.entries == Map::<Seq<char>, PssEntryView<S>>::empty(),
            r@.order == Seq::<Seq<char>>::empty(),
            r@.keep_list == Seq::<Seq<char>>::empty(),
            r@.max_size == max_size,
    {
        let r = PageStateStore { map: Vec::new(), order: Vec::new(), max_size, keep_list: Vec::new() };
        assert(string_views(r.order@) == Seq::<Seq<char>>::empty());
        assert(string_views(r.keep_list@) == Seq::<Seq<char>>::empty());
        assert(entry_pairs(r.map@) == Seq::<(Seq<char>, PssEntryView<S>)>::empty());
        r
    }

    /// Finds the position of the entry for `url`.
    fn entry_index(&self, url: &String) -> (r: Option<usize>)
        requires
            self.wf(),
        ensures
            match r {
                Some(i) => i < self.map.len() && self.map@[i as int].0@ == url@
                    && self@.entries.dom().contains(url@) && self@.entries[url@]
                    == self.map@[i as int].1@,
                None => !self@.entries.dom().contains(url@),
            },
    {
        let r = find_key(&self.map, url);
        proof {
            let ps = entry_pairs(self.map@);
            lemma_to_map_dom(ps, url@);
            match r {
                Some(i) => {
                    lemma_to_map_index(ps, i as int);
                },
                None => {
                    if has_key(ps, url@) {
                        let j = choose|j: int| 0 <= j < ps.len() && ps[j].0 == url@;
                        assert(self.map@[j].0@ == url@);
                    }
                },
            }
        }
        r
    }

    /// Gets the state registered for a URL, if there is any.
    pub fn get_state(&self, url: &str) -> (r: Option<&S>)
        requires
            self.wf(),
        ensures
            match r {
                Some(s) => self@.entries.dom().contains(url@) && self@.entries[url@].state
                    == PssState::Present(*s),
                None => !(self@.entries.dom().contains(url@) && self@.entries[url@].state is Present),
            },
    {
        let key = url.to_owned();
        match self.entry_index(&key) {
            Some(i) => match &self.map[i].1.state {
                PssState::Present(state) => Some(state),
                _ => None,
            },
            None => None,
        }
    }

    /// Gets the document metadata registered for a URL, if it exists.
    pub fn get_head(&self, url: &str) -> (r: Option<String>)
        requires
            self.wf(),
        ensures
            (match r {
                Some(h) => Some(h@),
                None => None,
            }) == (if self@.entries.dom().contains(url@) {
                self@.entries[url@].head
            } else {
                None
            }),
    {
        let key = url.to_owned();
        match self.entry_index(&key) {
            Some(i) => match &self.map[i].1.head {
                Some(h) => Some(h.clone()),
                None => None,
            },
            None => None,
        }
    }

    /// Writes `e` as the entry for `url` (replacing any present one).
    fn put_entry(&mut self, url: &String, idx: Option<usize>, e: PssEntry<S>)
        requires
            old(self).wf(),
            match idx {
                Some(i) => i < old(self).map.len() && old(self).map@[i as int].0@ == url@,
                None => !old(self)@.entries.dom().contains(url@),
            },
        ensures
            final(self).wf(),
            final(self)@ == (StoreView { entries: old(self)@.entries.insert(url@, e@), ..old(self)@ }),
    {
        let ghost ps = entry_pairs(self.map@);
        let ghost ev = e@;
        match idx {
            Some(i) => {
                proof {
                    lemma_to_map_update(ps, i as int, ev);
                }
                let (key, _) = self.map.remove(i);
                self.map.insert(i, (key, e));
                assert(entry_pairs(self.map@) == ps.update(i as int, (url@, ev)));
            },
            None => {
                proof {
                    lemma_to_map_dom(ps, url@);
                    lemma_to_map_push(ps, url@, ev);
                }
                self.map.push((url.clone(), e));
                assert(entry_pairs(self.map@) == ps.push((url@, ev)));
            },
        }
    }

    /// Enters `url` as the newest page (unless it is kept) and evicts the
    /// oldest page if there are now too many.
    fn touch(&mut self, url: &String)
        requires
            old(self).wf(),
        ensures
            final(self).wf(),
            final(self)@ == old(self)@.touch(url@),
    {
        proof {
            lemma_touch_wf(self@, url@);
        }
        if !contains_string(&self.keep_list, url) {
            remove_all_strings(&mut self.order, url);
            self.order.push(url.clone());
            let ghost o = string_views(self.order@);
            assert(o == old(self)@.order.filter(not_eq(url@)).push(url@));
            if self.order.len() > self.max_size {
                let old_url = self.order.remove(0);
                assert(string_views(self.order@) == o.drop_first());
                assert(old_url@ == o[0]);
                let ghost ps = entry_pairs(self.map@);
                match self.entry_index(&old_url) {
                    Some(i) => {
                        proof {
                            lemma_to_map_remove(ps, i as int);
                        }
                        self.map.remove(i);
                        assert(entry_pairs(self.map@) == ps.remove(i as int));
                    },
                    None => {
                        assert(to_map(ps).remove(old_url@) =~= to_map(ps));
                    },
                }
            }
        }
    }

    /// Adds page state to the entry in the store with the given URL, creating
    /// it if it doesn't exist; any document metadata is preserved. The page is
    /// entered as the newest (unless kept), evicting the oldest if needed.
    ///
    /// If the entry has been marked as not accepting state, this returns
    /// `false` and changes nothing.
    pub fn add_state(&mut self, url: &str, val: S) -> (r: bool)
        requires
            old(self).wf(),
        ensures
            final(self).wf(),
            r == !(old(self)@.entry_or_empty(url@).state is Never),
            r ==> final(self)@ == old(self)@.with_state(url@, val).touch(url@),
            !r ==> final(self)@ == old(self)@,
    {
        let key = url.to_owned();
        match self.entry_index(&key) {
            Some(i) => {
                let (k, mut entry) = self.map.remove(i);
                let ok = entry.set_state(val);
                self.map.insert(i, (k, entry));
                if !ok {
                    assert(entry_pairs(self.map@) == entry_pairs(old(self).map@));
                    return false;
                }
                let ghost ps = entry_pairs(old(self).map@);
                proof {
                    lemma_to_map_update(ps, i as int, self.map@[i as int].1@);
                    assert(entry_pairs(self.map@) == ps.update(i as int, (url@, self.map@[i as int].1@)));
                }
            },
            None => {
                let mut entry = PssEntry::default();
                let _ = entry.set_state(val);
                self.put_entry(&key, None, entry);
            },
        }
        self.touch(&key);
        true
    }

    /// Adds document metadata to the entry in the store for the given URL,
    /// creating it if it doesn't exist; any state is preserved. The page is
    /// entered as the newest (unless kept), evicting the oldest if needed.
    pub fn add_head(&mut self, url: &str, head: String)
        requires
            old(self).wf(),
        ensures
            final(self).wf(),
            final(self)@ == old(self)@.with_head(url@, head@).touch(url@),
    {
        let key = url.to_owned();
        match self.entry_index(&key) {
            Some(i) => {
                let (k, mut entry) = self.map.remove(i);
                entry.set_head(head);
                self.map.insert(i, (k, entry));
                let ghost ps = entry_pairs(old(self).map@);
                proof {
                    lemma_to_map_update(ps, i as int, self.map@[i as int].1@);
                    assert(entry_pairs(self.map@) == ps.update(i as int, (url@, self.map@[i as int].1@)));
                }
            },
            None => {
                let mut entry = PssEntry::default();
                entry.set_head(head);
                self.put_entry(&key, None, entry);
            },
        }
        self.touch(&key);
    }

    /// Sets the given entry as not being able to take any state, creating it
    /// if it doesn't exist. This does not affect the eviction order.
    pub fn set_state_never(&mut self, url: &str)
        requires
            old(self).wf(),
        ensures
            final(self).wf(),
            final(self)@ == old(self)@.with_state_never(url@),
    {
        let key = url.to_owned();
        match self.entry_index(&key) {
            Some(i) => {
                let (k, mut entry) = self.map.remove(i);
                entry.set_state_never();
                self.map.insert(i, (k, entry));
                let ghost ps = entry_pairs(old(self).map@);
                proof {
                    lemma_to_map_update(ps, i as int, self.map@[i as int].1@);
                    assert(entry_pairs(self.map@) == ps.update(i as int, (url@, self.map@[i as int].1@)));
                }
            },
            None => {
                let mut entry = PssEntry::default();
                entry.set_state_never();
                self.put_entry(&key, None, entry);
            },
        }
    }

    /// Checks what the store holds for the given URL.
    pub fn contains(&self, url: &str) -> (r: PssContains)
        requires
            self.wf(),
        ensures
            r == self@.contains_spec(url@),
    {
        let key = url.to_owned();
        match self.entry_index(&key) {
            Some(i) => {
                let e = &self.map[i].1;
                match &e.state {
                    PssState::Present(_) => if e.head.is_some() {
                        PssContains::All
                    } else {
                        PssContains::State
                    },
                    PssState::Vacant => if e.head.is_some() {
                        PssContains::Head
                    } else {
                        PssContains::Nothing
                    },
                    PssState::Never => if e.head.is_some() {
                        PssContains::HeadNoState
                    } else {
                        PssContains::Nothing
                    },
                }
            },
            None => PssContains::Nothing,
        }
    }

    /// Forces the store to keep a certain page, so that it is never evicted.
    pub fn force_keep(&mut self, url: &str)
        requires
            old(self).wf(),
        ensures
            final(self).wf(),
            final(self)@ == (StoreView {
                order: old(self)@.order.filter(not_eq(url@)),
                keep_list: old(self)@.keep_list.push(url@),
                ..old(self)@
            }),
    {
        let key = url.to_owned();
        remove_all_strings(&mut self.order, &key);
        self.keep_list.push(key);
        proof {
            let v = old(self)@;
            let r = self@;
            lemma_filter_props(v.order, not_eq(url@));
            assert(string_views(self.keep_list@) == v.keep_list.push(url@));
            assert forall|i: int| 0 <= i < r.order.len() implies !r.keep_list.contains(#[trigger] r.order[i]) by {
                let o = r.order[i];
                assert(r.order.contains(o));
                let j = choose|j: int| 0 <= j < v.order.len() && v.order[j] == o;
                assert(!v.keep_list.contains(v.order[j]));
                if r.keep_list.contains(o) {
                    let q = choose|q: int| 0 <= q < r.keep_list.len() && r.keep_list[q] == o;
                    if q < v.keep_list.len() {
                        assert(v.keep_list.contains(o));
                    }
                }
            }
        }
    }

    /// Forcibly removes a page from the store (and from the eviction order),
    /// returning its entry, if it was found.
    pub fn force_remove(&mut self, url: &str) -> (r: Option<PssEntry<S>>)
        requires
            old(self).wf(),
        ensures
            final(self).wf(),
            final(self)@ == (StoreView {
                order: old(self)@.order.filter(not_eq(url@)),
                entries: old(self)@.entries.remove(url@),
                ..old(self)@
            }),
            match r {
                Some(e) => old(self)@.entries.dom().contains(url@) && e@ == old(self)@.entries[url@],
                None => !old(self)@.entries.dom().contains(url@),
            },
    {
        let key = url.to_owned();
        let ghost ps = entry_pairs(self.map@);
        let idx = self.entry_index(&key);
        remove_all_strings(&mut self.order, &key);
        let r = match idx {
            Some(i) => {
                proof {
                    lemma_to_map_remove(ps, i as int);
                }
                let (_, e) = self.map.remove(i);
                assert(entry_pairs(self.map@) == ps.remove(i as int));
                Some(e)
            },
            None => {
                assert(to_map(ps).remove(url@) =~= to_map(ps));
                None
            },
        };
        proof {
            let v = old(self)@;
            let rv = self@;
            lemma_filter_props(v.order, not_eq(url@));
            assert forall|i: int| 0 <= i < rv.order.len() implies !rv.keep_list.contains(#[trigger] rv.order[i]) by {
                let o = rv.order[i];
                assert(rv.order.contains(o));
                let j = choose|j: int| 0 <= j < v.order.len() && v.order[j] == o;
                assert(!v.keep_list.contains(v.order[j]));
            }
        }
        r
    }
}

/// The paths of frozen (path, state) pairs.
pub open spec fn frozen_keys(v: Seq<(String, String)>) -> Seq<Seq<char>> {
    v.map_values(|p: (String, String)| p.0@)
}

/// The pair `p` is the frozen state of its path's entry in `v`.
pub open spec fn frozen_entry<S: Freeze>(v: StoreView<S>, p: (String, String)) -> bool {
    &&& v.entries.dom().contains(p.0@)
    &&& v.entries[p.0@].state is Present
    &&& p.1@ == v.entries[p.0@].state->Present_0.frozen()
}

impl<S: Freeze> PageStateStore<S> {
    /// Freezes the entries that hold state into (path, frozen state) pairs,
    /// one per such path. Document metadata is not included.
    pub fn freeze_to_hash_map(&self) -> (r: Vec<(String, String)>)
        requires
            self.wf(),
        ensures
            frozen_keys(r@).no_duplicates(),
            forall|k: Seq<char>|
                #[trigger] frozen_keys(r@).contains(k) <==> (self@.entries.dom().contains(k)
                    && self@.entries[k].state is Present),
            forall|q: int| 0 <= q < r.len() ==> #[trigger] frozen_entry(self@, r@[q]),
    {
        let mut out: Vec<(String, String)> = Vec::new();
        let mut i: usize = 0;
        let ghost ps = entry_pairs(self.map@);
        while i < self.map.len()
            invariant
                i <= self.map.len(),
                ps == entry_pairs(self.map@),
                keys_distinct(ps),
                frozen_keys(out@).no_duplicates(),
                forall|k: Seq<char>|
                    #[trigger] frozen_keys(out@).contains(k) <==> (exists|j: int|
                        0 <= j < i && ps[j].0 == k && ps[j].1.state is Present),
                forall|q: int| 0 <= q < out.len() ==> #[trigger] frozen_entry(self@, out@[q]),
            decreases self.map.len() - i,
        {
            let ghost before = out@;
            if let PssState::Present(state) = &self.map[i].1.state {
                let v_str = state.freeze();
                out.push((self.map[i].0.clone(), v_str));
                proof {
                    lemma_to_map_index(ps, i as int);
                    assert(frozen_entry(self@, out@[out.len() - 1]));
                    assert forall|q: int| 0 <= q < out.len() implies #[trigger] frozen_entry(self@, out@[q]) by {
                        if q < out.len() - 1 {
                            assert(out@[q] == before[q]);
                        }
                    }
                    let k0 = ps[i as int].0;
                    assert(frozen_keys(out@) == frozen_keys(before).push(k0));
                    assert(!frozen_keys(before).contains(k0)) by {
                        if frozen_keys(before).contains(k0) {
                            let j = choose|j: int| 0 <= j < i && ps[j].0 == k0 && ps[j].1.state is Present;
                            assert(j != i);
                        }
                    }
                    assert forall|a: int, b: int|
                        0 <= a < frozen_keys(out@).len() && 0 <= b < frozen_keys(out@).len() && a != b implies frozen_keys(out@)[a]
                        != frozen_keys(out@)[b] by {
                        if a < frozen_keys(before).len() && b == frozen_keys(before).len() {
                            assert(frozen_keys(before).contains(frozen_keys(before)[a]));
                        } else if b < frozen_keys(before).len() && a == frozen_keys(before).len() {
                            assert(frozen_keys(before).contains(frozen_keys(before)[b]));
                        }
                    }
                    assert forall|k: Seq<char>|
                        #[trigger] frozen_keys(out@).contains(k) <==> (exists|j: int|
                            0 <= j < i + 1 && ps[j].0 == k && ps[j].1.state is Present) by {
                        if frozen_keys(out@).contains(k) && k != k0 {
                            let q = choose|q: int| 0 <= q < frozen_keys(out@).len() && frozen_keys(out@)[q] == k;
                            assert(frozen_keys(before)[q] == k);
                            assert(frozen_keys(before).contains(k));
                        }
                        if frozen_keys(out@).contains(k) && k == k0 {
                            assert(ps[i as int].0 == k && ps[i as int].1.state is Present);
                        }
                        if exists|j: int| 0 <= j < i + 1 && ps[j].0 == k && ps[j].1.state is Present {
                            let j = choose|j: int| 0 <= j < i + 1 && ps[j].0 == k && ps[j].1.state is Present;
                            if j < i {
                                assert(frozen_keys(before).contains(k));
                                let q = choose|q: int| 0 <= q < frozen_keys(before).len() && frozen_keys(before)[q] == k;
                                assert(frozen_keys(out@)[q] == k);
                            } else {
                                assert(frozen_keys(out@)[frozen_keys(out@).len() - 1] == k);
                            }
                        }
                    }
                }
            } else {
                proof {
                    assert forall|k: Seq<char>|
                        #[trigger] frozen_keys(out@).contains(k) <==> (exists|j: int|
                            0 <= j < i + 1 && ps[j].0 == k && ps[j].1.state is Present) by {
                        if exists|j: int| 0 <= j < i + 1 && ps[j].0 == k && ps[j].1.state is Present {
                            let j = choose|j: int| 0 <= j < i + 1 && ps[j].0 == k && ps[j].1.state is Present;
                            assert(j != i);
                        }
                    }
                }
            }
            i = i + 1;
        }
        proof {
            assert forall|k: Seq<char>|
                #[trigger] frozen_keys(out@).contains(k) <==> (self@.entries.dom().contains(k)
                    && self@.entries[k].state is Present) by {
                lemma_to_map_dom(ps, k);
                if exists|j: int| 0 <= j < ps.len() && ps[j].0 == k && ps[j].1.state is Present {
                    let j = choose|j: int| 0 <= j < ps.len() && ps[j].0 == k && ps[j].1.state is Present;
                    lemma_to_map_index(ps, j);
                }
                if self@.entries.dom().contains(k) && self@.entries[k].state is Present {
                    let j = choose|j: int| 0 <= j < ps.len() && ps[j].0 == k;
                    lemma_to_map_index(ps, j);
                }
            }
        }
        out
    }
}

/// Re-entering `url` as the newest page leaves its entry in place unless
/// the store keeps no pages at all and `url` is not kept.
pub proof fn lemma_touch_keeps<S>(v: StoreView<S>, url: Seq<char>)
    requires
        v.wf(),
        v.entries.dom().contains(url),
        v.max_size > 0 || v.keep_list.contains(url),
    ensures
        v.touch(url).entries.dom().contains(url),
        v.touch(url).entries[url] == v.entries[url],
{
    if !v.keep_list.contains(url) {
        let f = v.order.filter(not_eq(url));
        let o = f.push(url);
        lemma_filter_props(v.order, not_eq(url));
        if o.len() > v.max_size {
            assert(f.len() > 0);
            assert(o[0] == f[0]);
            assert(f.contains(f[0]));
            assert(not_eq(url)(f[0]));
        }
    }
}

/// What a read gives back of a write: once state has been registered for a
/// page that does not refuse state, the store holds exactly that state for it
/// and keeps its document metadata, unless the store keeps no pages at all
/// (a maximum size of zero) and the page is not kept.
pub proof fn law_add_state_then_get<S>(v: StoreView<S>, url: Seq<char>, val: S)
    requires
        v.wf(),
        !(v.entry_or_empty(url).state is Never),
        v.max_size > 0 || v.keep_list.contains(url),
    ensures
        v.with_state(url, val).touch(url).entries.dom().contains(url),
        v.with_state(url, val).touch(url).entries[url].state == PssState::Present(val),
        v.with_state(url, val).touch(url).entries[url].head == v.entry_or_empty(url).head,
{
    lemma_touch_keeps(v.with_state(url, val), url);
}

/// Registering document metadata makes the store hold exactly that metadata
/// for the page and leaves its state as it was, with the same exception.
pub proof fn law_add_head_then_get<S>(v: StoreView<S>, url: Seq<char>, head: Seq<char>)
    requires
        v.wf(),
        v.max_size > 0 || v.keep_list.contains(url),
    ensures
        v.with_head(url, head).touch(url).entries.dom().contains(url),
        v.with_head(url, head).touch(url).entries[url].head == Some(head),
        v.with_head(url, head).touch(url).entries[url].state == v.entry_or_empty(url).state,
{
    lemma_touch_keeps(v.with_head(url, head), url);
}

/// A page declared never to take state refuses it afterwards, whatever else
/// is registered for it: `add_state` then returns `false`. Declaring it keeps
/// its document metadata, and the store then reports it as holding metadata
/// without state, or nothing where it has no metadata.
pub proof fn law_state_never_refuses<S>(v: StoreView<S>, url: Seq<char>, head: Seq<char>)
    requires
        v.wf(),
        v.max_size > 0 || v.keep_list.contains(url),
    ensures
        v.with_state_never(url).entry_or_empty(url).state is Never,
        v.with_state_never(url).entry_or_empty(url).head == v.entry_or_empty(url).head,
        v.with_state_never(url).contains_spec(url) == (if v.entry_or_empty(url).head is Some {
            PssContains::HeadNoState
        } else {
            PssContains::Nothing
        }),
        v.with_state_never(url).with_head(url, head).touch(url).entry_or_empty(url).state is Never,
{
    lemma_touch_keeps(v.with_state_never(url).with_head(url, head), url);
}

/// Adding state keeps the document metadata: once metadata has been
/// registered for a page, registering state for it later (which the page
/// accepts) leaves that metadata beside the new state, unless the store keeps
/// no pages at all and the page is not kept.
pub proof fn law_head_survives_add_state<S>(v: StoreView<S>, url: Seq<char>, head: Seq<char>, val: S)
    requires
        v.wf(),
        !(v.entry_or_empty(url).state is Never),
        v.max_size > 0 || v.keep_list.contains(url),
    ensures
        v.with_head(url, head).touch(url).with_state(url, val).touch(url).entries.dom().contains(url),
        v.with_head(url, head).touch(url).with_state(url, val).touch(url).entries[url].head == Some(head),
        v.with_head(url, head).touch(url).with_state(url, val).touch(url).entries[url].state == PssState::Present(
            val,
        ),
{
    law_add_head_then_get(v, url, head);
    lemma_touch_wf(v.with_head(url, head), url);
    law_add_state_then_get(v.with_head(url, head).touch(url), url, val);
}

/// Where registering state for a page succeeds, the eviction order afterwards
/// is the old one with that page moved (or added) to the end, less its oldest
/// page, whose entry then leaves the store, when that makes more pages than
/// the maximum size; a kept page leaves the order as it was. The order never
/// holds a page twice nor more pages than the maximum size.
pub proof fn law_add_state_order<S>(v: StoreView<S>, url: Seq<char>, val: S)
    requires
        v.wf(),
        !(v.entry_or_empty(url).state is Never),
    ensures
        ({
            let after = v.with_state(url, val).touch(url);
            let moved = v.order.filter(not_eq(url)).push(url);
            &&& if !v.keep_list.contains(url) {
                if moved.len() > v.max_size {
                    after.order == moved.drop_first() && !after.entries.dom().contains(moved[0])
                } else {
                    after.order == moved
                }
            } else {
                after.order == v.order
            }
            &&& after.order.no_duplicates()
            &&& after.order.len() <= v.max_size
        }),
{
    lemma_touch_wf(v.with_state(url, val), url);
}

/// What the store reports for a page follows what its entry holds: all of
/// it where it has state and metadata, the state or the metadata alone where
/// it has only one of them, metadata without state where it refuses state,
/// and nothing where it has no entry or neither.
pub proof fn law_contains_reports_entry<S>(v: StoreView<S>, url: Seq<char>)
    ensures
        v.contains_spec(url) == PssContains::All <==> v.entries.dom().contains(url)
            && v.entries[url].state is Present && v.entries[url].head is Some,
        v.contains_spec(url) == PssContains::State <==> v.entries.dom().contains(url)
            && v.entries[url].state is Present && v.entries[url].head is None,
        v.contains_spec(url) == PssContains::Head <==> v.entries.dom().contains(url)
            && v.entries[url].state is Vacant && v.entries[url].head is Some,
        v.contains_spec(url) == PssContains::HeadNoState <==> v.entries.dom().contains(url)
            && v.entries[url].state is Never && v.entries[url].head is Some,
        v.contains_spec(url) == PssContains::Nothing <==> !v.entries.dom().contains(url)
            || (v.entries[url].head is None && !(v.entries[url].state is Present)),
{
}

/// Document metadata registered for a page that holds no state is reported:
/// the store then holds the metadata alone for it, with the exception of the
/// read of metadata after a write.
pub proof fn law_head_alone_is_reported<S>(v: StoreView<S>, url: Seq<char>, head: Seq<char>)
    requires
        v.wf(),
        v.entry_or_empty(url).state is Vacant,
        v.max_size > 0 || v.keep_list.contains(url),
    ensures
        v.with_head(url, head).touch(url).contains_spec(url) == PssContains::Head,
{
    law_add_head_then_get(v, url, head);
}

/// The store never holds more pages in its eviction order than its maximum
/// size, each at most once, and none of them kept.
pub proof fn law_bounded<S>(s: &PageStateStore<S>)
    requires
        s.wf(),
    ensures
        s@.order.len() <= s@.max_size,
        s@.order.no_duplicates(),
        forall|i: int| 0 <= i < s@.order.len() ==> !s@.keep_list.contains(#[trigger] s@.order[i]),
{
}

} // verus!
