use perseus::errors::{ClientError, ClientInvariantError, ClientPreloadError};
use perseus::state::rx_state::Freeze;
use perseus::state::state_store::{
    preload_asset_url, PageDataPartial, PageStateStore, PssContains,
};

#[derive(Clone, Debug, PartialEq)]
struct Counter(u32);

impl Freeze for Counter {
    fn freeze(&self) -> String {
        format!("{{\"count\":{}}}", self.0)
    }
}

fn p(s: &str) -> String {
    s.to_string()
}

#[test]
fn add_state_then_get_state() {
    let mut pss = PageStateStore::new(5);
    assert!(pss.add_state(&p("about"), Counter(3), false).is_ok());
    assert_eq!(pss.get_state(&p("about")), Some(&Counter(3)));
    assert_eq!(pss.get_state(&p("other")), None);
    assert_eq!(pss.contains(&p("about")), PssContains::State);
}

#[test]
fn state_overrides_but_head_is_preserved() {
    let mut pss = PageStateStore::new(5);
    pss.add_head(&p("about"), p("<title>About</title>"), false);
    assert_eq!(pss.contains(&p("about")), PssContains::Head);
    assert!(pss.add_state(&p("about"), Counter(1), false).is_ok());
    assert!(pss.add_state(&p("about"), Counter(2), false).is_ok());
    assert_eq!(pss.get_state(&p("about")), Some(&Counter(2)));
    assert_eq!(pss.get_head(&p("about")), Some(p("<title>About</title>")));
    assert_eq!(pss.contains(&p("about")), PssContains::All);
}

#[test]
fn never_state_refuses_state() {
    let mut pss: PageStateStore<Counter> = PageStateStore::new(5);
    pss.set_state_never(&p("static"), false);
    assert_eq!(pss.contains(&p("static")), PssContains::Nothing);
    pss.add_head(&p("static"), p("h"), false);
    assert_eq!(pss.contains(&p("static")), PssContains::HeadNoState);
    let res = pss.add_state(&p("static"), Counter(1), false);
    assert_eq!(
        res,
        Err(ClientError::InvariantError(ClientInvariantError::IllegalStateRegistration))
    );
    assert_eq!(pss.get_state(&p("static")), None);
}

#[test]
fn oldest_page_is_evicted() {
    let mut pss = PageStateStore::new(2);
    assert!(pss.add_state(&p("a"), Counter(1), false).is_ok());
    assert!(pss.add_state(&p("b"), Counter(2), false).is_ok());
    assert!(pss.add_state(&p("c"), Counter(3), false).is_ok());
    assert_eq!(pss.get_state(&p("a")), None);
    assert_eq!(pss.get_state(&p("b")), Some(&Counter(2)));
    assert_eq!(pss.get_state(&p("c")), Some(&Counter(3)));
}

#[test]
fn reentering_a_page_refreshes_it() {
    let mut pss = PageStateStore::new(2);
    assert!(pss.add_state(&p("a"), Counter(1), false).is_ok());
    assert!(pss.add_state(&p("b"), Counter(2), false).is_ok());
    pss.add_head(&p("a"), p("head"), false);
    assert!(pss.add_state(&p("c"), Counter(3), false).is_ok());
    assert_eq!(pss.get_state(&p("a")), Some(&Counter(1)));
    assert_eq!(pss.get_state(&p("b")), None);
}

#[test]
fn zero_size_store_keeps_no_pages() {
    let mut pss = PageStateStore::new(0);
    assert!(pss.add_state(&p("a"), Counter(1), false).is_ok());
    assert_eq!(pss.get_state(&p("a")), None);
    assert!(pss.add_state(&p("w"), Counter(2), true).is_ok());
    assert_eq!(pss.get_state(&p("w")), Some(&Counter(2)));
}

#[test]
fn kept_pages_are_never_evicted() {
    let mut pss = PageStateStore::new(1);
    assert!(pss.add_state(&p("home"), Counter(1), false).is_ok());
    pss.force_keep(&p("home"));
    assert!(pss.add_state(&p("a"), Counter(2), false).is_ok());
    assert!(pss.add_state(&p("b"), Counter(3), false).is_ok());
    assert_eq!(pss.get_state(&p("home")), Some(&Counter(1)));
    assert_eq!(pss.get_state(&p("a")), None);
    assert_eq!(pss.get_state(&p("b")), Some(&Counter(3)));
}

#[test]
fn force_remove_returns_the_entry() {
    let mut pss = PageStateStore::new(3);
    assert!(pss.add_state(&p("a"), Counter(1), false).is_ok());
    assert!(pss.force_remove(&p("a")).is_some());
    assert!(pss.force_remove(&p("a")).is_none());
    assert_eq!(pss.contains(&p("a")), PssContains::Nothing);
}

#[test]
fn widgets_are_evicted_with_their_last_page() {
    let mut pss = PageStateStore::new(1);
    assert!(pss.add_state(&p("page1"), Counter(1), false).is_ok());
    assert!(pss.add_state(&p("widget"), Counter(9), true).is_ok());
    pss.declare_dependency(&p("widget"), &p("page1"));
    assert!(pss.add_state(&p("page2"), Counter(2), false).is_ok());
    assert_eq!(pss.get_state(&p("page1")), None);
    assert_eq!(pss.get_state(&p("widget")), None);
    assert_eq!(pss.get_state(&p("page2")), Some(&Counter(2)));
}

#[test]
fn shared_widgets_survive_one_page_eviction() {
    let mut pss = PageStateStore::new(2);
    assert!(pss.add_state(&p("page1"), Counter(1), false).is_ok());
    assert!(pss.add_state(&p("page2"), Counter(2), false).is_ok());
    assert!(pss.add_state(&p("widget"), Counter(9), true).is_ok());
    pss.declare_dependency(&p("widget"), &p("page1"));
    pss.declare_dependency(&p("widget"), &p("page2"));
    assert!(pss.add_state(&p("page3"), Counter(3), false).is_ok());
    assert_eq!(pss.get_state(&p("page1")), None);
    assert_eq!(pss.get_state(&p("widget")), Some(&Counter(9)));
    assert!(pss.add_state(&p("page4"), Counter(4), false).is_ok());
    assert_eq!(pss.get_state(&p("widget")), None);
}

#[test]
fn preloads_are_taken_once() {
    let mut pss: PageStateStore<Counter> = PageStateStore::new(3);
    pss.add_preloaded(p("x"), PageDataPartial { state: p("{}"), head: p("hx") }, false);
    pss.add_preloaded(p("x"), PageDataPartial { state: p("[]"), head: p("hy") }, true);
    assert_eq!(pss.contains(&p("x")), PssContains::Preloaded);
    assert!(!pss.needs_preload(&p("x")));
    let first = pss.get_preloaded(&p("x")).unwrap();
    assert_eq!(first.head, "hx");
    let second = pss.get_preloaded(&p("x")).unwrap();
    assert_eq!(second.head, "hy");
    assert!(pss.get_preloaded(&p("x")).is_none());
    assert!(pss.needs_preload(&p("x")));
}

#[test]
fn cycling_route_preloads_keeps_listed_pages() {
    let mut pss: PageStateStore<Counter> = PageStateStore::new(3);
    pss.add_preloaded(p("a"), PageDataPartial { state: p("1"), head: p("") }, true);
    pss.add_preloaded(p("b"), PageDataPartial { state: p("2"), head: p("") }, true);
    pss.add_preloaded(p("c"), PageDataPartial { state: p("3"), head: p("") }, true);
    let keep = p("b");
    pss.cycle_route_preloaded(&[&keep]);
    assert_eq!(pss.contains(&p("a")), PssContains::Nothing);
    assert_eq!(pss.contains(&p("b")), PssContains::Preloaded);
    assert_eq!(pss.contains(&p("c")), PssContains::Nothing);
}

#[test]
fn initial_widgets_are_preloaded_without_head() {
    let mut pss: PageStateStore<Counter> = PageStateStore::new(3);
    pss.add_initial_widget(p("w"), p("{\"a\":1}"));
    let data = pss.get_preloaded(&p("w")).unwrap();
    assert_eq!(data.state, "{\"a\":1}");
    assert_eq!(data.head, "");
}

#[test]
fn freezing_lists_only_pages_with_state() {
    let mut pss = PageStateStore::new(5);
    assert!(pss.add_state(&p("a"), Counter(1), false).is_ok());
    pss.add_head(&p("b"), p("h"), false);
    assert!(pss.add_state(&p("c"), Counter(7), false).is_ok());
    let mut frozen = pss.freeze_to_hash_map();
    frozen.sort();
    assert_eq!(
        frozen,
        vec![(p("a"), p("{\"count\":1}")), (p("c"), p("{\"count\":7}"))]
    );
}

#[test]
fn preload_asset_url_is_built() {
    assert_eq!(
        preload_asset_url("/pre", "en-US", "about", "about", true),
        "/pre/.perseus/page/en-US/about.json?entity_name=about&was_incremental_match=true"
    );
    assert_eq!(
        preload_asset_url("", "xx-XX", "", "index", false),
        "/.perseus/page/xx-XX/.json?entity_name=index&was_incremental_match=false"
    );
}

#[test]
fn preload_responses_are_stored_or_reported() {
    let mut pss: PageStateStore<Counter> = PageStateStore::new(5);
    let res = pss.preload_response(
        p("en-US/about"),
        "about",
        Ok(Some(PageDataPartial { state: p("{}"), head: p("<title>A</title>") })),
        false,
    );
    assert_eq!(res, Ok(()));
    assert_eq!(pss.contains(&p("en-US/about")), PssContains::Preloaded);
    let data = pss.get_preloaded(&p("en-US/about")).unwrap();
    assert_eq!(data.head, "<title>A</title>");

    let res = pss.preload_response(p("en-US/gone"), "gone", Ok(None), true);
    assert_eq!(
        res,
        Err(ClientError::PreloadError(ClientPreloadError::PreloadNotFound { path: p("gone") }))
    );
    assert_eq!(pss.contains(&p("en-US/gone")), PssContains::Nothing);

    let err = ClientError::InvariantError(ClientInvariantError::IllegalStateRegistration);
    let res = pss.preload_response(p("en-US/x"), "x", Err(err), true);
    assert_eq!(
        res,
        Err(ClientError::InvariantError(ClientInvariantError::IllegalStateRegistration))
    );
}

#[test]
fn head_survives_later_state_of_a_widget() {
    let mut pss = PageStateStore::new(0);
    pss.add_head(&p("w"), p("<meta>"), true);
    assert!(pss.add_state(&p("w"), Counter(4), true).is_ok());
    assert_eq!(pss.get_head(&p("w")), Some(p("<meta>")));
    assert_eq!(pss.get_state(&p("w")), Some(&Counter(4)));
    assert_eq!(pss.contains(&p("w")), PssContains::All);
}

#[test]
fn adding_state_moves_a_page_to_the_end_of_the_order() {
    let mut pss = PageStateStore::new(2);
    assert!(pss.add_state(&p("a"), Counter(1), false).is_ok());
    assert!(pss.add_state(&p("b"), Counter(2), false).is_ok());
    assert!(pss.add_state(&p("a"), Counter(5), false).is_ok());
    assert!(pss.add_state(&p("c"), Counter(3), false).is_ok());
    assert_eq!(pss.get_state(&p("a")), Some(&Counter(5)));
    assert_eq!(pss.get_state(&p("b")), None);
    assert_eq!(pss.contains(&p("b")), PssContains::Nothing);
    assert_eq!(pss.get_state(&p("c")), Some(&Counter(3)));
}

#[test]
fn state_never_keeps_the_head_and_refuses_later_state() {
    let mut pss = PageStateStore::new(3);
    pss.add_head(&p("x"), p("<title>X</title>"), false);
    pss.set_state_never(&p("x"), false);
    assert_eq!(pss.contains(&p("x")), PssContains::HeadNoState);
    assert_eq!(pss.get_head(&p("x")), Some(p("<title>X</title>")));
    assert_eq!(
        pss.add_state(&p("x"), Counter(1), false),
        Err(ClientError::InvariantError(ClientInvariantError::IllegalStateRegistration))
    );
    assert_eq!(pss.contains(&p("x")), PssContains::HeadNoState);
}

#[test]
fn a_widget_in_use_can_be_entered_as_a_page() {
    let mut pss = PageStateStore::new(2);
    assert!(pss.add_state(&p("w"), Counter(1), true).is_ok());
    assert!(pss.add_state(&p("p"), Counter(2), false).is_ok());
    pss.declare_dependency(&p("w"), &p("p"));
    assert!(pss.add_state(&p("w"), Counter(3), false).is_ok());
    assert_eq!(pss.get_state(&p("w")), Some(&Counter(3)));
    // Evicting `p` takes its only-used widget `w` with it, though `w` is
    // also a page in the order.
    assert!(pss.add_state(&p("q"), Counter(4), false).is_ok());
    assert_eq!(pss.get_state(&p("p")), None);
    assert_eq!(pss.get_state(&p("w")), None);
    // Evicting `w` as a page later finds no entry and goes on.
    assert!(pss.add_state(&p("r"), Counter(5), false).is_ok());
    assert_eq!(pss.get_state(&p("q")), Some(&Counter(4)));
    assert_eq!(pss.get_state(&p("r")), Some(&Counter(5)));
}

#[test]
fn a_widget_in_use_can_be_removed() {
    let mut pss = PageStateStore::new(1);
    assert!(pss.add_state(&p("w"), Counter(1), true).is_ok());
    assert!(pss.add_state(&p("p"), Counter(2), false).is_ok());
    pss.declare_dependency(&p("w"), &p("p"));
    assert!(pss.force_remove(&p("w")).is_some());
    assert!(pss.add_state(&p("q"), Counter(3), false).is_ok());
    assert_eq!(pss.get_state(&p("p")), None);
    assert_eq!(pss.get_state(&p("q")), Some(&Counter(3)));
}

#[test]
fn kept_pages_survive_heads_and_never_state_of_others() {
    let mut pss: PageStateStore<Counter> = PageStateStore::new(1);
    assert!(pss.add_state(&p("home"), Counter(1), false).is_ok());
    pss.force_keep(&p("home"));
    pss.add_head(&p("a"), p("h"), false);
    pss.set_state_never(&p("b"), false);
    assert_eq!(pss.get_state(&p("home")), Some(&Counter(1)));
    assert_eq!(pss.contains(&p("a")), PssContains::Nothing);
}
