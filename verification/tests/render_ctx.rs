use perseus::errors::{ClientError, ClientInvariantError};
use perseus::state::freeze::{FrozenApp, PageThawPrefs, ThawPrefs};
use perseus::state::global_state::FrozenGlobalState;
use perseus::state::rx_state::Freeze;
use perseus::state::state_store::PssContains;
use perseus::template::render_ctx::{RenderCtx, ThawAction};

#[derive(Clone, Debug, PartialEq)]
struct Counter(u32);

impl Freeze for Counter {
    fn freeze(&self) -> String {
        self.0.to_string()
    }
}

fn p(s: &str) -> String {
    s.to_string()
}

fn thaw_counter(s: String) -> Option<Counter> {
    s.parse::<u32>().ok().map(Counter)
}

fn server_counter(s: String) -> Result<Counter, ClientError> {
    s.parse::<u32>()
        .map(Counter)
        .map_err(|_| ClientError::InvariantError(ClientInvariantError::IllegalStateRegistration))
}

fn frozen(route: Option<&str>, global: FrozenGlobalState, pages: Vec<(&str, &str)>) -> FrozenApp {
    FrozenApp {
        global_state: global,
        route: route.map(p),
        state_store: pages.into_iter().map(|(k, v)| (p(k), p(v))).collect(),
    }
}

fn prefs(page: PageThawPrefs, global_prefer_frozen: bool) -> ThawPrefs {
    ThawPrefs {
        page,
        global_prefer_frozen,
    }
}

#[test]
fn thaw_reloads_on_the_same_route() {
    let mut ctx: RenderCtx<Counter, Counter> = RenderCtx::new(5, None);
    let action = ctx.thaw(
        frozen(Some("about"), FrozenGlobalState::Absent, vec![]),
        prefs(PageThawPrefs::IncludeAll, false),
        &p("about"),
    );
    assert_eq!(action, ThawAction::Reload);
}

#[test]
fn thaw_navigates_to_another_route() {
    let mut ctx: RenderCtx<Counter, Counter> = RenderCtx::new(5, None);
    let action = ctx.thaw(
        frozen(Some("post/a"), FrozenGlobalState::Absent, vec![]),
        prefs(PageThawPrefs::IncludeAll, false),
        &p("about"),
    );
    assert_eq!(action, ThawAction::Navigate(p("post/a")));
}

#[test]
fn thaw_before_hydration_reloads() {
    let mut ctx: RenderCtx<Counter, Counter> = RenderCtx::new(5, None);
    let action = ctx.thaw(
        frozen(None, FrozenGlobalState::Absent, vec![]),
        prefs(PageThawPrefs::IncludeAll, false),
        &p("about"),
    );
    assert_eq!(action, ThawAction::Reload);
}

#[test]
fn page_state_without_frozen_app_is_active_state() {
    let mut ctx: RenderCtx<Counter, Counter> = RenderCtx::new(5, None);
    assert_eq!(
        ctx.get_active_or_frozen_page_state(&p("about"), false, &thaw_counter),
        None
    );
    let r = ctx.register_page_state_value(&p("about"), Counter(4), false);
    assert_eq!(r, Counter(4));
    assert_eq!(
        ctx.get_active_or_frozen_page_state(&p("about"), false, &thaw_counter),
        Some(Counter(4))
    );
}

#[test]
fn frozen_page_state_is_preferred_and_registered_once() {
    let mut ctx: RenderCtx<Counter, Counter> = RenderCtx::new(5, None);
    ctx.register_page_state_value(&p("about"), Counter(1), false);
    ctx.thaw(
        frozen(Some("about"), FrozenGlobalState::Absent, vec![("about", "9")]),
        prefs(PageThawPrefs::IncludeAll, false),
        &p("about"),
    );
    assert_eq!(
        ctx.get_active_or_frozen_page_state(&p("about"), false, &thaw_counter),
        Some(Counter(9))
    );
    assert_eq!(
        ctx.page_state_store().get_state(&p("about")),
        Some(&Counter(9))
    );
    // The frozen state was used up: the active state is what remains.
    ctx.register_page_state_value(&p("about"), Counter(2), false);
    assert_eq!(
        ctx.get_active_or_frozen_page_state(&p("about"), false, &thaw_counter),
        Some(Counter(2))
    );
}

#[test]
fn corrupt_frozen_page_state_falls_back_to_active() {
    let mut ctx: RenderCtx<Counter, Counter> = RenderCtx::new(5, None);
    ctx.register_page_state_value(&p("about"), Counter(1), false);
    ctx.thaw(
        frozen(None, FrozenGlobalState::Absent, vec![("about", "not a number")]),
        prefs(PageThawPrefs::IncludeAll, false),
        &p("about"),
    );
    assert_eq!(
        ctx.get_active_or_frozen_page_state(&p("about"), false, &thaw_counter),
        Some(Counter(1))
    );
}

#[test]
fn excluded_page_prefers_active_then_frozen() {
    let mut ctx: RenderCtx<Counter, Counter> = RenderCtx::new(5, None);
    ctx.register_page_state_value(&p("about"), Counter(1), false);
    ctx.thaw(
        frozen(
            None,
            FrozenGlobalState::Absent,
            vec![("about", "7"), ("post", "8")],
        ),
        prefs(PageThawPrefs::Exclude(vec![p("about"), p("post")]), false),
        &p("about"),
    );
    // Active state exists: it wins.
    assert_eq!(
        ctx.get_active_or_frozen_page_state(&p("about"), false, &thaw_counter),
        Some(Counter(1))
    );
    // No active state: the frozen state is not preferred, so none is given.
    assert_eq!(
        ctx.get_active_or_frozen_page_state(&p("post"), false, &thaw_counter),
        None
    );
    assert_eq!(ctx.page_state_store().contains(&p("post")), PssContains::Nothing);
}

#[test]
fn included_page_without_active_state_uses_frozen() {
    let mut ctx: RenderCtx<Counter, Counter> = RenderCtx::new(5, None);
    ctx.thaw(
        frozen(None, FrozenGlobalState::Absent, vec![("post", "8")]),
        prefs(PageThawPrefs::Include(vec![p("post")]), false),
        &p("post"),
    );
    assert_eq!(
        ctx.get_active_or_frozen_page_state(&p("post"), false, &thaw_counter),
        Some(Counter(8))
    );
    assert_eq!(
        ctx.get_active_or_frozen_page_state(&p("other"), false, &thaw_counter),
        None
    );
}

#[test]
fn page_registered_without_state_takes_no_frozen_state() {
    let mut ctx: RenderCtx<Counter, Counter> = RenderCtx::new(5, None);
    ctx.register_page_no_state(&p("static"), false);
    ctx.thaw(
        frozen(None, FrozenGlobalState::Absent, vec![("static", "3")]),
        prefs(PageThawPrefs::IncludeAll, false),
        &p("static"),
    );
    assert_eq!(
        ctx.get_active_or_frozen_page_state(&p("static"), false, &thaw_counter),
        None
    );
    let r = ctx.register_page_state_value(&p("static"), Counter(5), false);
    assert_eq!(r, Counter(5));
    assert_eq!(ctx.page_state_store().get_state(&p("static")), None);
}

#[test]
fn app_without_global_state_has_none() {
    let mut ctx: RenderCtx<Counter, Counter> = RenderCtx::new(5, None);
    assert_eq!(
        ctx.try_get_global_state(&thaw_counter, &server_counter),
        Ok(None)
    );
    assert!(matches!(ctx.freeze_global_state(), FrozenGlobalState::Absent));
}

#[test]
fn server_global_state_is_loaded_once() {
    let mut ctx: RenderCtx<Counter, Counter> = RenderCtx::new(5, Some(p("12")));
    assert!(matches!(ctx.freeze_global_state(), FrozenGlobalState::Server));
    assert_eq!(
        ctx.try_get_global_state(&thaw_counter, &server_counter),
        Ok(Some(Counter(12)))
    );
    assert!(matches!(ctx.freeze_global_state(), FrozenGlobalState::Frozen(ref s) if s == "12"));
    // A second registration replaces the active global state.
    ctx.register_global_state_value(Counter(13));
    assert_eq!(
        ctx.try_get_global_state(&thaw_counter, &server_counter),
        Ok(Some(Counter(13)))
    );
}

#[test]
fn invalid_server_global_state_is_an_error() {
    let mut ctx: RenderCtx<Counter, Counter> = RenderCtx::new(5, Some(p("x")));
    assert_eq!(
        ctx.try_get_global_state(&thaw_counter, &server_counter),
        Err(ClientError::InvariantError(
            ClientInvariantError::IllegalStateRegistration
        ))
    );
    assert!(matches!(ctx.freeze_global_state(), FrozenGlobalState::Server));
}

#[test]
fn frozen_global_state_is_preferred_and_marked_used() {
    let mut ctx: RenderCtx<Counter, Counter> = RenderCtx::new(5, Some(p("1")));
    ctx.thaw(
        frozen(None, FrozenGlobalState::Frozen(p("40")), vec![]),
        prefs(PageThawPrefs::IncludeAll, true),
        &p("about"),
    );
    assert_eq!(
        ctx.try_get_global_state(&thaw_counter, &server_counter),
        Ok(Some(Counter(40)))
    );
    let app = ctx.freeze(Some(p("about")));
    assert!(matches!(app.global_state, FrozenGlobalState::Frozen(ref s) if s == "40"));
}

#[test]
fn frozen_global_state_not_preferred_leaves_server_state() {
    let mut ctx: RenderCtx<Counter, Counter> = RenderCtx::new(5, Some(p("1")));
    ctx.thaw(
        frozen(None, FrozenGlobalState::Frozen(p("40")), vec![]),
        prefs(PageThawPrefs::IncludeAll, false),
        &p("about"),
    );
    // Frozen global state is not preferred, so the server's state is used.
    assert_eq!(
        ctx.try_get_global_state(&thaw_counter, &server_counter),
        Ok(Some(Counter(1)))
    );
}

#[test]
fn freeze_records_route_and_page_states() {
    let mut ctx: RenderCtx<Counter, Counter> = RenderCtx::new(5, None);
    ctx.register_page_state_value(&p("a"), Counter(1), false);
    ctx.register_page_state_value(&p("b"), Counter(2), false);
    ctx.register_page_no_state(&p("c"), false);
    let app = ctx.freeze(Some(p("a")));
    assert_eq!(app.route, Some(p("a")));
    assert!(matches!(app.global_state, FrozenGlobalState::Absent));
    let mut pages = app.state_store.clone();
    pages.sort();
    assert_eq!(pages, vec![(p("a"), p("1")), (p("b"), p("2"))]);
}

#[test]
fn server_context_has_no_page_store_and_keeps_server_state() {
    let mut ctx: RenderCtx<Counter, Counter> = RenderCtx::server(Some(p("5")));
    assert!(matches!(ctx.freeze_global_state(), FrozenGlobalState::Server));
    assert_eq!(
        ctx.try_get_global_state(&thaw_counter, &server_counter),
        Ok(Some(Counter(5)))
    );
    let empty: RenderCtx<Counter, Counter> = RenderCtx::server(None);
    assert!(matches!(empty.freeze_global_state(), FrozenGlobalState::Absent));
}
