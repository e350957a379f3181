use perseus::errors::{ServeError, ServerError, StoreError};
use perseus::server::render::{
    GlobalStateAction, GlobalStateJob, JobPhase, PageStateJob, RenderAction, RenderEvent,
    StoreKind, TemplateFeatures,
};

fn p(s: &str) -> String {
    s.to_string()
}

fn features(path: &str) -> TemplateFeatures {
    TemplateFeatures {
        path: p(path),
        uses_build_state: false,
        uses_build_paths: false,
        uses_incremental: false,
        revalidates_with_time: false,
        revalidates_with_logic: false,
        uses_request_state: false,
        can_amalgamate_states: false,
        is_capsule: false,
    }
}

fn read_name(a: &RenderAction, store: StoreKind) -> String {
    match a {
        RenderAction::Read { store: s, name } => {
            assert_eq!(*s, store);
            name.clone()
        }
        other => panic!("expected a read, got {:?}", other),
    }
}

fn written(a: &RenderAction) -> (String, String) {
    match a {
        RenderAction::Write { name, content } => (name.clone(), content.clone()),
        other => panic!("expected a write, got {:?}", other),
    }
}

fn ok(s: &str) -> RenderEvent {
    RenderEvent::Read(Ok(p(s)))
}

/// Starts a job and answers the translator and extra state requests.
fn start(
    path: &str,
    locale: &str,
    incremental_match: bool,
    render_html: bool,
    dev: bool,
    f: TemplateFeatures,
) -> (PageStateJob, RenderAction) {
    let template_path = f.path.clone();
    let (mut job, a) = PageStateJob::new(p(path), p(locale), incremental_match, render_html, dev, f);
    assert!(matches!(a, RenderAction::GetTranslator { ref locale } if locale == "en-US"));
    let a = job.step(RenderEvent::Translator(Ok(p(locale))));
    assert_eq!(
        read_name(&a, StoreKind::Immutable),
        format!("static/{}.extra.json", template_path)
    );
    let a = job.step(ok("null"));
    (job, a)
}

#[test]
fn path_is_encoded_with_locale() {
    let (job, _) = PageStateJob::new(p("post/a b"), p("en-US"), false, true, false, features("post"));
    assert_eq!(job.path_encoded, "en-US-post%2Fa%20b");
    assert_eq!(job.phase, JobPhase::AwaitTranslator);
}

#[test]
fn basic_page_is_read_from_immutable_store() {
    let mut f = features("about");
        let (mut job, a) = start("about", "en-US", false, true, false, f);
    assert_eq!(read_name(&a, StoreKind::Immutable), "static/en-US-about.html");
    let a = job.step(ok("<p>About</p>"));
    assert_eq!(read_name(&a, StoreKind::Immutable), "static/en-US-about.head.html");
    let a = job.step(ok("<title>About</title>"));
    assert_eq!(read_name(&a, StoreKind::Immutable), "static/en-US-about.json");
    let a = job.step(ok("{ \"n\": 1 }"));
    match a {
        RenderAction::Done(pd) => {
            assert_eq!(pd.content, "<p>About</p>");
            assert_eq!(pd.head, "<title>About</title>");
            assert_eq!(pd.state, Some(p("{\"n\":1}")));
        }
        other => panic!("{:?}", other),
    }
    assert_eq!(job.phase, JobPhase::Finished);
}

#[test]
fn path_with_locale_is_rendered_and_content_skipped() {
    let mut f = features("about");
        let (mut job, a) = start("about", "en-US", false, false, false, f);
    assert_eq!(job.path_with_locale, "en-US/about");
    assert_eq!(read_name(&a, StoreKind::Immutable), "static/en-US-about.head.html");
    let a = job.step(ok("<title>About</title>"));
    assert_eq!(read_name(&a, StoreKind::Immutable), "static/en-US-about.json");
    // Missing state is empty state.
    let a = job.step(RenderEvent::Read(Err(StoreError::NotFound {
        name: p("static/en-US-about.json"),
    })));
    match a {
        RenderAction::Done(pd) => {
            assert_eq!(pd.content, "");
            assert_eq!(pd.state, None);
        }
        other => panic!("{:?}", other),
    }
}

#[test]
fn missing_and_invalid_extra_state_fail() {
    let (mut job, _) = PageStateJob::new(p("a"), p("en-US"), false, true, false, features("t"));
    job.step(RenderEvent::Translator(Ok(p("xx-XX"))));
    assert_eq!(job.path_with_locale, "a");
    let a = job.step(RenderEvent::Read(Err(StoreError::NotFound { name: p("x") })));
    assert!(matches!(
        a,
        RenderAction::Failed(ServerError::MissingBuildExtra { ref template_name }) if template_name == "t"
    ));

    let (mut job, _) = PageStateJob::new(p("a"), p("en-US"), false, true, false, features("t"));
    job.step(RenderEvent::Translator(Ok(p("en-US"))));
    let a = job.step(ok("{not json"));
    assert!(matches!(
        a,
        RenderAction::Failed(ServerError::InvalidBuildExtra { ref template_name, .. }) if template_name == "t"
    ));
}

#[test]
fn invalid_stored_state_fails() {
    let mut f = features("about");
    f.uses_build_state = true;
    let (mut job, _) = start("about", "en-US", false, false, false, f);
    job.step(ok("<title></title>"));
    let a = job.step(ok("[1,"));
    assert!(matches!(a, RenderAction::Failed(ServerError::InvalidPageState { .. })));
}

#[test]
fn uncached_incremental_page_is_generated_and_cached() {
    let mut f = features("post");
    f.uses_build_state = true;
    f.uses_incremental = true;
    f.revalidates_with_time = true;
    let (mut job, a) = start("new", "en-US", true, true, false, f);
    assert_eq!(read_name(&a, StoreKind::Mutable), "static/en-US-new.html");
    let a = job.step(RenderEvent::Read(Err(StoreError::NotFound { name: p("x") })));
    match &a {
        RenderAction::GenerateBuildState { info } => {
            assert_eq!(info.path, "new");
            assert_eq!(info.locale, "en-US");
            assert_eq!(info.extra, None);
        }
        other => panic!("{:?}", other),
    }
    let a = job.step(RenderEvent::State(Ok(Some(p("{\"t\":2}")))));
    assert!(matches!(a, RenderAction::RenderHtml { ref path_with_locale, .. } if path_with_locale == "en-US/new"));
    let a = job.step(RenderEvent::Rendered(p("<p>new</p>")));
    assert!(matches!(a, RenderAction::RenderHead { .. }));
    let a = job.step(RenderEvent::Rendered(p("<title>new</title>")));
    assert!(matches!(a, RenderAction::ComputeRevalidationTime));
    let a = job.step(RenderEvent::Timestamp(p("2030-01-01T00:00:00Z")));
    assert_eq!(
        written(&a),
        (p("static/en-US-new.revld.txt"), p("2030-01-01T00:00:00Z"))
    );
    let a = job.step(RenderEvent::Written(Ok(())));
    assert_eq!(written(&a), (p("static/en-US-new.json"), p("{\"t\":2}")));
    let a = job.step(RenderEvent::Written(Ok(())));
    assert_eq!(written(&a), (p("static/en-US-new.html"), p("<p>new</p>")));
    let a = job.step(RenderEvent::Written(Ok(())));
    assert_eq!(
        written(&a),
        (p("static/en-US-new.head.html"), p("<title>new</title>"))
    );
    let a = job.step(RenderEvent::Written(Ok(())));
    match a {
        RenderAction::Done(pd) => {
            assert_eq!(pd.content, "<p>new</p>");
            assert_eq!(pd.head, "<title>new</title>");
            assert_eq!(pd.state, Some(p("{\"t\":2}")));
        }
        other => panic!("{:?}", other),
    }
}

#[test]
fn failed_cache_write_fails_the_job() {
    let mut f = features("post");
    f.uses_build_state = true;
    f.uses_incremental = true;
    let (mut job, _) = start("new", "en-US", true, true, false, f);
    job.step(RenderEvent::Read(Err(StoreError::NotFound { name: p("x") })));
    job.step(RenderEvent::State(Ok(None)));
    job.step(RenderEvent::Rendered(p("h")));
    let a = job.step(RenderEvent::Rendered(p("hd")));
    // Empty state is cached as JSON null.
    assert_eq!(written(&a), (p("static/en-US-new.json"), p("null")));
    let err = StoreError::WriteFailed { name: p("static/en-US-new.json"), source: p("disk full") };
    let a = job.step(RenderEvent::Written(Err(err)));
    assert!(matches!(a, RenderAction::Failed(ServerError::StoreError(StoreError::WriteFailed { .. }))));
}

#[test]
fn cached_page_with_future_revalidation_is_served_from_cache() {
    let mut f = features("post");
    f.uses_build_state = true;
    f.uses_incremental = true;
    f.revalidates_with_time = true;
    f.revalidates_with_logic = true;
    let (mut job, _) = start("old", "en-US", true, true, false, f);
    let a = job.step(ok("<p>cached</p>"));
    assert_eq!(read_name(&a, StoreKind::Mutable), "static/en-US-old.head.html");
    let a = job.step(ok("<title>cached</title>"));
    assert_eq!(read_name(&a, StoreKind::Mutable), "static/en-US-old.revld.txt");
    let a = job.step(ok("2030-01-01T00:00:00+00:00"));
    assert!(matches!(a, RenderAction::GetNow));
    // 2024-01-01T00:00:00Z
    let a = job.step(RenderEvent::Now { secs: 1_704_067_200, nanos: 0 });
    assert_eq!(read_name(&a, StoreKind::Mutable), "static/en-US-old.json");
    let a = job.step(ok("{\"c\":true}"));
    match a {
        RenderAction::Done(pd) => {
            assert_eq!(pd.content, "<p>cached</p>");
            assert_eq!(pd.head, "<title>cached</title>");
            assert_eq!(pd.state, Some(p("{\"c\":true}")));
        }
        other => panic!("{:?}", other),
    }
}

#[test]
fn past_revalidation_time_defers_to_logic() {
    let mut f = features("post");
    f.uses_build_state = true;
    f.revalidates_with_time = true;
    f.revalidates_with_logic = true;
    let (mut job, a) = start("p", "en-US", false, true, false, f);
    assert_eq!(read_name(&a, StoreKind::Mutable), "static/en-US-p.revld.txt");
    job.step(ok("2020-01-01T00:00:00Z"));
    let a = job.step(RenderEvent::Now { secs: 1_704_067_200, nanos: 0 });
    assert!(matches!(a, RenderAction::ShouldRevalidate { .. }));
    // The logic says no: the page comes from the mutable store.
    let a = job.step(RenderEvent::Decision(Ok(false)));
    assert_eq!(read_name(&a, StoreKind::Mutable), "static/en-US-p.html");
}

#[test]
fn past_revalidation_time_revalidates() {
    let mut f = features("post");
    f.uses_build_state = true;
    f.revalidates_with_time = true;
    let (mut job, _) = start("p", "en-US", false, true, false, f);
    job.step(ok("2020-01-01T00:00:00Z"));
    let a = job.step(RenderEvent::Now { secs: 1_704_067_200, nanos: 0 });
    assert!(matches!(a, RenderAction::GenerateBuildState { .. }));
}

#[test]
fn bad_revalidation_time_fails() {
    let mut f = features("post");
    f.uses_build_state = true;
    f.revalidates_with_time = true;
    let (mut job, _) = start("p", "en-US", false, true, false, f);
    let a = job.step(ok("next tuesday"));
    assert!(matches!(
        a,
        RenderAction::Failed(ServerError::ServeError(ServeError::BadRevalidate { .. }))
    ));
}

#[test]
fn development_never_uses_the_incremental_cache() {
    let mut f = features("post");
    f.uses_build_state = true;
    f.uses_incremental = true;
    let (mut job, _) = start("old", "en-US", true, true, true, f);
    let a = job.step(ok("<p>cached</p>"));
    assert!(matches!(a, RenderAction::GenerateBuildState { .. }));
}

#[test]
fn request_state_is_rendered_when_alone() {
    let mut f = features("req");
    f.uses_request_state = true;
    let (mut job, a) = start("r", "en-US", false, true, false, f);
    assert!(matches!(a, RenderAction::GenerateRequestState { .. }));
    let a = job.step(RenderEvent::State(Ok(Some(p("{\"r\":1}")))));
    assert!(matches!(a, RenderAction::RenderHead { ref state } if *state == Some(p("{\"r\":1}"))));
    let a = job.step(RenderEvent::Rendered(p("<title>r</title>")));
    assert!(matches!(a, RenderAction::RenderHtml { .. }));
    let a = job.step(RenderEvent::Rendered(p("<p>r</p>")));
    match a {
        RenderAction::Done(pd) => {
            assert_eq!(pd.content, "<p>r</p>");
            assert_eq!(pd.head, "<title>r</title>");
            assert_eq!(pd.state, Some(p("{\"r\":1}")));
        }
        other => panic!("{:?}", other),
    }
}

#[test]
fn request_state_wins_without_amalgamation() {
    let mut f = features("both");
    f.uses_build_state = true;
    f.uses_request_state = true;
    let (mut job, _) = start("b", "en-US", false, false, false, f);
    job.step(ok("<title>b</title>"));
    let a = job.step(ok("{\"from\":\"build\"}"));
    assert!(matches!(a, RenderAction::GenerateRequestState { .. }));
    let a = job.step(RenderEvent::State(Ok(Some(p("{\"from\":\"request\"}")))));
    assert!(matches!(a, RenderAction::RenderHead { ref state } if *state == Some(p("{\"from\":\"request\"}"))));
    let a = job.step(RenderEvent::Rendered(p("<title>req</title>")));
    match a {
        RenderAction::Done(pd) => {
            assert_eq!(pd.content, "");
            assert_eq!(pd.head, "<title>req</title>");
            assert_eq!(pd.state, Some(p("{\"from\":\"request\"}")));
        }
        other => panic!("{:?}", other),
    }
}

#[test]
fn states_are_amalgamated_when_possible() {
    let mut f = features("both");
    f.uses_build_state = true;
    f.uses_request_state = true;
    f.can_amalgamate_states = true;
    let (mut job, _) = start("b", "en-US", false, true, false, f);
    job.step(ok("<p>b</p>"));
    job.step(ok("<title>b</title>"));
    job.step(ok("{\"x\":1}"));
    let a = job.step(RenderEvent::State(Ok(Some(p("{\"y\":2}")))));
    match &a {
        RenderAction::AmalgamateStates { build_state, request_state, .. } => {
            assert_eq!(*build_state, Some(p("{\"x\":1}")));
            assert_eq!(*request_state, Some(p("{\"y\":2}")));
        }
        other => panic!("{:?}", other),
    }
    let a = job.step(RenderEvent::State(Ok(Some(p("{\"x\":1,\"y\":2}")))));
    assert!(matches!(a, RenderAction::RenderHtml { .. }));
    let a = job.step(RenderEvent::Rendered(p("<p>both</p>")));
    assert!(matches!(a, RenderAction::RenderHead { .. }));
    let a = job.step(RenderEvent::Rendered(p("<title>both</title>")));
    match a {
        RenderAction::Done(pd) => {
            assert_eq!(pd.content, "<p>both</p>");
            assert_eq!(pd.state, Some(p("{\"x\":1,\"y\":2}")));
        }
        other => panic!("{:?}", other),
    }
}

#[test]
fn global_state_without_request_state_is_the_built_one() {
    let (job, a) = GlobalStateJob::new(p("en-US"), Some(p("{\"g\":1}")), false, false);
    assert!(matches!(a, GlobalStateAction::Done(Some(ref s)) if s == "{\"g\":1}"));
    assert_eq!(job.built_state, Some(p("{\"g\":1}")));
}

#[test]
fn global_request_state_wins_or_is_amalgamated() {
    let (mut job, a) = GlobalStateJob::new(p("en-US"), Some(p("1")), true, false);
    assert!(matches!(a, GlobalStateAction::GenerateRequestState { ref locale } if locale == "en-US"));
    let a = job.step(Ok(Some(p("2"))));
    assert!(matches!(a, GlobalStateAction::Done(Some(ref s)) if s == "2"));

    let (mut job, _) = GlobalStateJob::new(p("en-US"), Some(p("1")), true, true);
    let a = job.step(Ok(Some(p("2"))));
    assert!(matches!(a, GlobalStateAction::AmalgamateStates { .. }));
    let a = job.step(Ok(Some(p("3"))));
    assert!(matches!(a, GlobalStateAction::Done(Some(ref s)) if s == "3"));

    // Nothing built: no amalgamation.
    let (mut job, _) = GlobalStateJob::new(p("en-US"), None, true, true);
    let a = job.step(Ok(Some(p("2"))));
    assert!(matches!(a, GlobalStateAction::Done(Some(ref s)) if s == "2"));
}

#[test]
fn basic_templates_define_no_rendering_logic() {
    let f = features("t");
    assert!(f.is_basic());
    let mut g = features("t");
    g.uses_build_paths = true;
    assert!(!g.is_basic());
    let mut h = features("t");
    h.revalidates_with_logic = true;
    assert!(h.revalidates());
    assert!(!h.is_basic());
}
