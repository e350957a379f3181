use perseus::errors::{ServeError, ServerError, StoreError};
use perseus::serve::{
    find_template_name, match_template, require_template, ServeAction, ServeEvent, ServeJob,
    ServePhase,
};
use perseus::text::split_string;
use perseus::server::render::TemplateFeatures;

fn p(s: &str) -> String {
    s.to_string()
}

fn cfg(pairs: &[(&str, &str)]) -> Vec<(String, String)> {
    pairs.iter().map(|(k, v)| (p(k), p(v))).collect()
}

fn features(path: &str) -> TemplateFeatures {
    TemplateFeatures {
        path: p(path),
        uses_build_state: false,
        uses_build_paths: false,
        uses_incremental: false,
        revalidates_with_time: false,
        revalidates_with_logic: false,
        uses_request_state: false,
        can_amalgamate_states: false,
        is_capsule: false,
    }
}

fn read_name(a: &ServeAction) -> String {
    match a {
        ServeAction::Read { name } => name.clone(),
        other => panic!("expected a read, got {:?}", other),
    }
}

#[test]
fn split_keeps_empty_pieces() {
    assert_eq!(split_string("/a//b", '/'), vec![p(""), p("a"), p(""), p("b")]);
    assert_eq!(split_string("", '/'), vec![p("")]);
}

#[test]
fn direct_match_is_used() {
    let c = cfg(&[("about", "about"), ("about/*", "other")]);
    assert_eq!(match_template("about", &c), Some(p("about")));
}

#[test]
fn incremental_match_takes_the_most_specific_key() {
    let c = cfg(&[("post/*", "post"), ("post/a/*", "deep")]);
    assert_eq!(match_template("post/a/b", &c), Some(p("deep")));
    assert_eq!(match_template("post/x/y", &c), Some(p("post")));
    // The search stops at the first missing key.
    let c = cfg(&[("post/a/*", "deep")]);
    assert_eq!(match_template("post/a/b", &c), None);
}

#[test]
fn empty_direct_match_falls_back_to_incremental() {
    let c = cfg(&[("post/a", ""), ("post/*", "post")]);
    assert_eq!(match_template("post/a", &c), Some(p("post")));
}

#[test]
fn unknown_page_is_not_found() {
    let c = cfg(&[("about", "about")]);
    assert_eq!(match_template("contact", &c), None);
    assert_eq!(
        find_template_name("contact", &c),
        Err(ServeError::PageNotFound { path: p("contact") })
    );
    assert_eq!(find_template_name("about", &c), Ok(p("about")));
    assert!(matches!(
        require_template("about", None),
        Err(ServeError::PageNotFound { ref path }) if path == "about"
    ));
    assert!(require_template("about", Some(features("about"))).is_ok());
}

#[test]
fn stored_page_is_served() {
    let mut f = features("about");
        let (mut job, a) = ServeJob::new(p("about me"), f, false);
    assert_eq!(job.path_encoded, "about%20me");
    assert_eq!(read_name(&a), "../app/dist/static/about%20me.html");
    let a = job.step(ServeEvent::Read(Ok(p("<p>me</p>"))));
    assert_eq!(read_name(&a), "../app/dist/static/about%20me.json");
    let a = job.step(ServeEvent::Read(Err(StoreError::NotFound { name: p("x") })));
    match a {
        ServeAction::Done { content, state } => {
            assert_eq!(content, "<p>me</p>");
            assert_eq!(state, None);
        }
        other => panic!("{:?}", other),
    }
    assert_eq!(job.phase, ServePhase::Finished);
}

#[test]
fn missing_stored_html_fails() {
    let mut f = features("about");
    f.uses_build_state = true;
    let (mut job, _) = ServeJob::new(p("about"), f, false);
    let a = job.step(ServeEvent::Read(Err(StoreError::NotFound { name: p("x") })));
    assert!(matches!(a, ServeAction::Failed(ServerError::StoreError(StoreError::NotFound { .. }))));
}

#[test]
fn due_revalidation_regenerates_under_template_path() {
    let mut f = features("post");
    f.uses_build_state = true;
    f.uses_incremental = true;
    f.revalidates_with_time = true;
    let (mut job, _) = ServeJob::new(p("a"), f, false);
    let a = job.step(ServeEvent::Read(Ok(p("<p>old</p>"))));
    assert_eq!(read_name(&a), "../app/dist/static/a.revld.txt");
    let a = job.step(ServeEvent::Read(Ok(p("2020-01-01T00:00:00Z"))));
    assert!(matches!(a, ServeAction::GetNow));
    let a = job.step(ServeEvent::Now { secs: 1_704_067_200, nanos: 0 });
    assert!(matches!(a, ServeAction::GenerateBuildState { ref path } if path == "post/a"));
    let a = job.step(ServeEvent::State(Ok(p("{\"v\":2}"))));
    assert!(matches!(a, ServeAction::RenderHtml { ref state } if *state == Some(p("{\"v\":2}"))));
    let a = job.step(ServeEvent::Rendered(p("<p>new</p>")));
    assert!(matches!(a, ServeAction::ComputeRevalidationTime));
    let a = job.step(ServeEvent::Timestamp(Ok(p("2031-01-01T00:00:00Z"))));
    assert!(matches!(a, ServeAction::Write { ref name, .. } if name == "../app/dist/static/a.revld.txt"));
    let a = job.step(ServeEvent::Written(Ok(())));
    assert!(matches!(a, ServeAction::Write { ref name, ref content } if name == "../app/dist/static/a.json" && content == "{\"v\":2}"));
    let a = job.step(ServeEvent::Written(Ok(())));
    assert!(matches!(a, ServeAction::Write { ref name, ref content } if name == "../app/dist/static/a.html" && content == "<p>new</p>"));
    let a = job.step(ServeEvent::Written(Ok(())));
    match a {
        ServeAction::Done { content, state } => {
            assert_eq!(content, "<p>new</p>");
            assert_eq!(state, Some(p("{\"v\":2}")));
        }
        other => panic!("{:?}", other),
    }
}

#[test]
fn uncached_incremental_page_is_generated_under_its_path() {
    let mut f = features("post");
    f.uses_build_state = true;
    f.uses_incremental = true;
    let (mut job, _) = ServeJob::new(p("a"), f, false);
    let a = job.step(ServeEvent::Read(Err(StoreError::NotFound { name: p("x") })));
    assert!(matches!(a, ServeAction::GenerateBuildState { ref path } if path == "a"));
}

#[test]
fn cached_page_without_revalidation_is_served_from_cache() {
    let mut f = features("post");
    f.uses_build_state = true;
    f.uses_incremental = true;
    let (mut job, _) = ServeJob::new(p("a"), f, false);
    let a = job.step(ServeEvent::Read(Ok(p("<p>cached</p>"))));
    assert_eq!(read_name(&a), "../app/dist/static/a.json");
    let a = job.step(ServeEvent::Read(Ok(p("{\"c\":1}"))));
    match a {
        ServeAction::Done { content, state } => {
            assert_eq!(content, "<p>cached</p>");
            assert_eq!(state, Some(p("{\"c\":1}")));
        }
        other => panic!("{:?}", other),
    }
}

#[test]
fn request_html_replaces_build_html() {
    let mut f = features("both");
    f.uses_build_state = true;
    f.uses_request_state = true;
    f.revalidates_with_logic = true;
    let (mut job, a) = ServeJob::new(p("b"), f, false);
    assert!(matches!(a, ServeAction::ShouldRevalidate));
    let a = job.step(ServeEvent::Decision(Ok(false)));
    assert_eq!(read_name(&a), "../app/dist/static/b.html");
    job.step(ServeEvent::Read(Ok(p("<p>build</p>"))));
    let a = job.step(ServeEvent::Read(Ok(p("{\"b\":1}"))));
    assert!(matches!(a, ServeAction::GenerateRequestState { ref path } if path == "b"));
    job.step(ServeEvent::State(Ok(p("{\"r\":1}"))));
    let a = job.step(ServeEvent::Rendered(p("<p>request</p>")));
    match a {
        ServeAction::Done { content, state } => {
            assert_eq!(content, "<p>request</p>");
            assert_eq!(state, Some(p("{\"r\":1}")));
        }
        other => panic!("{:?}", other),
    }
}

#[test]
fn amalgamation_settles_the_state() {
    let mut f = features("both");
    f.uses_build_state = true;
    f.uses_request_state = true;
    f.can_amalgamate_states = true;
    let (mut job, _) = ServeJob::new(p("b"), f, false);
    job.step(ServeEvent::Read(Ok(p("<p>build</p>"))));
    job.step(ServeEvent::Read(Ok(p("{\"b\":1}"))));
    job.step(ServeEvent::State(Ok(p("{\"r\":1}"))));
    let a = job.step(ServeEvent::Rendered(p("<p>request</p>")));
    assert!(matches!(a, ServeAction::AmalgamateStates { .. }));
    let a = job.step(ServeEvent::Amalgamated(Ok(Some(p("{\"b\":1,\"r\":1}")))));
    match a {
        ServeAction::Done { content, state } => {
            assert_eq!(content, "<p>request</p>");
            assert_eq!(state, Some(p("{\"b\":1,\"r\":1}")));
        }
        other => panic!("{:?}", other),
    }
}
