use perseus::errors::{ClientError, FetchError, ServerError, StoreError};
use perseus::shell::fetch_response;
use perseus::server::render::TemplateFeatures;
use perseus::state::live_reload::reload_server_url;
use perseus::template::widget_component::{
    engine_widget_start, engine_widget_state, widget_path, EngineWidgetStep,
};

fn capsule() -> TemplateFeatures {
    TemplateFeatures {
        path: "greeting".to_string(),
        uses_build_state: true,
        uses_build_paths: false,
        uses_incremental: false,
        revalidates_with_time: false,
        revalidates_with_logic: false,
        uses_request_state: false,
        can_amalgamate_states: false,
        is_capsule: true,
    }
}

#[test]
fn widget_paths_strip_one_slash_each_side() {
    assert_eq!(widget_path("greeting", "/en/"), "greeting/en");
    assert_eq!(widget_path("greeting", "//x//"), "greeting//x/");
    assert_eq!(widget_path("greeting", ""), "greeting/");
    assert_eq!(widget_path("greeting", "/"), "greeting/");
}

#[test]
fn stopped_render_renders_nothing() {
    let c = capsule();
    let step = engine_widget_start(false, Some("greeting".to_string()), &c, "en-US", "greeting/a");
    assert!(matches!(step, EngineWidgetStep::Nothing));
}

#[test]
fn unknown_or_dynamic_widgets_cancel_the_build_render() {
    let c = capsule();
    assert!(matches!(
        engine_widget_start(true, None, &c, "en-US", "greeting/a"),
        EngineWidgetStep::Cancel
    ));
    let mut r = capsule();
    r.uses_request_state = true;
    assert!(matches!(
        engine_widget_start(true, Some("greeting".to_string()), &r, "en-US", "greeting/a"),
        EngineWidgetStep::Cancel
    ));
    let mut v = capsule();
    v.revalidates_with_time = true;
    assert!(matches!(
        engine_widget_start(true, Some("greeting".to_string()), &v, "en-US", "greeting/a"),
        EngineWidgetStep::Cancel
    ));
}

#[test]
fn static_widget_state_is_read_and_rendered() {
    let c = capsule();
    match engine_widget_start(true, Some("greeting".to_string()), &c, "en-US", "greeting/a b") {
        EngineWidgetStep::ReadState { name } => {
            assert_eq!(name, "static/en-US-greeting%2Fa%20b.json")
        }
        other => panic!("{:?}", other),
    }
    match engine_widget_state(
        Ok("{ \"x\" : 1 }".to_string()),
        "greeting".to_string(),
        "en-US",
        "greeting/a",
    ) {
        EngineWidgetStep::Render { path_with_locale, capsule_name, state } => {
            assert_eq!(path_with_locale, "en-US/greeting/a");
            assert_eq!(capsule_name, "greeting");
            assert_eq!(state, Some("{\"x\":1}".to_string()));
        }
        other => panic!("{:?}", other),
    }
    match engine_widget_state(Ok("null".to_string()), "greeting".to_string(), "xx-XX", "greeting/a") {
        EngineWidgetStep::Render { path_with_locale, state, .. } => {
            assert_eq!(path_with_locale, "greeting/a");
            assert_eq!(state, None);
        }
        other => panic!("{:?}", other),
    }
}

#[test]
fn widget_state_failures_fail_the_render() {
    let err = StoreError::NotFound { name: "x".to_string() };
    assert!(matches!(
        engine_widget_state(Err(err), "g".to_string(), "en-US", "g/a"),
        EngineWidgetStep::Fail(ServerError::StoreError(StoreError::NotFound { .. }))
    ));
    assert!(matches!(
        engine_widget_state(Ok("{".to_string()), "g".to_string(), "en-US", "g/a"),
        EngineWidgetStep::Fail(ServerError::InvalidPageState { .. })
    ));
}

#[test]
fn reload_server_address_needs_host_and_port() {
    assert_eq!(
        reload_server_url(Some("localhost".to_string()), Some("3100".to_string())),
        Some("ws://localhost:3100/receive".to_string())
    );
    assert_eq!(reload_server_url(Some("localhost".to_string()), None), None);
    assert_eq!(reload_server_url(None, Some("3100".to_string())), None);
}

#[test]
fn fetch_responses_are_classified() {
    assert_eq!(fetch_response("/a", 404, Some("gone".to_string())), Ok(None));
    assert_eq!(fetch_response("/a", 404, None), Ok(None));
    assert_eq!(
        fetch_response("/a", 200, Some("body".to_string())),
        Ok(Some("body".to_string()))
    );
    assert_eq!(
        fetch_response("/a", 200, None),
        Err(ClientError::FetchError(FetchError::NotString { url: "/a".to_string() }))
    );
    assert_eq!(
        fetch_response("/a", 500, Some("boom".to_string())),
        Err(ClientError::FetchError(FetchError::NotOk {
            url: "/a".to_string(),
            status: 500,
            err: "boom".to_string()
        }))
    );
}

#[test]
fn template_paths_follow_the_name() {
    let mut t = capsule();
    assert_eq!(t.get_path(), "__capsule/greeting");
    t.is_capsule = false;
    assert_eq!(t.get_path(), "greeting");
    t.path = "index".to_string();
    assert_eq!(t.get_path(), "");
    t.is_capsule = true;
    assert_eq!(t.get_path(), "__capsule/");
    assert!(t.uses_build_state());
    assert!(!t.uses_build_paths() && !t.uses_incremental() && !t.uses_request_state());
    assert!(!t.revalidates_with_time() && !t.revalidates_with_logic() && !t.can_amalgamate_states());
    assert!(!t.revalidates() && !t.is_basic());
}

#[test]
fn widget_state_names_encode_utf8_bytes() {
    let c = capsule();
    match engine_widget_start(true, Some("x".to_string()), &c, "fr-FR", "é~_.-Z9😀") {
        EngineWidgetStep::ReadState { name } => {
            assert_eq!(name, "static/fr-FR-%C3%A9~_.-Z9%F0%9F%98%80.json")
        }
        other => panic!("{:?}", other),
    }
}
