use perseus::server::html_shell::{escape_page_data, HtmlShell, PageData};
use perseus::server::path::get_path_slice;
use std::collections::HashMap;

fn shell() -> HtmlShell {
    HtmlShell::new_with_render_cfg(
        "<html><head></head><body><div id=\"root\"></div></body></html>".to_string(),
        "root",
        "{}",
        "/app",
        false,
        false,
        None,
        None,
    )
}

#[test]
fn escapes_backslashes_backticks_and_interpolations() {
    assert_eq!(escape_page_data("a\\b`c${d}"), "a\\\\b\\`c\\${d}");
    assert_eq!(escape_page_data("plain text"), "plain text");
    assert_eq!(escape_page_data("$x {y}"), "$x {y}");
}

#[test]
fn new_shell_has_render_cfg_loader_and_base() {
    let s = shell();
    assert_eq!(s.scripts_before_boundary.len(), 2);
    assert_eq!(s.scripts_before_boundary[0], "window.__PERSEUS_RENDER_CFG = '{}';");
    assert!(s.scripts_before_boundary[1].contains("from \"/app/.perseus/bundle.js\""));
    assert!(s.scripts_before_boundary[1].contains("await init(\"/app/.perseus/bundle.wasm\");"));
    assert_eq!(s.head_before_boundary, vec!["<base href=\"/app/\" />".to_string()]);
    assert!(s.head_after_boundary.is_empty());
    assert_eq!(s.content, "");
}

#[test]
fn new_shell_with_testing_and_reload_server() {
    let s = HtmlShell::new_with_render_cfg(
        String::new(),
        "root",
        "{}",
        "",
        true,
        true,
        None,
        Some("9000".to_string()),
    );
    assert_eq!(s.scripts_before_boundary.len(), 5);
    assert_eq!(s.scripts_before_boundary[1], "window.__PERSEUS_TESTING = true;");
    assert_eq!(s.scripts_before_boundary[3], "window.__PERSEUS_RELOAD_SERVER_HOST = 'localhost'");
    assert_eq!(s.scripts_before_boundary[4], "window.__PERSEUS_RELOAD_SERVER_PORT = '9000'");
}

#[test]
fn new_shell_serializes_render_cfg() {
    let mut cfg = HashMap::new();
    cfg.insert("about".to_string(), "about".to_string());
    let s = HtmlShell::new(String::new(), "root", &cfg, "", false, false, None, None);
    assert_eq!(s.scripts_before_boundary[0], "window.__PERSEUS_RENDER_CFG = '{\"about\":\"about\"}';");
}

#[test]
fn page_data_is_interpolated() {
    let data = PageData {
        content: "<p>hi</p>".to_string(),
        state: Some("{\"x\":\"`\"}".to_string()),
        head: "<title>t</title>".to_string(),
    };
    let s = shell().page_data(&data, &None);
    assert_eq!(
        s.scripts_after_boundary,
        vec!["window.__PERSEUS_INITIAL_STATE = `{\"x\":\"\\`\"}`;".to_string()]
    );
    assert_eq!(s.scripts_before_boundary[2], "window.__PERSEUS_GLOBAL_STATE = `None`;");
    assert_eq!(s.head_after_boundary, vec!["<title>t</title>".to_string()]);
    assert_eq!(s.content, "<p>hi</p>");
}

#[test]
fn rendered_html_has_everything_in_place() {
    let data = PageData { content: "<p>hi</p>".to_string(), state: None, head: "<title>t</title>".to_string() };
    let mut s = HtmlShell::new_with_render_cfg(
        "<head></head><body><div id='root'></div></body>".to_string(),
        "root",
        "{}",
        "",
        false,
        false,
        None,
        None,
    );
    s.scripts_before_boundary.clear();
    let s = s.page_data(&data, &Some("g".to_string()));
    let html = s.to_html();
    let expected = format!(
        "<head><base href=\"/\" />\n            <script type=\"module\">window.__PERSEUS_GLOBAL_STATE = `g`;</script>\n            <!--PERSEUS_INTERPOLATED_HEAD_BEGINS-->\n            <title>t</title>\n            <script>window.__PERSEUS_INITIAL_STATE = `None`;</script>\n            </head><body>{}</body>",
        "<div id=\"root\"><div id=\"__perseus_content_initial\" class=\"__perseus_content\"><p>hi</p></div></div>"
    );
    assert_eq!(html, expected);
}

#[test]
fn locale_redirection_adds_fallbacks() {
    let s = shell().locale_redirection_fallback("/app/en-US/about");
    assert_eq!(s.head_after_boundary.len(), 1);
    assert!(s.head_after_boundary[0].starts_with("<noscript>"));
    assert!(s.head_after_boundary[0].contains("url=/app/en-US/about\" />"));
    assert!(s.scripts_after_boundary[0].contains("window.location.replace(\"/app/en-US/about\");"));
}

#[test]
fn error_page_marks_state_as_error() {
    let s = shell().error_page("{\"status\":404}", "<p>Not found</p>");
    assert_eq!(
        s.scripts_after_boundary,
        vec!["window.__PERSEUS_INITIAL_STATE = `error-{\"status\":404}`;".to_string()]
    );
    assert_eq!(s.content, "<p>Not found</p>");
}

#[test]
fn path_slices_drop_empty_components() {
    assert_eq!(get_path_slice("/a//b/c/"), vec!["a", "b", "c"]);
    assert_eq!(get_path_slice(""), Vec::<&str>::new());
    assert_eq!(get_path_slice("///"), Vec::<&str>::new());
    assert_eq!(get_path_slice("héllo/wörld"), vec!["héllo", "wörld"]);
}
