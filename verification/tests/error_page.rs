use perseus::server::build_error_page::build_error_page;

#[test]
fn error_page_is_interpolated_with_hydration_data() {
    let html = "<html><head></head><body><div id=\"root\"></div></body></html>";
    let page = build_error_page("/x", 404, "not found", "<p>404</p>", html, "root");
    assert_eq!(
        page,
        "<html><head><script>window.__PERSEUS_INITIAL_STATE = `error-{\"url\":\"/x\",\"status\":404,\"err\":\"not found\"}`;</script>\n</head><body><div id=\"root\"><div id=\"__perseus_content_initial\" class=\"__perseus_content\"><p>404</p></div></div></body></html>"
    );
}

#[test]
fn error_page_escapes_and_handles_single_quotes() {
    let html = "<head></head><div id='app'></div>";
    let page = build_error_page("/a`b", 500, "bad \\ ${x}", "E", html, "app");
    assert_eq!(
        page,
        "<head><script>window.__PERSEUS_INITIAL_STATE = `error-{\"url\":\"/a\\`b\",\"status\":500,\"err\":\"bad \\\\\\\\ \\${x}\"}`;</script>\n</head><div id=\"app\"><div id=\"__perseus_content_initial\" class=\"__perseus_content\">E</div></div>"
    );
}

#[test]
fn status_codes_are_written_in_decimal() {
    let page = build_error_page("", 0, "", "", "</head>", "r");
    assert!(page.contains("\"status\":0,"));
    let page = build_error_page("", 65535, "", "", "</head>", "r");
    assert!(page.contains("\"status\":65535,"));
}

#[test]
fn control_characters_and_quotes_are_escaped_in_the_data() {
    let page = build_error_page("/é", 500, "a\nb\u{1}\"\t", "", "</head>", "r");
    assert!(page.contains(r#"{"url":"/é","status":500,"err":"a\\nb\\u0001\\"\\t"}"#));
}
