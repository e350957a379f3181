use perseus::errors::{ClientError, ClientInvariantError, ServerError, ServerErrorData};
use perseus::template::fn_types::{state_present, typed_state};
use perseus::template::widget_component::{request_widget_step, RequestWidgetStep, WidgetStateResult};

fn states() -> Vec<(String, WidgetStateResult)> {
    vec![
        ("en-US/greeting".to_string(), Ok(Some("{\"n\":1}".to_string()))),
        ("en-US/empty".to_string(), Ok(None)),
        (
            "en-US/broken".to_string(),
            Err(ServerErrorData { status: 500, msg: "boom".to_string() }),
        ),
        ("plain".to_string(), Ok(Some("1".to_string()))),
    ]
}

#[test]
fn request_widget_with_state_is_rendered() {
    assert_eq!(
        request_widget_step(&states(), "en-US", "greeting"),
        RequestWidgetStep::Render {
            full_path: "en-US/greeting".to_string(),
            state: Some("{\"n\":1}".to_string()),
        }
    );
    assert_eq!(
        request_widget_step(&states(), "en-US", "empty"),
        RequestWidgetStep::Render { full_path: "en-US/empty".to_string(), state: None }
    );
    assert_eq!(
        request_widget_step(&states(), "xx-XX", "plain"),
        RequestWidgetStep::Render { full_path: "plain".to_string(), state: Some("1".to_string()) }
    );
}

#[test]
fn request_widget_with_error_renders_the_error() {
    assert_eq!(
        request_widget_step(&states(), "en-US", "broken"),
        RequestWidgetStep::ErrorView(ClientError::ServerError {
            status: 500,
            message: "boom".to_string(),
        })
    );
}

#[test]
fn unknown_request_widget_is_unresolved() {
    assert_eq!(
        request_widget_step(&states(), "fr-FR", "greeting"),
        RequestWidgetStep::Unresolved { path: "greeting".to_string() }
    );
    assert_eq!(
        request_widget_step(&Vec::new(), "en-US", "x"),
        RequestWidgetStep::Unresolved { path: "x".to_string() }
    );
}

#[test]
fn state_for_head_and_headers_is_checked() {
    let some = Some("{}".to_string());
    assert_eq!(state_present(&some), Ok(&"{}".to_string()));
    assert_eq!(
        state_present(&None),
        Err(ServerError::ClientError(ClientError::InvariantError(ClientInvariantError::NoState)))
    );
    assert_eq!(typed_state::<u32>(Ok(4)), Ok(4));
    assert_eq!(
        typed_state::<u32>(Err("expected u32".to_string())),
        Err(ServerError::ClientError(ClientError::InvariantError(
            ClientInvariantError::InvalidState { source: "expected u32".to_string() }
        )))
    );
}
