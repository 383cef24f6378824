use identity_service::error::{LocalErr, LocalErrKind};

#[test]
fn new_error_has_no_message() {
    let err = LocalErr::new(LocalErrKind::NotFound, 404);
    assert_eq!(err.error, LocalErrKind::NotFound);
    assert_eq!(err.code, 404);
    assert_eq!(err.msg, None);
    assert_eq!(err.detail, None);
}

#[test]
fn internal_error_keeps_its_detail_out_of_the_response() {
    let err = LocalErr::internal(String::from("signing failed: \"key\""));
    assert_eq!(err.error, LocalErrKind::Code500);
    assert_eq!(err.code, 500);
    assert_eq!(err.msg, None);
    assert_eq!(err.detail.as_deref(), Some("signing failed: \"key\""));
    assert_eq!(err.response_body(), "{\"error\":\"Code500\"}");
    let shown = err.with_msg(String::from("try later"));
    assert_eq!(shown.detail.as_deref(), Some("signing failed: \"key\""));
    assert_eq!(shown.response_body(), "{\"error\":\"Code500\",\"msg\":\"try later\"}");
}

#[test]
fn with_msg_sets_only_the_message() {
    let err = LocalErr::new(LocalErrKind::JsonRejection, 400).with_msg(String::from("expected a map"));
    assert_eq!(err.error, LocalErrKind::JsonRejection);
    assert_eq!(err.code, 400);
    assert_eq!(err.msg.as_deref(), Some("expected a map"));
    let again = err.with_msg(String::from("second"));
    assert_eq!(again.msg.as_deref(), Some("second"));
}

#[test]
fn rejection_is_a_bad_request_with_text() {
    let err = LocalErr::rejection(LocalErrKind::PathRejection, String::from("bad path"));
    assert_eq!(err.error, LocalErrKind::PathRejection);
    assert_eq!(err.code, 400);
    assert_eq!(err.msg.as_deref(), Some("bad path"));
}

#[test]
fn storage_failure_is_code_500() {
    let err = LocalErr::storage_failure();
    assert_eq!(err.error, LocalErrKind::Code500);
    assert_eq!(err.code, 500);
    assert!(err.msg.is_none());
}

#[test]
fn status_table() {
    assert_eq!(LocalErrKind::UserAlredyExists.status(), Some(400));
    assert_eq!(LocalErrKind::NotFound.status(), Some(404));
    assert_eq!(LocalErrKind::Unauthorized.status(), Some(401));
    assert_eq!(LocalErrKind::Code500.status(), Some(500));
    assert_eq!(LocalErrKind::JsonRejection.status(), Some(400));
    assert_eq!(LocalErrKind::QueryRejection.status(), Some(400));
    assert_eq!(LocalErrKind::BytesRejection.status(), Some(400));
    assert_eq!(LocalErrKind::PathRejection.status(), Some(400));
    assert_eq!(LocalErrKind::MultipartRejection.status(), Some(400));
    assert_eq!(LocalErrKind::VideoNotFound.status(), None);
    assert_eq!(LocalErrKind::VersionMismatch.status(), None);
}

#[test]
fn kind_names_are_the_variant_names() {
    assert_eq!(LocalErrKind::UserAlredyExists.name(), "UserAlredyExists");
    assert_eq!(LocalErrKind::Unauthorized.name(), "Unauthorized");
    assert_eq!(LocalErrKind::NotFound.name(), "NotFound");
    assert_eq!(LocalErrKind::Code500.name(), "Code500");
    assert_eq!(LocalErrKind::WebSocketUpgradeRejection.name(), "WebSocketUpgradeRejection");
    assert_eq!(LocalErrKind::VideoResolutionTooLow.name(), "VideoResolutionTooLow");
    assert_eq!(format!("{:?}", LocalErrKind::StoreImage), LocalErrKind::StoreImage.name());
}

#[test]
fn response_body_without_message() {
    let err = LocalErr::new(LocalErrKind::Unauthorized, 401);
    assert_eq!(err.response_body(), "{\"error\":\"Unauthorized\"}");
}

#[test]
fn response_body_with_message_is_escaped() {
    let err = LocalErr::rejection(LocalErrKind::JsonRejection, String::from("expected \"email\"\nat line 2"));
    assert_eq!(
        err.response_body(),
        "{\"error\":\"JsonRejection\",\"msg\":\"expected \\\"email\\\"\\nat line 2\"}"
    );
    let parsed: serde_json::Value = serde_json::from_str(&err.response_body()).unwrap();
    assert_eq!(parsed.get("error").and_then(serde_json::Value::as_str), Some("JsonRejection"));
    assert_eq!(parsed.get("msg").and_then(serde_json::Value::as_str), Some("expected \"email\"\nat line 2"));
}

#[test]
fn error_body_from_parts() {
    assert_eq!(identity_service::error::error_body("\"NotFound\"", None), "{\"error\":\"NotFound\"}");
    assert_eq!(
        identity_service::error::error_body("\"Code500\"", Some("\"x\"")),
        "{\"error\":\"Code500\",\"msg\":\"x\"}"
    );
}
