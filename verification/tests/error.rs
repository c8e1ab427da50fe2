use rift::error::AppError;

#[test]
fn app_error_envelopes() {
    let e = AppError::NotFound("link".to_string());
    assert_eq!(e.message(), "Not found: link");
    let (status, body) = e.to_response();
    assert_eq!(status, 404);
    assert_eq!(body.error, "Not found: link");
    assert_eq!(body.code, "not_found");
    assert_eq!(AppError::BadRequest("x".to_string()).status_code(), 400);
    assert_eq!(AppError::NotImplemented("x".to_string()).code(), "not_implemented");
    let (s, b) = AppError::Internal("db".to_string()).to_response();
    assert_eq!((s, b.code.as_str(), b.error.as_str()), (500, "internal_error", "Internal server error: db"));
}
