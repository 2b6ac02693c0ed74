use personal_api::server::{
    handle_error, hello, not_found, ErrorResponse, BAD_REQUEST, INTERNAL_SERVER_ERROR, NOT_FOUND,
    OK, REQUEST_TIMEOUT,
};

#[test]
fn hello_greets_by_name() {
    assert_eq!(hello("world"), "Hello, world!");
    assert_eq!(hello(""), "Hello, !");
}

#[test]
fn not_found_names_the_status() {
    let (status, body) = not_found();
    assert_eq!(status, 404);
    assert_eq!(body.status, 404);
    assert_eq!(body.reason, "Not Found");
}

#[test]
fn error_response_for_the_common_statuses() {
    assert_eq!(ErrorResponse::new(400).reason, "Bad Request");
    assert_eq!(ErrorResponse::new(400).status, 400);
    assert_eq!(ErrorResponse::new(404).reason, "Not Found");
    assert_eq!(ErrorResponse::new(500).reason, "Internal Server Error");
    assert_eq!(ErrorResponse::new(500).status, 500);
}

#[test]
fn error_response_passes_other_statuses_through() {
    let unknown = ErrorResponse::new(599);
    assert_eq!(unknown.status, 599);
    assert_eq!(unknown.reason, "");
    let no_status = ErrorResponse::new(42);
    assert_eq!(no_status.status, 42);
    assert_eq!(no_status.reason, "");
    let teapot = ErrorResponse::new(418);
    assert_eq!(teapot.status, 418);
    assert_eq!(teapot.reason, "I'm a teapot");
}

#[test]
fn error_response_with_a_given_reason() {
    let given = ErrorResponse::with_reason(403, Some("Forbidden".to_string()));
    assert_eq!(given.status, 403);
    assert_eq!(given.reason, "Forbidden");
    let none = ErrorResponse::with_reason(403, None);
    assert_eq!(none.status, 403);
    assert_eq!(none.reason, "");
}

#[test]
fn handle_error_tells_a_timeout_from_the_rest() {
    assert_eq!(handle_error(true, "deadline has elapsed"), Ok(408));
    assert_eq!(
        handle_error(false, "boom"),
        Err((500, "Unhandled internal error: boom".to_string()))
    );
}

#[test]
fn server_statuses() {
    assert_eq!(OK, 200);
    assert_eq!(BAD_REQUEST, 400);
    assert_eq!(NOT_FOUND, 404);
    assert_eq!(REQUEST_TIMEOUT, 408);
    assert_eq!(INTERNAL_SERVER_ERROR, 500);
}
