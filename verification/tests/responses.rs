use team_players::utils::{AppErrorType, AppResponse};

#[test]
fn response_without_message_has_empty_message() {
    let r = AppResponse::new(5u8, None, 200, true);
    assert_eq!(r.data, 5);
    assert_eq!(r.message, "");
    assert_eq!(r.status, 200);
    assert!(r.success);
}

#[test]
fn response_with_message() {
    let r = AppResponse::new("d", Some("hello".to_string()), 201, false);
    assert_eq!(r.data, "d");
    assert_eq!(r.message, "hello");
    assert_eq!(r.status, 201);
    assert!(!r.success);
}

#[test]
fn not_found_error_shows_its_text() {
    let e = AppErrorType::NotFoundError("nothing here".to_string());
    assert_eq!(e.message(), "nothing here");
    assert_eq!(e.status_code(), 404);
    let body = e.error_response();
    assert_eq!(body.message, "nothing here");
    assert_eq!(body.status, 404);
    assert!(!body.success);
}

#[test]
fn db_error_hides_its_text() {
    let e = AppErrorType::DbError("connection reset".to_string());
    assert_eq!(e.message(), "An error occured");
    assert_eq!(e.status_code(), 500);
    let body = e.error_response();
    assert_eq!(body.message, "An error occured");
    assert_eq!(body.status, 500);
    assert!(!body.success);
}

#[test]
fn db_failure_becomes_not_found() {
    match AppErrorType::from_db_failure("timeout".to_string()) {
        AppErrorType::NotFoundError(t) => assert_eq!(t, "timeout"),
        AppErrorType::DbError(_) => panic!("a database failure is reported as not found"),
    }
}
