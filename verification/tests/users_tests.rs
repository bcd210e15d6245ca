use axum_otel_demo::config::AppConfig;
use axum_otel_demo::dto::CreateUserRequest;
use axum_otel_demo::dto::UpdateUserRequest;
use axum_otel_demo::dto::User;
use axum_otel_demo::dto::UserRecord;
use axum_otel_demo::dto::UserResponse;
use axum_otel_demo::error::AppError;
use axum_otel_demo::response::ApiResponse;
use axum_otel_demo::text::i32_to_string;
use axum_otel_demo::text::u64_to_string;
use axum_otel_demo::users::UserService;

fn record(id: i32, username: &str, email: &str) -> UserRecord {
    UserRecord { id, username: username.to_owned(), email: email.to_owned() }
}

fn validation_message(r: Result<impl Sized, AppError>) -> String {
    match r {
        Err(AppError::Validation(m)) => m,
        _ => panic!("expected a validation error"),
    }
}

#[test]
fn create_user_accepts_a_valid_request() {
    let req = CreateUserRequest {
        username: "alice".to_owned(),
        email: "a@example.com".to_owned(),
    };
    let nu = UserService::create_user(req, false).unwrap();
    assert_eq!(nu.username, "alice");
    assert_eq!(nu.email, "a@example.com");
}

#[test]
fn create_user_rejects_blank_username_first() {
    let req = CreateUserRequest { username: "   ".to_owned(), email: String::new() };
    let m = validation_message(UserService::create_user(req, true));
    assert_eq!(m, "Username cannot be empty");
}

#[test]
fn create_user_rejects_blank_email_second() {
    let req = CreateUserRequest { username: "alice".to_owned(), email: "\t\n".to_owned() };
    let m = validation_message(UserService::create_user(req, true));
    assert_eq!(m, "Email cannot be empty");
}

#[test]
fn create_user_rejects_taken_username_last() {
    let req = CreateUserRequest {
        username: "alice".to_owned(),
        email: "a@example.com".to_owned(),
    };
    let m = validation_message(UserService::create_user(req, true));
    assert_eq!(m, "Username 'alice' already exists");
}

#[test]
fn get_user_maps_the_found_row() {
    let r = UserService::get_user(7, Some(record(7, "bob", "b@example.com"))).unwrap();
    assert_eq!(r.id, 7);
    assert_eq!(r.username, "bob");
    assert_eq!(r.email, "b@example.com");
}

#[test]
fn get_user_reports_the_missing_id() {
    match UserService::get_user(7, None) {
        Err(AppError::NotFound(m)) => assert_eq!(m, "User with id 7 not found"),
        _ => panic!("expected not-found"),
    }
}

#[test]
fn update_user_needs_an_existing_row() {
    let req = UpdateUserRequest { username: None, email: None };
    match UserService::update_user(-3, req, None, false) {
        Err(AppError::NotFound(m)) => assert_eq!(m, "User with id -3 not found"),
        _ => panic!("expected not-found"),
    }
}

#[test]
fn update_user_keeps_absent_fields() {
    let req = UpdateUserRequest { username: None, email: None };
    let rec = UserService::update_user(1, req, Some(record(1, "bob", "b@x.com")), false).unwrap();
    assert_eq!(rec.id, 1);
    assert_eq!(rec.username, "bob");
    assert_eq!(rec.email, "b@x.com");
}

#[test]
fn update_user_replaces_requested_fields() {
    let req = UpdateUserRequest {
        username: Some("carol".to_owned()),
        email: Some("c@x.com".to_owned()),
    };
    let rec = UserService::update_user(1, req, Some(record(1, "bob", "b@x.com")), false).unwrap();
    assert_eq!(rec.username, "carol");
    assert_eq!(rec.email, "c@x.com");
}

#[test]
fn update_user_allows_keeping_ones_own_username() {
    // the name is "taken" — by this very row — so the update must pass
    let req = UpdateUserRequest { username: Some("bob".to_owned()), email: None };
    let rec = UserService::update_user(1, req, Some(record(1, "bob", "b@x.com")), true).unwrap();
    assert_eq!(rec.username, "bob");
}

#[test]
fn update_user_rejects_a_taken_new_username() {
    let req = UpdateUserRequest { username: Some("carol".to_owned()), email: None };
    let m = validation_message(UserService::update_user(
        1,
        req,
        Some(record(1, "bob", "b@x.com")),
        true,
    ));
    assert_eq!(m, "Username 'carol' already exists");
}

#[test]
fn update_user_rejects_a_blank_username() {
    let req = UpdateUserRequest { username: Some(" ".to_owned()), email: None };
    let m = validation_message(UserService::update_user(
        1,
        req,
        Some(record(1, "bob", "b@x.com")),
        false,
    ));
    assert_eq!(m, "Username cannot be empty");
}

#[test]
fn delete_user_goes_by_rows_affected() {
    assert!(UserService::delete_user(4, 1).is_ok());
    match UserService::delete_user(4, 0) {
        Err(AppError::NotFound(m)) => assert_eq!(m, "User with id 4 not found"),
        _ => panic!("expected not-found"),
    }
}

#[test]
fn list_users_maps_every_row_in_order() {
    let rows = vec![record(1, "a", "a@x.com"), record(2, "b", "b@x.com")];
    let out = UserService::list_users(rows);
    assert_eq!(out.len(), 2);
    assert_eq!(out[0].id, 1);
    assert_eq!(out[0].username, "a");
    assert_eq!(out[1].id, 2);
    assert_eq!(out[1].email, "b@x.com");
}

#[test]
fn decimal_formatting_is_exact() {
    assert_eq!(u64_to_string(0), "0");
    assert_eq!(u64_to_string(407), "407");
    assert_eq!(u64_to_string(u64::MAX), "18446744073709551615");
    assert_eq!(i32_to_string(0), "0");
    assert_eq!(i32_to_string(-3), "-3");
    assert_eq!(i32_to_string(i32::MIN), "-2147483648");
    assert_eq!(i32_to_string(i32::MAX), "2147483647");
}

#[test]
fn config_falls_back_to_the_documented_defaults() {
    let c = AppConfig::from_values(None, None, None, None);
    assert_eq!(c.server_addr, "0.0.0.0:8000");
    assert_eq!(c.database_url, "sqlite:./demo.db?mode=rwc");
    assert_eq!(c.otel_endpoint, "http://localhost:4317");
    assert_eq!(c.pyroscope_endpoint, "http://localhost:4040");
}

#[test]
fn config_prefers_given_values() {
    let c = AppConfig::from_values(
        Some("127.0.0.1:1".to_owned()),
        Some("sqlite::memory:".to_owned()),
        Some("http://collector:4317".to_owned()),
        Some("http://profiler:4040".to_owned()),
    );
    assert_eq!(c.server_addr, "127.0.0.1:1");
    assert_eq!(c.database_url, "sqlite::memory:");
    assert_eq!(c.otel_endpoint, "http://collector:4317");
    assert_eq!(c.pyroscope_endpoint, "http://profiler:4040");
}

#[test]
fn api_response_shapes() {
    let ok = ApiResponse::success(UserResponse {
        id: 1,
        username: "a".to_owned(),
        email: "a@x.com".to_owned(),
    });
    assert_eq!(ok.code, 0);
    assert_eq!(ok.msg, "");
    assert_eq!(ok.data.unwrap().id, 1);

    let empty = ApiResponse::success_empty();
    assert_eq!(empty.code, 0);
    assert!(empty.data.is_none());

    let err = ApiResponse::error(404, "missing".to_owned());
    assert_eq!(err.code, 404);
    assert_eq!(err.msg, "missing");
    assert!(err.data.is_none());
}

#[test]
fn error_response_parts_per_variant() {
    assert_eq!(
        AppError::NotFound("x".to_owned()).response_parts(),
        (404, 404, "x".to_owned())
    );
    assert_eq!(
        AppError::Validation("bad".to_owned()).response_parts(),
        (400, 400, "bad".to_owned())
    );
    assert_eq!(
        AppError::Internal("boom".to_owned()).response_parts(),
        (500, 500, "boom".to_owned())
    );
    assert_eq!(
        AppError::from_database_message("no such table".to_owned()).response_parts(),
        (500, 500, "Internal server error".to_owned())
    );
}

#[test]
fn user_new_keeps_its_fields() {
    let u = User::new(1111, "alice".to_owned());
    assert_eq!(u.id, 1111);
    assert_eq!(u.username, "alice");
}
