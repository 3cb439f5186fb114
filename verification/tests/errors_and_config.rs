use inner_shelter::client::{ApiClient, AuthService, User};
use inner_shelter::config::Config;
use inner_shelter::entities::MoveCommand;
use inner_shelter::errors::AppError;
use inner_shelter::text::{owned, same_text};

#[test]
fn each_error_has_its_status_code() {
    assert_eq!(AppError::DbError("x".to_string()).status_code(), 500);
    assert_eq!(AppError::AuthError("x".to_string()).status_code(), 401);
    assert_eq!(AppError::ValidationError("x".to_string()).status_code(), 400);
    assert_eq!(AppError::InternalError.status_code(), 500);
}

#[test]
fn only_a_validation_error_shows_its_message_in_the_body() {
    assert_eq!(AppError::DbError("host down".to_string()).response_body(), "Database error");
    assert_eq!(AppError::AuthError("bad".to_string()).response_body(), "Authentication failed");
    assert_eq!(AppError::ValidationError("Invalid action".to_string()).response_body(), "Invalid action");
    assert_eq!(AppError::InternalError.response_body(), "Internal server error");
}

#[test]
fn the_message_of_an_error_holds_its_detail() {
    assert_eq!(AppError::DbError("host down".to_string()).message(), "Database error: host down");
    assert_eq!(AppError::AuthError("bad".to_string()).message(), "Authentication error: bad");
    assert_eq!(AppError::ValidationError("no".to_string()).message(), "Invalid input: no");
    assert_eq!(AppError::InternalError.message(), "Internal server error");
    assert_eq!(AppError::DbError(String::new()).message(), "Database error: ");
}

#[test]
fn a_copy_of_an_error_is_the_same_error() {
    match AppError::DbError("d".to_string()).duplicate() {
        AppError::DbError(m) => assert_eq!(m, "d"),
        other => panic!("unexpected error: {:?}", other),
    }
    match AppError::AuthError("a".to_string()).duplicate() {
        AppError::AuthError(m) => assert_eq!(m, "a"),
        other => panic!("unexpected error: {:?}", other),
    }
    match AppError::ValidationError("v".to_string()).duplicate() {
        AppError::ValidationError(m) => assert_eq!(m, "v"),
        other => panic!("unexpected error: {:?}", other),
    }
    assert!(matches!(AppError::InternalError.duplicate(), AppError::InternalError));
}

#[test]
fn settings_that_are_not_set_take_their_defaults() {
    let config = Config::new(None, None, None);
    assert_eq!(config.jwt_secret, "my_secret_key");
    assert_eq!(config.db_url, "127.0.0.1:9042");
    assert_eq!(config.redis_url, "redis://127.0.0.1/");
}

#[test]
fn settings_that_are_set_are_kept() {
    let config = Config::new(Some("s".to_string()), None, Some("redis://cache:6379/".to_string()));
    assert_eq!(config.jwt_secret, "s");
    assert_eq!(config.db_url, "127.0.0.1:9042");
    assert_eq!(config.redis_url, "redis://cache:6379/");
    let config = Config::new(None, Some("db:9042".to_string()), None);
    assert_eq!(config.jwt_secret, "my_secret_key");
    assert_eq!(config.db_url, "db:9042");
    let copy = config.clone();
    assert_eq!(copy.db_url, "db:9042");
}

#[test]
fn a_new_user_holds_no_token() {
    let user = User::new("alice".to_string());
    assert_eq!(user.username, "alice");
    assert!(user.token.is_none());
    assert!(!user.is_logged_in());
    let user = User::logged_in("alice".to_string(), "t".to_string());
    assert_eq!(user.token, Some("t".to_string()));
    assert!(user.is_logged_in());
}

#[test]
fn requests_go_below_the_base_url() {
    let api = ApiClient::new("http://localhost:8080".to_string());
    assert_eq!(api.login_url(), "http://localhost:8080/login");
    assert_eq!(api.register_url(), "http://localhost:8080/register");
    let auth = AuthService::new(api);
    assert_eq!(auth.login_url(), "http://localhost:8080/login");
    assert_eq!(auth.register_url(), "http://localhost:8080/register");
    let bare = ApiClient::new(String::new());
    assert_eq!(bare.login_url(), "/login");
}

#[test]
fn a_new_command_is_a_move() {
    let cmd = MoveCommand::new(3, -4);
    assert_eq!(cmd.action, "move");
    assert_eq!((cmd.dx, cmd.dy), (3, -4));
    assert!(cmd.is_move());
}

#[test]
fn texts_are_compared_by_their_characters() {
    assert!(same_text("", ""));
    assert!(same_text("move", "move"));
    assert!(!same_text("move", "Move"));
    assert!(!same_text("move", "mov"));
    assert!(same_text("héllo", "héllo"));
    assert_eq!(owned("abc"), "abc");
}
