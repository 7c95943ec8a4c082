use session_auth::result::{error_status_code, AppError, Status};

fn all_errors() -> Vec<AppError> {
    vec![
        AppError::IoError,
        AppError::NotImplemented,
        AppError::JsonEncoderError,
        AppError::JsonDecoderError,
        AppError::InvalidUsernameOrPassword,
        AppError::PersistenceError,
        AppError::NoSessionLoaded,
    ]
}

#[test]
fn every_error_is_a_server_error_on_the_error_channel() {
    for e in all_errors() {
        assert_eq!(error_status_code(&e), Status::InternalServerError);
        assert_eq!(error_status_code(&e).code(), 500);
    }
}

#[test]
fn status_codes() {
    assert_eq!(Status::Success.code(), 200);
    assert_eq!(Status::Forbidden.code(), 403);
    assert_eq!(Status::NotFound.code(), 404);
    assert_eq!(Status::InternalServerError.code(), 500);
}

#[test]
fn error_descriptions() {
    assert_eq!(AppError::IoError.description(), "io error");
    assert_eq!(AppError::NotImplemented.description(), "not implemented");
    assert_eq!(AppError::JsonEncoderError.description(), "error encoding json");
    assert_eq!(AppError::JsonDecoderError.description(), "error decoding json");
    assert_eq!(
        AppError::InvalidUsernameOrPassword.description(),
        "invalid username or password"
    );
    assert_eq!(AppError::PersistenceError.description(), "error persisting state");
    assert_eq!(
        AppError::NoSessionLoaded.description(),
        "server session middleware not available"
    );
}

#[test]
fn error_descriptions_do_not_name_username_or_password_alone() {
    let text = AppError::InvalidUsernameOrPassword.description();
    assert!(text.contains("username") && text.contains("password"));
}
