use authcore::error::{ApiError, ApiErrorKind};

#[test]
fn error_kind_messages() {
    assert_eq!(ApiErrorKind::InternalServerError.message(), "Internal server error");
    assert_eq!(ApiErrorKind::EmailAlreadyInUse.message(), "Email is already in use");
    assert_eq!(ApiErrorKind::UsernameAlreadyInUse.message(), "Username is already in use");
    assert_eq!(ApiErrorKind::InvalidCredentials.message(), "Invalid email or password");
    assert_eq!(ApiErrorKind::InvalidSession.message(), "Session expired or invalid");
}

#[test]
fn error_kind_status_codes() {
    assert_eq!(ApiErrorKind::InternalServerError.to_status_code(), 500);
    assert_eq!(ApiErrorKind::EmailAlreadyInUse.to_status_code(), 409);
    assert_eq!(ApiErrorKind::UsernameAlreadyInUse.to_status_code(), 409);
    assert_eq!(ApiErrorKind::InvalidCredentials.to_status_code(), 401);
    assert_eq!(ApiErrorKind::InvalidSession.to_status_code(), 401);
}

#[test]
fn api_error_new_carries_code_and_message() {
    let e = ApiError::new(ApiErrorKind::EmailAlreadyInUse);
    assert_eq!(e.code, 409);
    assert_eq!(e.message, "Email is already in use");
    let e = ApiError::new(ApiErrorKind::InternalServerError);
    assert_eq!(e.code, 500);
    assert_eq!(e.message, "Internal server error");
}

#[test]
fn error_kinds_compare() {
    assert_eq!(ApiErrorKind::InvalidSession, ApiErrorKind::InvalidSession);
    assert_ne!(ApiErrorKind::InvalidSession, ApiErrorKind::InvalidCredentials);
}

#[test]
fn api_error_describes_itself() {
    let e = ApiError::new(ApiErrorKind::InvalidSession);
    assert_eq!(
        e.describe(),
        "ApiError { code: 401, message: Session expired or invalid }"
    );
}
