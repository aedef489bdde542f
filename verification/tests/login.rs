use zero2prod::routes::login::{AuthError, FormData, LoginError, QueryParams};

#[test]
fn an_authentication_failure_answers_with_401() {
    let error = LoginError::AuthError("wrong password".to_string());
    assert_eq!(error.status_code(), 401);
    assert_eq!(error.message(), "Authentication failed");
}

#[test]
fn an_unexpected_failure_answers_with_500() {
    let error = LoginError::UnexpectedError("db down".to_string());
    assert_eq!(error.status_code(), 500);
    assert_eq!(error.message(), "Something went wrong");
}

#[test]
fn a_failed_login_redirects_with_the_encoded_message() {
    let error = LoginError::AuthError("wrong password".to_string());
    assert_eq!(
        error.error_response_location(),
        "/login?error=Authentication%20failed"
    );
    let error = LoginError::UnexpectedError("db down".to_string());
    assert_eq!(
        error.error_response_location(),
        "/login?error=Something%20went%20wrong"
    );
}

#[test]
fn invalid_credentials_stay_an_authentication_failure() {
    let error = LoginError::from_auth_error(AuthError::InvalidCredentials("no such user".into()));
    assert_eq!(error.status_code(), 401);
    let error = LoginError::from_auth_error(AuthError::UnexpectedError("db down".into()));
    assert_eq!(error.status_code(), 500);
}

#[test]
fn the_login_payloads_carry_their_fields() {
    let query = QueryParams { error: Some("oops".to_string()) };
    assert_eq!(query.error.as_deref(), Some("oops"));
    let form = FormData {
        username: "admin".to_string(),
        password: "mail-api-token".to_string(),
    };
    assert_eq!(form.username, "admin");
}
