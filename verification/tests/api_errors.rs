use identity_service::errors::{ApiError, RegisterError};
use identity_service::models::ApiResponse;

fn response_of(err: &ApiError) -> ApiResponse<(), Vec<identity_service::errors::ErrorFieldDetail>> {
    ApiResponse { success: false, message: err.message(), data: None, error: Some(err.details()) }
}

#[test]
fn test_conflict_error_response() {
    let err = ApiError::Conflict("Item already exists".into());

    assert_eq!(err.status_code(), 409);
    let response = response_of(&err);

    assert_eq!(response.success, false);
    assert_eq!(response.message, "Conflict: Item already exists");
    assert!(response.data.is_none());
    assert_eq!(response.error.unwrap(), vec![]);
}

#[test]
fn test_validation_error_response() {
    let err = ApiError::ValidationError {
        message: "Invalid input".into(),
        field_errors: vec![
            ("username".into(), "Username is required".into()),
            ("email".into(), "Email is invalid".into()),
        ],
    };

    assert_eq!(err.status_code(), 422);
    let response = response_of(&err);

    assert_eq!(response.success, false);
    assert_eq!(response.message, "Validation error: Invalid input");
    assert!(response.data.is_none());

    let details = response.error.unwrap();
    assert_eq!(details.len(), 2);
    assert_eq!(details[0].field, "username");
    assert_eq!(details[0].message, "Username is required");
    assert_eq!(details[1].field, "email");
    assert_eq!(details[1].message, "Email is invalid");
}

#[test]
fn test_internal_server_error_response() {
    let err = ApiError::InternalServerError("Something went wrong".into());

    assert_eq!(err.status_code(), 500);
    let response = response_of(&err);

    assert_eq!(response.success, false);
    assert_eq!(response.message, "Internal server error: Something went wrong");
}

#[test]
fn test_bad_request_error_response() {
    let err = ApiError::BadRequest("Invalid query".into());

    assert_eq!(err.status_code(), 400);
    let response = response_of(&err);

    assert_eq!(response.success, false);
    assert_eq!(response.message, "Bad request: Invalid query");
}

#[test]
fn test_unauthorized_error_response() {
    let err = ApiError::Unauthorized("Login required".into());

    assert_eq!(err.status_code(), 401);
    let response = response_of(&err);

    assert_eq!(response.success, false);
    assert_eq!(response.message, "Unauthorized: Login required");
}

#[test]
fn register_error_statuses_and_messages() {
    let conflict = RegisterError::AccountAlreadyExists;
    assert_eq!(conflict.status_code(), 409);
    assert_eq!(conflict.message(), "Email or username is already registered");

    let invalid = RegisterError::InvalidInput("email is malformed".into());
    assert_eq!(invalid.status_code(), 400);
    assert_eq!(invalid.message(), "Invalid input: email is malformed");

    let internal = RegisterError::InternalServerError;
    assert_eq!(internal.status_code(), 500);
    assert_eq!(internal.message(), "Internal server error");
}
