use user_api::domain::dto::{Envelope, FieldErrors, HttpReply, ApiErrorResponse};
use user_api::domain::response_helpers::{
    error_response, map_app_error_to_response, success_response,
};
use user_api::errors::{database_errors, AppError};

fn failure(reply: HttpReply) -> ApiErrorResponse {
    match reply.body {
        Envelope::Failure(body) => body,
        Envelope::Success(_) => panic!("a success envelope where a failure was due"),
    }
}

fn name_errors() -> FieldErrors {
    let mut errors = FieldErrors::new();
    errors.add("username".to_string(), "Username cannot be empty".to_string());
    errors
}

#[test]
fn success_response_wraps_the_payload() {
    let response = success_response("User found", 17u8);
    assert_eq!(response.status, "success");
    assert_eq!(response.message, "User found");
    assert_eq!(response.data, Some(17u8));
}

#[test]
fn error_response_without_errors() {
    let response = error_response("User not found", None);
    assert_eq!(response.status, "error");
    assert_eq!(response.message, "User not found");
    assert!(response.errors.is_none());
}

#[test]
fn error_response_with_errors() {
    let response = error_response("Invalid input provided", Some(name_errors()));
    assert_eq!(response.status, "error");
    assert_eq!(response.message, "Invalid input provided");
    let errors = response.errors.expect("the messages by field");
    assert_eq!(errors.get("username"), Some(&vec!["Username cannot be empty".to_string()]));
}

#[test]
fn not_found_maps_to_404() {
    let reply = map_app_error_to_response(AppError::NotFound);
    assert_eq!(reply.status, 404);
    let body = failure(reply);
    assert_eq!(body.status, "error");
    assert_eq!(body.message, "User not found");
    assert!(body.errors.is_none());
}

#[test]
fn invalid_input_maps_to_400_with_its_mapping() {
    let reply = map_app_error_to_response(AppError::InvalidInput(name_errors()));
    assert_eq!(reply.status, 400);
    let body = failure(reply);
    assert_eq!(body.message, "Invalid input provided");
    let errors = body.errors.expect("the messages by field");
    assert_eq!(errors.entries().len(), 1);
    assert_eq!(errors.get("username"), Some(&vec!["Username cannot be empty".to_string()]));
}

#[test]
fn database_error_maps_to_500_with_the_diagnostic() {
    let reply = map_app_error_to_response(AppError::DatabaseError("duplicate key".to_string()));
    assert_eq!(reply.status, 500);
    let body = failure(reply);
    assert_eq!(body.message, "Database error occurred");
    let errors = body.errors.expect("the diagnostic");
    assert_eq!(errors.entries().len(), 1);
    assert_eq!(errors.get("database"), Some(&vec!["duplicate key".to_string()]));
}

#[test]
fn internal_server_error_maps_to_500_without_errors() {
    let reply = map_app_error_to_response(AppError::InternalServerError);
    assert_eq!(reply.status, 500);
    let body = failure(reply);
    assert_eq!(body.message, "Internal server error");
    assert!(body.errors.is_none());
}

#[test]
fn errors_describe_themselves() {
    assert_eq!(AppError::NotFound.to_string(), "User not found");
    assert_eq!(AppError::DatabaseError("boom".to_string()).to_string(), "Database Error: boom");
    assert_eq!(AppError::InternalServerError.to_string(), "Internal Server Error");
    assert_eq!(AppError::InvalidInput(FieldErrors::new()).to_string(), "Invalid Input");
}

#[test]
fn not_found_answers_for_itself() {
    let reply = AppError::NotFound.error_response();
    assert_eq!(reply.status, 404);
    let body = failure(reply);
    assert_eq!(body.status, "error");
    assert_eq!(body.message, "User not found");
    assert!(body.errors.is_none());
}

#[test]
fn database_error_answers_for_itself() {
    let reply = AppError::DatabaseError("timeout".to_string()).error_response();
    assert_eq!(reply.status, 500);
    let body = failure(reply);
    assert_eq!(body.message, "Database error occurred");
    assert_eq!(
        body.errors.expect("the diagnostic").get("database"),
        Some(&vec!["timeout".to_string()])
    );
}

#[test]
fn internal_server_error_answers_for_itself() {
    let reply = AppError::InternalServerError.error_response();
    assert_eq!(reply.status, 500);
    let body = failure(reply);
    assert_eq!(body.message, "Internal Server Error");
    assert!(body.errors.is_none());
}

#[test]
fn invalid_input_answers_for_itself() {
    let error = AppError::InvalidInput(name_errors());
    let reply = error.error_response();
    assert_eq!(reply.status, 400);
    let body = failure(reply);
    assert_eq!(body.message, "Invalid input provided");
    assert_eq!(
        body.errors.expect("the messages by field").get("username"),
        Some(&vec!["Username cannot be empty".to_string()])
    );
}

#[test]
fn cloned_error_holds_the_same() {
    let error = AppError::InvalidInput(name_errors());
    match error.clone() {
        AppError::InvalidInput(errors) => {
            assert_eq!(errors.get("username"), Some(&vec!["Username cannot be empty".to_string()]))
        },
        other => panic!("expected invalid input, got {:?}", other),
    }
    assert!(matches!(AppError::NotFound.clone(), AppError::NotFound));
    assert!(matches!(AppError::InternalServerError.clone(), AppError::InternalServerError));
    match AppError::DatabaseError("x".to_string()).clone() {
        AppError::DatabaseError(detail) => assert_eq!(detail, "x"),
        other => panic!("expected a database error, got {:?}", other),
    }
}

#[test]
fn database_errors_holds_one_diagnostic() {
    let errors = database_errors("disk full".to_string());
    assert_eq!(errors.entries().len(), 1);
    assert_eq!(errors.get("database"), Some(&vec!["disk full".to_string()]));
}

#[test]
fn field_errors_start_empty() {
    let errors = FieldErrors::new();
    assert!(errors.is_empty());
    assert!(!errors.contains_key("username"));
    assert_eq!(errors.get("username"), None);
    assert_eq!(errors.entries().len(), 0);
}

#[test]
fn field_errors_add_appends_under_the_field() {
    let mut errors = FieldErrors::new();
    errors.add("a".to_string(), "one".to_string());
    errors.add("b".to_string(), "two".to_string());
    errors.add("a".to_string(), "three".to_string());
    assert!(!errors.is_empty());
    assert_eq!(errors.entries().len(), 2);
    assert!(errors.contains_key("a"));
    assert!(errors.contains_key("b"));
    assert_eq!(errors.get("a"), Some(&vec!["one".to_string(), "three".to_string()]));
    assert_eq!(errors.get("b"), Some(&vec!["two".to_string()]));
    assert_eq!(errors.get("c"), None);
}

#[test]
fn field_errors_insert_replaces_the_field() {
    let mut errors = FieldErrors::new();
    errors.insert("a".to_string(), vec!["one".to_string()]);
    errors.insert("b".to_string(), vec!["two".to_string()]);
    errors.insert("a".to_string(), vec!["three".to_string(), "four".to_string()]);
    assert_eq!(errors.entries().len(), 2);
    assert_eq!(errors.get("a"), Some(&vec!["three".to_string(), "four".to_string()]));
    assert_eq!(errors.get("b"), Some(&vec!["two".to_string()]));
}

#[test]
fn field_errors_clone_holds_the_same() {
    let mut errors = FieldErrors::new();
    errors.add("a".to_string(), "one".to_string());
    errors.add("b".to_string(), "two".to_string());
    let copy = errors.clone();
    errors.add("a".to_string(), "later".to_string());
    assert_eq!(copy.entries().len(), 2);
    assert_eq!(copy.get("a"), Some(&vec!["one".to_string()]));
    assert_eq!(copy.get("b"), Some(&vec!["two".to_string()]));
}
