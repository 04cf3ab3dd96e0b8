use mns::db::{store_failure, StoreFailure, StoreStep};
use mns::error::AppError;

fn failure(step: StoreStep, cause: &str) -> StoreFailure {
    StoreFailure { step, cause: cause.to_string() }
}

fn database_message(e: AppError) -> String {
    match e {
        AppError::Database(m) => m,
        other => panic!("not a store error: {:?}", other),
    }
}

#[test]
fn status_of_each_class() {
    assert_eq!(AppError::NotFound("x".to_string()).status(), 404);
    assert_eq!(AppError::BadRequest("x".to_string()).status(), 400);
    assert_eq!(AppError::Conflict("x".to_string()).status(), 409);
    assert_eq!(AppError::Database("x".to_string()).status(), 503);
    assert_eq!(AppError::Internal("x".to_string()).status(), 500);
}

#[test]
fn internal_status_differs_from_user_errors() {
    let internal = AppError::Internal("x".to_string()).status();
    assert_ne!(internal, AppError::BadRequest("x".to_string()).status());
    assert_ne!(internal, AppError::NotFound("x".to_string()).status());
    assert_ne!(internal, AppError::Conflict("x".to_string()).status());
}

#[test]
fn description_names_class_and_message() {
    assert_eq!(AppError::NotFound("no alice".to_string()).to_string(), "Not Found: no alice");
    assert_eq!(AppError::BadRequest("no name".to_string()).to_string(), "Bad Request: no name");
    assert_eq!(AppError::Conflict("taken".to_string()).to_string(), "Conflict: taken");
    assert_eq!(AppError::Database("locked".to_string()).to_string(), "Database Error: locked");
    assert_eq!(
        AppError::Internal("sync".to_string()).to_string(),
        "Internal Server Error: sync"
    );
}

#[test]
fn description_of_empty_message_is_the_label() {
    assert_eq!(AppError::NotFound(String::new()).to_string(), "Not Found: ");
}

#[test]
fn message_is_the_carried_text() {
    assert_eq!(AppError::Conflict("taken".to_string()).message(), "taken");
    assert_eq!(AppError::Internal(String::new()).message(), "");
}

#[test]
fn response_carries_message_and_status() {
    let body = AppError::NotFound("Name 'bob' not registered".to_string()).response();
    assert_eq!(body.error, "Name 'bob' not registered");
    assert_eq!(body.status, 404);
    let body = AppError::Conflict("User has already been registered.".to_string()).response();
    assert_eq!(body.error, "User has already been registered.");
    assert_eq!(body.status, 409);
    let body = AppError::BadRequest("Name parameter is required".to_string()).response();
    assert_eq!(body.error, "Name parameter is required");
    assert_eq!(body.status, 400);
    let body = AppError::Database("Failed to save user to database".to_string()).response();
    assert_eq!(body.error, "Failed to save user to database");
    assert_eq!(body.status, 503);
}

#[test]
fn internal_errors_are_reported_in_one_generic_text() {
    let first = AppError::Internal("Failed to sync blockchain state: timeout".to_string());
    let second = AppError::Internal("Program execution failed: reverted".to_string());
    assert_eq!(first.response().error, "Internal server error");
    assert_eq!(first.response().status, 500);
    assert_eq!(second.response().error, first.response().error);
    assert_eq!(second.response().status, first.response().status);
    assert_eq!(AppError::Internal(String::new()).response().error, "Internal server error");
}

#[test]
fn cause_of_an_internal_error_stays_available_for_the_log() {
    let e = AppError::Internal("Failed to sync blockchain state: timeout".to_string());
    assert!(e.is_logged());
    assert_eq!(e.to_string(), "Internal Server Error: Failed to sync blockchain state: timeout");
    assert_eq!(e.message(), "Failed to sync blockchain state: timeout");
}

#[test]
fn only_internal_errors_are_logged() {
    assert!(AppError::Internal("x".to_string()).is_logged());
    assert!(!AppError::NotFound("x".to_string()).is_logged());
    assert!(!AppError::BadRequest("x".to_string()).is_logged());
    assert!(!AppError::Conflict("x".to_string()).is_logged());
    assert!(!AppError::Database("x".to_string()).is_logged());
}

#[test]
fn store_failures_read_by_step() {
    assert_eq!(
        database_message(store_failure(failure(StoreStep::Open, "no such directory"))),
        "Failed to open database: no such directory"
    );
    assert_eq!(
        database_message(store_failure(failure(StoreStep::Schema, "syntax"))),
        "Schema initialization failed: syntax"
    );
    assert_eq!(
        database_message(store_failure(failure(StoreStep::Prepare, "no table"))),
        "Query preparation failed: no table"
    );
    assert_eq!(
        database_message(store_failure(failure(StoreStep::Query, "busy"))),
        "Error looking up user: busy"
    );
    assert_eq!(
        database_message(store_failure(failure(StoreStep::Save, "disk full"))),
        "Failed to save user: disk full"
    );
}

#[test]
fn lock_failure_is_reported_without_cause() {
    assert_eq!(
        database_message(store_failure(failure(StoreStep::Lock, "poisoned"))),
        "Failed to acquire database lock"
    );
}
