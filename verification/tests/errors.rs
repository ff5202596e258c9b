use json_order_service::error::AppError;

#[test]
fn status_codes_of_errors() {
    assert_eq!(AppError::Validation("x".into()).status_code(), 400);
    assert_eq!(AppError::Unauthorized("x".into()).status_code(), 401);
    assert_eq!(AppError::InsufficientBalance.status_code(), 402);
    assert_eq!(AppError::Forbidden("x".into()).status_code(), 403);
    assert_eq!(AppError::NotFound("x".into()).status_code(), 404);
    assert_eq!(AppError::Conflict("x".into()).status_code(), 409);
    assert_eq!(AppError::UnprocessableEntity("x".into()).status_code(), 422);
    assert_eq!(
        AppError::InvalidStatusTransition {
            current: "PAID".into(),
            requested: "PENDING".into(),
            valid: vec!["PURCHASED".into()]
        }
        .status_code(),
        422
    );
    assert_eq!(AppError::Database("boom".into()).status_code(), 500);
    assert_eq!(AppError::LimitExceeded.status_code(), 400);
    assert_eq!(AppError::Internal.status_code(), 500);
}

#[test]
fn response_messages_of_errors() {
    assert_eq!(AppError::Forbidden("nope".into()).response_message(), "nope");
    assert_eq!(AppError::InsufficientBalance.response_message(), "Insufficient balance");
    assert_eq!(AppError::LimitExceeded.response_message(), "Limit exceeded: max 1000");
    assert_eq!(AppError::Internal.response_message(), "Internal error");
    assert_eq!(AppError::Database("db down".into()).response_message(), "db down");
    assert_eq!(
        AppError::InvalidStatusTransition { current: "A".into(), requested: "B".into(), valid: vec![] }
            .response_message(),
        "Invalid status transition"
    );
    assert!(AppError::Validation("bad".into()).lists_field_errors());
    assert!(!AppError::Conflict("c".into()).lists_field_errors());
}
