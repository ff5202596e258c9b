//! The error type of the service and how each error is answered over HTTP.

use vstd::prelude::*;
use vstd::string::*;

verus! {

/// Everything that can go wrong while serving an order request.
#[derive(Debug)]
pub enum AppError {
    /// 400: the request body failed validation.
    Validation(String),
    /// 401: missing or invalid credentials.
    Unauthorized(String),
    /// 402: the buyer's wallet cannot cover the order.
    InsufficientBalance,
    /// 403: the caller may not do this.
    Forbidden(String),
    /// 404: the order (or product) does not exist.
    NotFound(String),
    /// 409: conflicting state, such as stock that ran out.
    Conflict(String),
    /// 422: the request is well formed but cannot be carried out.
    UnprocessableEntity(String),
    /// 422: a status change that the order's lifecycle does not allow.
    InvalidStatusTransition { current: String, requested: String, valid: Vec<String> },
    /// 500: the database reported an error; the text is the database's message.
    Database(String),
    /// 400: a page size above the allowed maximum.
    LimitExceeded,
    /// 500: anything else.
    Internal,
}

/// The mathematical value of an [`AppError`]: its variant and the text it carries.
pub enum AppErrorView {
    Validation(Seq<char>),
    Unauthorized(Seq<char>),
    InsufficientBalance,
    Forbidden(Seq<char>),
    NotFound(Seq<char>),
    Conflict(Seq<char>),
    UnprocessableEntity(Seq<char>),
    InvalidStatusTransition { current: Seq<char>, requested: Seq<char>, valid: Seq<Seq<char>> },
    Database(Seq<char>),
    LimitExceeded,
    Internal,
}

impl View for AppError {
    type V = AppErrorView;

    open spec fn view(&self) -> AppErrorView {
        match self {
            AppError::Validation(m) => AppErrorView::Validation(m@),
            AppError::Unauthorized(m) => AppErrorView::Unauthorized(m@),
            AppError::InsufficientBalance => AppErrorView::InsufficientBalance,
            AppError::Forbidden(m) => AppErrorView::Forbidden(m@),
            AppError::NotFound(m) => AppErrorView::NotFound(m@),
            AppError::Conflict(m) => AppErrorView::Conflict(m@),
            AppError::UnprocessableEntity(m) => AppErrorView::UnprocessableEntity(m@),
            AppError::InvalidStatusTransition { current, requested, valid } =>
                AppErrorView::InvalidStatusTransition {
                    current: current@,
                    requested: requested@,
                    valid: valid@.map_values(|s: String| s@),
                },
            AppError::Database(m) => AppErrorView::Database(m@),
            AppError::LimitExceeded => AppErrorView::LimitExceeded,
            AppError::Internal => AppErrorView::Internal,
        }
    }
}

/// The HTTP status with which an error is answered.
pub open spec fn status_code_of(e: AppErrorView) -> u16 {
    match e {
        AppErrorView::Validation(_) => 400,
        AppErrorView::Unauthorized(_) => 401,
        AppErrorView::InsufficientBalance => 402,
        AppErrorView::Forbidden(_) => 403,
        AppErrorView::NotFound(_) => 404,
        AppErrorView::Conflict(_) => 409,
        AppErrorView::UnprocessableEntity(_) => 422,
        AppErrorView::InvalidStatusTransition { .. } => 422,
        AppErrorView::Database(_) => 500,
        AppErrorView::LimitExceeded => 400,
        AppErrorView::Internal => 500,
    }
}

/// The `message` field of the JSON body with which an error is answered.
pub open spec fn response_message_of(e: AppErrorView) -> Seq<char> {
    match e {
        AppErrorView::Validation(m) => m,
        AppErrorView::Unauthorized(m) => m,
        AppErrorView::InsufficientBalance => "Insufficient balance"@,
        AppErrorView::Forbidden(m) => m,
        AppErrorView::NotFound(m) => m,
        AppErrorView::Conflict(m) => m,
        AppErrorView::UnprocessableEntity(m) => m,
        AppErrorView::InvalidStatusTransition { .. } => "Invalid status transition"@,
        AppErrorView::Database(m) => m,
        AppErrorView::LimitExceeded => "Limit exceeded: max 1000"@,
        AppErrorView::Internal => "Internal error"@,
    }
}

impl AppError {
    /// The HTTP status code of the response for this error.
    pub fn status_code(&self) -> (r: u16)
        ensures
            r == status_code_of(self@),
    {
        match self {
            AppError::Validation(_) => 400,
            AppError::Unauthorized(_) => 401,
            AppError::InsufficientBalance => 402,
            AppError::Forbidden(_) => 403,
            AppError::NotFound(_) => 404,
            AppError::Conflict(_) => 409,
            AppError::UnprocessableEntity(_) => 422,
            AppError::InvalidStatusTransition { .. } => 422,
            AppError::Database(_) => 500,
            AppError::LimitExceeded => 400,
            AppError::Internal => 500,
        }
    }

    /// The `message` of the JSON response body for this error.
    pub fn response_message(&self) -> (r: String)
        ensures
            r@ == response_message_of(self@),
    {
        match self {
            AppError::Validation(m) => m.clone(),
            AppError::Unauthorized(m) => m.clone(),
            AppError::InsufficientBalance => String::from_str("Insufficient balance"),
            AppError::Forbidden(m) => m.clone(),
            AppError::NotFound(m) => m.clone(),
            AppError::Conflict(m) => m.clone(),
            AppError::UnprocessableEntity(m) => m.clone(),
            AppError::InvalidStatusTransition { .. } => String::from_str("Invalid status transition"),
            AppError::Database(m) => m.clone(),
            AppError::LimitExceeded => String::from_str("Limit exceeded: max 1000"),
            AppError::Internal => String::from_str("Internal error"),
        }
    }

    /// Whether the response body also lists the failure under `errors`
    /// (validation failures do, with the field given as `unknown`).
    pub fn lists_field_errors(&self) -> (r: bool)
        ensures
            r == (self@ is Validation),
    {
        match self {
            AppError::Validation(_) => true,
            _ => false,
        }
    }
}

/// A `Forbidden` error with the given text.
pub fn forbidden(m: &str) -> (e: AppError)
    ensures
        e@ == AppErrorView::Forbidden(m@),
{
    AppError::Forbidden(String::from_str(m))
}

/// An `UnprocessableEntity` error with the given text.
pub fn unprocessable(m: &str) -> (e: AppError)
    ensures
        e@ == AppErrorView::UnprocessableEntity(m@),
{
    AppError::UnprocessableEntity(String::from_str(m))
}

/// An `Unauthorized` error with the given text.
pub fn unauthorized(m: &str) -> (e: AppError)
    ensures
        e@ == AppErrorView::Unauthorized(m@),
{
    AppError::Unauthorized(String::from_str(m))
}

/// A `NotFound` error with the given text.
pub fn not_found(m: &str) -> (e: AppError)
    ensures
        e@ == AppErrorView::NotFound(m@),
{
    AppError::NotFound(String::from_str(m))
}

/// A `Conflict` error with the given text.
pub fn conflict(m: &str) -> (e: AppError)
    ensures
        e@ == AppErrorView::Conflict(m@),
{
    AppError::Conflict(String::from_str(m))
}

} // verus!
