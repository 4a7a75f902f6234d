//! The one place where a success value or an error becomes an envelope and
//! a status code.

use crate::domain::dto::{
    ApiErrorResponse, ApiErrorResponseView, ApiResponse, Envelope, FieldErrors, HttpReply,
    STATUS_BAD_REQUEST, STATUS_INTERNAL_SERVER_ERROR, STATUS_NOT_FOUND,
};
use crate::errors::{database_errors, errors_of, status_of, AppError, AppErrorView};
use vstd::prelude::*;

verus! {

/// The message with which each kind of error is reported.
pub open spec fn message_of(error: AppErrorView) -> Seq<char> {
    match error {
        AppErrorView::NotFound => "User not found"@,
        AppErrorView::DatabaseError(_) => "Database error occurred"@,
        AppErrorView::InternalServerError => "Internal server error"@,
        AppErrorView::InvalidInput(_) => "Invalid input provided"@,
    }
}

/// The envelope with which each kind of error is reported.
pub open spec fn error_envelope(error: AppErrorView) -> ApiErrorResponseView {
    ApiErrorResponseView {
        status: "error"@,
        message: message_of(error),
        errors: errors_of(error),
    }
}

/// The envelope of a success: it says so, and carries the message and the
/// payload.
pub fn success_response<T>(message: &str, data: T) -> (response: ApiResponse<T>)
    ensures
        response.status@ == "success"@,
        response.message@ == message@,
        response.data == Some(data),
{
    ApiResponse { status: "success".to_owned(), message: message.to_owned(), data: Some(data) }
}

/// The envelope of a failure: it says so, and carries the message and the
/// messages by field, where there are any.
pub fn error_response(message: &str, errors: Option<FieldErrors>) -> (response: ApiErrorResponse)
    ensures
        response.status@ == "error"@,
        response.message@ == message@,
        response.errors == errors,
{
    ApiErrorResponse { status: "error".to_owned(), message: message.to_owned(), errors }
}

/// The reply that reports an error: the status code of its kind and the
/// envelope of its kind.
pub fn map_app_error_to_response(e: AppError) -> (reply: HttpReply)
    ensures
        reply.status == status_of(e@),
        reply.body matches Envelope::Failure(body) && body@ == error_envelope(e@),
        reply.well_formed(),
{
    match e {
        AppError::NotFound => {
            let error = error_response("User not found", None);
            HttpReply { status: STATUS_NOT_FOUND, body: Envelope::Failure(error) }
        },
        AppError::DatabaseError(msg) => {
            let errors = database_errors(msg);
            let error = error_response("Database error occurred", Some(errors));
            HttpReply { status: STATUS_INTERNAL_SERVER_ERROR, body: Envelope::Failure(error) }
        },
        AppError::InternalServerError => {
            let error = error_response("Internal server error", None);
            HttpReply { status: STATUS_INTERNAL_SERVER_ERROR, body: Envelope::Failure(error) }
        },
        AppError::InvalidInput(errors_map) => {
            let error = error_response("Invalid input provided", Some(errors_map));
            HttpReply { status: STATUS_BAD_REQUEST, body: Envelope::Failure(error) }
        },
    }
}

} // verus!
