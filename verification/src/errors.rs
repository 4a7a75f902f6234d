//! The closed set of ways in which a request can fail.

use crate::domain::dto::{
    ApiErrorResponse, ApiErrorResponseView, Envelope, FieldErrors, FieldMap, HttpReply,
    STATUS_BAD_REQUEST, STATUS_INTERNAL_SERVER_ERROR, STATUS_NOT_FOUND,
};
use vstd::prelude::*;
use vstd::string::StringExecFns;

verus! {

/// Why a request failed.
#[derive(Debug)]
pub enum AppError {
    /// No row matches the identifier.
    NotFound,
    /// The store failed; the text is its diagnostic.
    DatabaseError(String),
    /// A failure of no other kind.
    InternalServerError,
    /// The input broke rules; the mapping holds the messages by field.
    InvalidInput(FieldErrors),
}

/// What an `AppError` holds, as mathematical values.
pub enum AppErrorView {
    NotFound,
    DatabaseError(Seq<char>),
    InternalServerError,
    InvalidInput(FieldMap),
}

impl View for AppError {
    type V = AppErrorView;

    open spec fn view(&self) -> AppErrorView {
        match self {
            AppError::NotFound => AppErrorView::NotFound,
            AppError::DatabaseError(detail) => AppErrorView::DatabaseError(detail@),
            AppError::InternalServerError => AppErrorView::InternalServerError,
            AppError::InvalidInput(errors) => AppErrorView::InvalidInput(errors@),
        }
    }
}

/// The line that describes an error.
pub open spec fn display_text(error: AppErrorView) -> Seq<char> {
    match error {
        AppErrorView::NotFound => "User not found"@,
        AppErrorView::DatabaseError(detail) => "Database Error: "@ + detail,
        AppErrorView::InternalServerError => "Internal Server Error"@,
        AppErrorView::InvalidInput(_) => "Invalid Input"@,
    }
}

/// The status code that an error leaves with.
pub open spec fn status_of(error: AppErrorView) -> u16 {
    match error {
        AppErrorView::NotFound => STATUS_NOT_FOUND,
        AppErrorView::DatabaseError(_) => STATUS_INTERNAL_SERVER_ERROR,
        AppErrorView::InternalServerError => STATUS_INTERNAL_SERVER_ERROR,
        AppErrorView::InvalidInput(_) => STATUS_BAD_REQUEST,
    }
}

/// The messages by field that an error's envelope carries: those of an
/// invalid input, a store's diagnostic under "database", none otherwise.
pub open spec fn errors_of(error: AppErrorView) -> Option<FieldMap> {
    match error {
        AppErrorView::NotFound => None,
        AppErrorView::DatabaseError(detail) => Some(
            FieldMap::empty().insert("database"@, seq![detail]),
        ),
        AppErrorView::InternalServerError => None,
        AppErrorView::InvalidInput(errors) => Some(errors),
    }
}

/// The envelope with which an error answers for itself: its own line is
/// the message where it has nothing more to say.
pub open spec fn own_envelope(error: AppErrorView) -> ApiErrorResponseView {
    ApiErrorResponseView {
        status: "error"@,
        message: match error {
            AppErrorView::NotFound => display_text(error),
            AppErrorView::DatabaseError(_) => "Database error occurred"@,
            AppErrorView::InternalServerError => display_text(error),
            AppErrorView::InvalidInput(_) => "Invalid input provided"@,
        },
        errors: errors_of(error),
    }
}

/// The mapping that holds one diagnostic under "database".
pub fn database_errors(detail: String) -> (errors: FieldErrors)
    ensures
        Some(errors@) == errors_of(AppErrorView::DatabaseError(detail@)),
{
    let mut errors = FieldErrors::new();
    let mut messages: Vec<String> = Vec::new();
    let ghost text = detail@;
    messages.push(detail);
    assert(crate::domain::dto::texts(messages@) =~= seq![text]);
    errors.insert("database".to_owned(), messages);
    errors
}

impl Clone for AppError {
    fn clone(&self) -> (copy: Self)
        ensures
            copy@ == self@,
    {
        match self {
            AppError::NotFound => AppError::NotFound,
            AppError::DatabaseError(detail) => AppError::DatabaseError(detail.clone()),
            AppError::InternalServerError => AppError::InternalServerError,
            AppError::InvalidInput(errors) => AppError::InvalidInput(errors.clone()),
        }
    }
}

impl AppError {
    /// The line that describes this error.
    pub fn to_string(&self) -> (text: String)
        ensures
            text@ == display_text(self@),
    {
        match self {
            AppError::NotFound => "User not found".to_owned(),
            AppError::DatabaseError(detail) => "Database Error: ".to_owned().concat(
                detail.as_str(),
            ),
            AppError::InternalServerError => "Internal Server Error".to_owned(),
            AppError::InvalidInput(_) => "Invalid Input".to_owned(),
        }
    }

    /// The reply with which this error answers for itself.
    pub fn error_response(&self) -> (reply: HttpReply)
        ensures
            reply.status == status_of(self@),
            reply.body matches Envelope::Failure(body) && body@ == own_envelope(self@),
            reply.well_formed(),
    {
        match self {
            AppError::NotFound => {
                let error = ApiErrorResponse {
                    status: "error".to_owned(),
                    message: self.to_string(),
                    errors: None,
                };
                HttpReply { status: STATUS_NOT_FOUND, body: Envelope::Failure(error) }
            },
            AppError::DatabaseError(detail) => {
                let error = ApiErrorResponse {
                    status: "error".to_owned(),
                    message: "Database error occurred".to_owned(),
                    errors: Some(database_errors(detail.clone())),
                };
                HttpReply { status: STATUS_INTERNAL_SERVER_ERROR, body: Envelope::Failure(error) }
            },
            AppError::InternalServerError => {
                let error = ApiErrorResponse {
                    status: "error".to_owned(),
                    message: self.to_string(),
                    errors: None,
                };
                HttpReply { status: STATUS_INTERNAL_SERVER_ERROR, body: Envelope::Failure(error) }
            },
            AppError::InvalidInput(errors) => {
                let error = ApiErrorResponse {
                    status: "error".to_owned(),
                    message: "Invalid input provided".to_owned(),
                    errors: Some(errors.clone()),
                };
                HttpReply { status: STATUS_BAD_REQUEST, body: Envelope::Failure(error) }
            },
        }
    }
}

} // verus!
