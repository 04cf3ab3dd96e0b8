//! The error taxonomy of the gateway and the shape in which an error is reported.

use vstd::prelude::*;
use vstd::string::StringExecFns;

verus! {

/// An error of the resolution and registration gateway, with its message.
#[derive(Debug, Clone)]
pub enum AppError {
    /// The name is bound in neither tier. An outcome, not a fault.
    NotFound(String),
    /// A required input is missing or invalid; the caller must change the input.
    BadRequest(String),
    /// The name is already registered.
    Conflict(String),
    /// The cache store could not be reached or refused the operation.
    Database(String),
    /// A ledger step or the dispatch to the ledger worker failed.
    Internal(String),
}

/// The mathematical content of an [`AppError`].
pub enum ErrorView {
    NotFound(Seq<char>),
    BadRequest(Seq<char>),
    Conflict(Seq<char>),
    Database(Seq<char>),
    Internal(Seq<char>),
}

impl ErrorView {
    /// The message that the error carries.
    pub open spec fn message(self) -> Seq<char> {
        match self {
            ErrorView::NotFound(m) => m,
            ErrorView::BadRequest(m) => m,
            ErrorView::Conflict(m) => m,
            ErrorView::Database(m) => m,
            ErrorView::Internal(m) => m,
        }
    }

    /// The numeric status under which the error is reported.
    pub open spec fn status(self) -> u16 {
        match self {
            ErrorView::NotFound(_) => 404,
            ErrorView::BadRequest(_) => 400,
            ErrorView::Conflict(_) => 409,
            ErrorView::Database(_) => 503,
            ErrorView::Internal(_) => 500,
        }
    }

    /// The words that name the error's class in its one-line description.
    pub open spec fn label(self) -> Seq<char> {
        match self {
            ErrorView::NotFound(_) => "Not Found: "@,
            ErrorView::BadRequest(_) => "Bad Request: "@,
            ErrorView::Conflict(_) => "Conflict: "@,
            ErrorView::Database(_) => "Database Error: "@,
            ErrorView::Internal(_) => "Internal Server Error: "@,
        }
    }

    /// The one-line description: the class label, then the message.
    pub open spec fn description(self) -> Seq<char> {
        self.label() + self.message()
    }

    /// The text that the caller is given. An internal failure is told in one fixed
    /// text, whatever step failed and why; every other error is told by its message.
    pub open spec fn public_message(self) -> Seq<char> {
        match self {
            ErrorView::Internal(_) => "Internal server error"@,
            _ => self.message(),
        }
    }

    /// The body in which the error is reported to the caller.
    pub open spec fn body(self) -> ErrorResponseView {
        ErrorResponseView { error: self.public_message(), status: self.status() }
    }
}

impl View for AppError {
    type V = ErrorView;

    open spec fn view(&self) -> ErrorView {
        match self {
            AppError::NotFound(m) => ErrorView::NotFound(m@),
            AppError::BadRequest(m) => ErrorView::BadRequest(m@),
            AppError::Conflict(m) => ErrorView::Conflict(m@),
            AppError::Database(m) => ErrorView::Database(m@),
            AppError::Internal(m) => ErrorView::Internal(m@),
        }
    }
}

/// The body in which an error is reported to the caller.
#[derive(Debug, Clone)]
pub struct ErrorResponse {
    /// What the caller is told of the error.
    pub error: String,
    /// The error's numeric status.
    pub status: u16,
}

/// The mathematical content of an [`ErrorResponse`].
pub struct ErrorResponseView {
    pub error: Seq<char>,
    pub status: u16,
}

impl View for ErrorResponse {
    type V = ErrorResponseView;

    open spec fn view(&self) -> ErrorResponseView {
        ErrorResponseView { error: self.error@, status: self.status }
    }
}

impl AppError {
    /// The message that the error carries.
    pub fn message(&self) -> (m: String)
        ensures
            m@ == self@.message(),
    {
        match self {
            AppError::NotFound(m) => m.clone(),
            AppError::BadRequest(m) => m.clone(),
            AppError::Conflict(m) => m.clone(),
            AppError::Database(m) => m.clone(),
            AppError::Internal(m) => m.clone(),
        }
    }

    /// The numeric status under which the error is reported: 404 for a name that is not
    /// found, 400 for bad input, 409 for a name already registered, 503 for a cache
    /// store failure and 500 for an internal failure.
    pub fn status(&self) -> (code: u16)
        ensures
            code == self@.status(),
    {
        match self {
            AppError::NotFound(_) => 404,
            AppError::BadRequest(_) => 400,
            AppError::Conflict(_) => 409,
            AppError::Database(_) => 503,
            AppError::Internal(_) => 500,
        }
    }

    /// Whether the error is written to the server's log before it is reported: exactly
    /// the internal failures are.
    pub fn is_logged(&self) -> (logged: bool)
        ensures
            logged == (self@ is Internal),
    {
        match self {
            AppError::Internal(_) => true,
            _ => false,
        }
    }

    /// The one-line description of the error: its class, a colon and its message.
    pub fn to_string(&self) -> (text: String)
        ensures
            text@ == self@.description(),
    {
        let label = match self {
            AppError::NotFound(_) => "Not Found: ",
            AppError::BadRequest(_) => "Bad Request: ",
            AppError::Conflict(_) => "Conflict: ",
            AppError::Database(_) => "Database Error: ",
            AppError::Internal(_) => "Internal Server Error: ",
        };
        let message = self.message();
        String::from_str(label).concat(message.as_str())
    }

    /// The body in which the error is reported to the caller: its status, and its
    /// message unless it is an internal failure. An internal failure is reported in one
    /// fixed text; the step that failed and its cause are for the server's log, where
    /// [`AppError::to_string`] gives them.
    pub fn response(&self) -> (body: ErrorResponse)
        ensures
            body@ == self@.body(),
    {
        let error = match self {
            AppError::Internal(_) => String::from_str("Internal server error"),
            _ => self.message(),
        };
        ErrorResponse { error, status: self.status() }
    }
}

/// Internal failures look alike from outside: whatever their messages, two internal
/// errors are reported to the caller in the same body, with status 500.
pub proof fn lemma_internal_body_is_generic(a: ErrorView, b: ErrorView)
    requires
        a is Internal,
        b is Internal,
    ensures
        a.body() == b.body(),
        a.body().status == 500,
        a.body().error == "Internal server error"@,
{
}

} // verus!
