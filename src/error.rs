use vstd::prelude::*;
use vstd::string::StringExecFns;

verus! {

/// What an `AppError` says, as mathematical values.
pub enum ErrorView {
    Internal(Seq<char>),
    Conflict(Seq<char>),
    Unauthorized(Seq<char>),
    NotFound(Seq<char>),
}

/// The error taxonomy of the service layer.
#[derive(Debug)]
pub enum AppError {
    /// Hashing, signing or store faults not attributable to the caller.
    Internal(String),
    /// A uniqueness violation.
    Conflict(String),
    /// Bad credentials, or a missing, malformed, forged or expired token.
    Unauthorized(String),
    /// The authenticated subject is no longer in the store.
    NotFound(String),
}

impl View for AppError {
    type V = ErrorView;

    open spec fn view(&self) -> ErrorView {
        match self {
            AppError::Internal(m) => ErrorView::Internal(m@),
            AppError::Conflict(m) => ErrorView::Conflict(m@),
            AppError::Unauthorized(m) => ErrorView::Unauthorized(m@),
            AppError::NotFound(m) => ErrorView::NotFound(m@),
        }
    }
}

/// The text that prefixes the message of each kind in `describe`.
pub open spec fn kind_prefix(e: ErrorView) -> Seq<char> {
    match e {
        ErrorView::Internal(_) => "Internal server error: "@,
        ErrorView::Conflict(_) => "Conflict: "@,
        ErrorView::Unauthorized(_) => "Unauthorized: "@,
        ErrorView::NotFound(_) => "Not Found: "@,
    }
}

pub open spec fn message_of(e: ErrorView) -> Seq<char> {
    match e {
        ErrorView::Internal(m) => m,
        ErrorView::Conflict(m) => m,
        ErrorView::Unauthorized(m) => m,
        ErrorView::NotFound(m) => m,
    }
}

/// `b` appended to a copy of `a`.
fn concat(a: &str, b: &str) -> (r: String)
    ensures
        r@ == a@ + b@,
{
    let mut s = a.to_owned();
    s.append(b);
    s
}

impl AppError {
    /// The HTTP status code that this error is reported with.
    pub fn status_code(&self) -> (r: u16)
        ensures
            r == match self@ {
                ErrorView::Internal(_) => 500u16,
                ErrorView::Conflict(_) => 409u16,
                ErrorView::Unauthorized(_) => 401u16,
                ErrorView::NotFound(_) => 404u16,
            },
    {
        match self {
            AppError::Internal(_) => 500,
            AppError::Conflict(_) => 409,
            AppError::Unauthorized(_) => 401,
            AppError::NotFound(_) => 404,
        }
    }

    /// The short message that the response body carries.
    pub fn message(&self) -> (r: String)
        ensures
            r@ == message_of(self@),
    {
        match self {
            AppError::Internal(m) => m.clone(),
            AppError::Conflict(m) => m.clone(),
            AppError::Unauthorized(m) => m.clone(),
            AppError::NotFound(m) => m.clone(),
        }
    }

    /// The message with its kind in front, as the error is shown in text.
    pub fn describe(&self) -> (r: String)
        ensures
            r@ == kind_prefix(self@) + message_of(self@),
    {
        match self {
            AppError::Internal(m) => concat("Internal server error: ", m.as_str()),
            AppError::Conflict(m) => concat("Conflict: ", m.as_str()),
            AppError::Unauthorized(m) => concat("Unauthorized: ", m.as_str()),
            AppError::NotFound(m) => concat("Not Found: ", m.as_str()),
        }
    }
}

} // verus!
