//! The failure values shared by every operation.

use vstd::prelude::*;
use vstd::string::*;

verus! {

/// Why an operation could not be carried out.
#[derive(Debug, PartialEq, Eq)]
pub enum AppError {
    /// The underlying storage failed.
    Database(String),
    /// A referenced entity does not exist.
    NotFound(String),
    /// Caller-supplied data violates a field constraint.
    Validation(String),
    /// The request is well formed but cannot be satisfied in the current state.
    BusinessLogic(String),
    /// A filesystem operation failed while starting up.
    Io(String),
    /// Login failed; deliberately the same for an unknown user and a wrong password.
    InvalidCredentials,
    /// No session, or a session with an insufficient role.
    Auth(String),
    /// A credential hash could not be computed or parsed.
    PasswordHashing(String),
}

/// The mathematical content of an [`AppError`]: its kind and its message.
pub enum ErrorView {
    Database(Seq<char>),
    NotFound(Seq<char>),
    Validation(Seq<char>),
    BusinessLogic(Seq<char>),
    Io(Seq<char>),
    InvalidCredentials,
    Auth(Seq<char>),
    PasswordHashing(Seq<char>),
}

impl View for AppError {
    type V = ErrorView;

    open spec fn view(&self) -> ErrorView {
        match *self {
            AppError::Database(m) => ErrorView::Database(m@),
            AppError::NotFound(m) => ErrorView::NotFound(m@),
            AppError::Validation(m) => ErrorView::Validation(m@),
            AppError::BusinessLogic(m) => ErrorView::BusinessLogic(m@),
            AppError::Io(m) => ErrorView::Io(m@),
            AppError::InvalidCredentials => ErrorView::InvalidCredentials,
            AppError::Auth(m) => ErrorView::Auth(m@),
            AppError::PasswordHashing(m) => ErrorView::PasswordHashing(m@),
        }
    }
}

/// The line shown to the user for an error.
pub open spec fn display_text(e: ErrorView) -> Seq<char> {
    match e {
        ErrorView::Database(m) => "Database error: "@ + m,
        ErrorView::NotFound(m) => "Not found: "@ + m,
        ErrorView::Validation(m) => "Validation error: "@ + m,
        ErrorView::BusinessLogic(m) => "Business logic error: "@ + m,
        ErrorView::Io(m) => "IO error: "@ + m,
        ErrorView::InvalidCredentials => "Invalid credentials"@,
        ErrorView::Auth(m) => "Authentication error: "@ + m,
        ErrorView::PasswordHashing(m) => "Password hashing error: "@ + m,
    }
}

/// `r` is a failure whose content is `e`.
pub open spec fn fails_with<T>(r: Result<T, AppError>, e: ErrorView) -> bool {
    r is Err && r->Err_0@ == e
}

impl AppError {
    /// Renders the error as a display string: the kind, then the message.
    pub fn to_string(&self) -> (s: String)
        ensures
            s@ == display_text(self@),
    {
        match self {
            AppError::Database(m) => String::from_str("Database error: ").concat(m.as_str()),
            AppError::NotFound(m) => String::from_str("Not found: ").concat(m.as_str()),
            AppError::Validation(m) => String::from_str("Validation error: ").concat(m.as_str()),
            AppError::BusinessLogic(m) => String::from_str("Business logic error: ").concat(
                m.as_str(),
            ),
            AppError::Io(m) => String::from_str("IO error: ").concat(m.as_str()),
            AppError::InvalidCredentials => String::from_str("Invalid credentials"),
            AppError::Auth(m) => String::from_str("Authentication error: ").concat(m.as_str()),
            AppError::PasswordHashing(m) => String::from_str("Password hashing error: ").concat(
                m.as_str(),
            ),
        }
    }

    /// A validation failure with the given message.
    pub fn validation(message: &str) -> (e: AppError)
        ensures
            e@ == ErrorView::Validation(message@),
    {
        AppError::Validation(String::from_str(message))
    }

    /// An authorisation failure with the given message.
    pub fn auth(message: &str) -> (e: AppError)
        ensures
            e@ == ErrorView::Auth(message@),
    {
        AppError::Auth(String::from_str(message))
    }
}

} // verus!
