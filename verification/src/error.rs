//! The errors of the service and how the API reports them.
use vstd::prelude::*;

verus! {

/// What went wrong, without the message.
#[derive(Clone, Copy, Debug, PartialEq, Eq, Structural)]
pub enum ErrorKind {
    Database,
    Scheduler,
    WeatherApi,
    Email,
    Config,
    NotFound,
    Conflict,
    Validation,
    Internal,
    Io,
}

/// An error of the service. Each variant carries its message; for a failure
/// of a collaborator, the message is the collaborator's own text.
#[derive(Debug)]
pub enum AppError {
    Database(String),
    Scheduler(String),
    WeatherApi(String),
    Email(String),
    Config(String),
    NotFound(String),
    Conflict(String),
    Validation(String),
    Internal(String),
    Io(String),
}

/// What the API answers for an error: the HTTP status and the envelope
/// `{success, error}`.
#[derive(Debug)]
pub struct ErrorResponse {
    pub status: u16,
    pub success: bool,
    pub error: String,
}

/// The HTTP status that the API answers with for an error of the given kind.
pub open spec fn status_of(kind: ErrorKind) -> u16 {
    match kind {
        ErrorKind::NotFound => 404,
        ErrorKind::Conflict => 409,
        ErrorKind::Validation => 400,
        _ => 500,
    }
}

/// The words that introduce the message of an error of the given kind.
pub open spec fn label_of(kind: ErrorKind) -> Seq<char> {
    match kind {
        ErrorKind::Database => "Database error: "@,
        ErrorKind::Scheduler => "Scheduler error: "@,
        ErrorKind::WeatherApi => "Weather API error: "@,
        ErrorKind::Email => "Email error: "@,
        ErrorKind::Config => "Configuration error: "@,
        ErrorKind::NotFound => "Not found: "@,
        ErrorKind::Conflict => "Conflict: "@,
        ErrorKind::Validation => "Validation error: "@,
        ErrorKind::Internal => "Internal error: "@,
        ErrorKind::Io => "IO error: "@,
    }
}

/// The full text of an error: the label of its kind, then its message.
pub open spec fn display_of(e: (ErrorKind, Seq<char>)) -> Seq<char> {
    label_of(e.0) + e.1
}

/// The text that the API puts into the `error` field: the bare message for
/// the errors a client caused, the full text for all others.
pub open spec fn reported_text(e: (ErrorKind, Seq<char>)) -> Seq<char> {
    match e.0 {
        ErrorKind::NotFound | ErrorKind::Conflict | ErrorKind::Validation => e.1,
        _ => display_of(e),
    }
}

impl View for AppError {
    type V = (ErrorKind, Seq<char>);

    open spec fn view(&self) -> (ErrorKind, Seq<char>) {
        match self {
            AppError::Database(m) => (ErrorKind::Database, m@),
            AppError::Scheduler(m) => (ErrorKind::Scheduler, m@),
            AppError::WeatherApi(m) => (ErrorKind::WeatherApi, m@),
            AppError::Email(m) => (ErrorKind::Email, m@),
            AppError::Config(m) => (ErrorKind::Config, m@),
            AppError::NotFound(m) => (ErrorKind::NotFound, m@),
            AppError::Conflict(m) => (ErrorKind::Conflict, m@),
            AppError::Validation(m) => (ErrorKind::Validation, m@),
            AppError::Internal(m) => (ErrorKind::Internal, m@),
            AppError::Io(m) => (ErrorKind::Io, m@),
        }
    }
}

/// A result as contracts speak of it, where the value has a view: the view
/// of the value, or the view of the error.
pub open spec fn viewed<T: View>(r: Result<T, AppError>) -> Result<T::V, (ErrorKind, Seq<char>)> {
    match r {
        Ok(value) => Ok(value@),
        Err(e) => Err(e@),
    }
}

/// A result as contracts speak of it, where the value is plain: the value
/// itself, or the view of the error.
pub open spec fn plain<T>(r: Result<T, AppError>) -> Result<T, (ErrorKind, Seq<char>)> {
    match r {
        Ok(value) => Ok(value),
        Err(e) => Err(e@),
    }
}

impl Clone for AppError {
    fn clone(&self) -> (r: Self)
        ensures
            r@ == self@,
    {
        match self {
            AppError::Database(m) => AppError::Database(m.clone()),
            AppError::Scheduler(m) => AppError::Scheduler(m.clone()),
            AppError::WeatherApi(m) => AppError::WeatherApi(m.clone()),
            AppError::Email(m) => AppError::Email(m.clone()),
            AppError::Config(m) => AppError::Config(m.clone()),
            AppError::NotFound(m) => AppError::NotFound(m.clone()),
            AppError::Conflict(m) => AppError::Conflict(m.clone()),
            AppError::Validation(m) => AppError::Validation(m.clone()),
            AppError::Internal(m) => AppError::Internal(m.clone()),
            AppError::Io(m) => AppError::Io(m.clone()),
        }
    }
}

impl AppError {
    /// The kind of this error.
    pub fn kind(&self) -> (k: ErrorKind)
        ensures
            k == self@.0,
    {
        match self {
            AppError::Database(_) => ErrorKind::Database,
            AppError::Scheduler(_) => ErrorKind::Scheduler,
            AppError::WeatherApi(_) => ErrorKind::WeatherApi,
            AppError::Email(_) => ErrorKind::Email,
            AppError::Config(_) => ErrorKind::Config,
            AppError::NotFound(_) => ErrorKind::NotFound,
            AppError::Conflict(_) => ErrorKind::Conflict,
            AppError::Validation(_) => ErrorKind::Validation,
            AppError::Internal(_) => ErrorKind::Internal,
            AppError::Io(_) => ErrorKind::Io,
        }
    }

    /// The message of this error, without the label of its kind.
    pub fn message(&self) -> (m: &String)
        ensures
            m@ == self@.1,
    {
        match self {
            AppError::Database(m) => m,
            AppError::Scheduler(m) => m,
            AppError::WeatherApi(m) => m,
            AppError::Email(m) => m,
            AppError::Config(m) => m,
            AppError::NotFound(m) => m,
            AppError::Conflict(m) => m,
            AppError::Validation(m) => m,
            AppError::Internal(m) => m,
            AppError::Io(m) => m,
        }
    }

    /// The HTTP status for this error: 404 for `NotFound`, 409 for
    /// `Conflict`, 400 for `Validation`, 500 for every other kind.
    pub fn status_code(&self) -> (code: u16)
        ensures
            code == status_of(self@.0),
    {
        match self {
            AppError::NotFound(_) => 404,
            AppError::Conflict(_) => 409,
            AppError::Validation(_) => 400,
            _ => 500,
        }
    }

    /// The full text of this error.
    pub fn to_string(&self) -> (text: String)
        ensures
            text@ == display_of(self@),
    {
        let label = match self {
            AppError::Database(_) => "Database error: ",
            AppError::Scheduler(_) => "Scheduler error: ",
            AppError::WeatherApi(_) => "Weather API error: ",
            AppError::Email(_) => "Email error: ",
            AppError::Config(_) => "Configuration error: ",
            AppError::NotFound(_) => "Not found: ",
            AppError::Conflict(_) => "Conflict: ",
            AppError::Validation(_) => "Validation error: ",
            AppError::Internal(_) => "Internal error: ",
            AppError::Io(_) => "IO error: ",
        };
        let mut text = String::from_str(label);
        text.append(self.message().as_str());
        text
    }

    /// What the API answers for this error.
    pub fn error_response(&self) -> (response: ErrorResponse)
        ensures
            response.status == status_of(self@.0),
            !response.success,
            response.error@ == reported_text(self@),
    {
        let error = match self {
            AppError::NotFound(m) => m.clone(),
            AppError::Conflict(m) => m.clone(),
            AppError::Validation(m) => m.clone(),
            _ => self.to_string(),
        };
        ErrorResponse { status: self.status_code(), success: false, error }
    }
}

} // verus!
