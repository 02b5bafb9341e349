//! The errors that the proxy answers requests with: a kind, which decides
//! the HTTP status, and the error itself.
use vstd::prelude::*;

use crate::text::copy_string;

verus! {

/// What went wrong, as far as the client is concerned.
#[derive(Debug, Clone, Copy, PartialEq, Eq, Hash)]
pub enum AppErrorKind {
    Input,
    NotFound,
    Rule,
    Infrastructure,
    Unknown,
}

impl AppErrorKind {
    /// The HTTP status code a request failing this way is answered with.
    pub open spec fn status_code_spec(self) -> u16 {
        match self {
            AppErrorKind::Input => 400,
            AppErrorKind::NotFound => 404,
            AppErrorKind::Rule => 422,
            AppErrorKind::Infrastructure => 502,
            AppErrorKind::Unknown => 500,
        }
    }

    /// The HTTP status code a request failing this way is answered with.
    pub fn status_code(&self) -> (r: u16)
        ensures
            r == self.status_code_spec(),
    {
        match self {
            AppErrorKind::Input => 400,
            AppErrorKind::NotFound => 404,
            AppErrorKind::Rule => 422,
            AppErrorKind::Infrastructure => 502,
            AppErrorKind::Unknown => 500,
        }
    }
}

/// Calls `anyhow::Error::msg`, which makes an error that displays as
/// `message`. Nothing is stated of the error it makes: it is opaque here.
#[verifier::external_body]
fn error_from_message(message: String) -> anyhow::Error {
    anyhow::Error::msg(message)
}

/// Formats `error` with its `Display`, as `anyhow::Error` implements it.
/// Nothing is stated of the text.
#[verifier::external_body]
fn error_text(error: &anyhow::Error) -> String {
    format!("{error}")
}

/// An error of a kind, with the text it displays as.
#[derive(Debug)]
pub struct AppError {
    kind: AppErrorKind,
    error: anyhow::Error,
    text: String,
}

impl AppError {
    pub closed spec fn kind_spec(&self) -> AppErrorKind {
        self.kind
    }

    /// The text the error displays as.
    pub closed spec fn text_spec(&self) -> Seq<char> {
        self.text@
    }

    /// `error`, of `kind`; its text is the display of `error`.
    pub fn new(kind: AppErrorKind, error: anyhow::Error) -> (r: AppError)
        ensures
            r.kind_spec() == kind,
    {
        let text = error_text(&error);
        AppError { kind, error, text }
    }

    /// An error of `kind` that says `message`.
    pub fn message(kind: AppErrorKind, message: String) -> (r: AppError)
        ensures
            r.kind_spec() == kind,
            r.text_spec() == message@,
    {
        let text = copy_string(&message);
        AppError { kind, error: error_from_message(message), text }
    }

    /// The error for something that does not exist.
    pub fn not_found() -> (r: AppError)
        ensures
            r.kind_spec() == AppErrorKind::NotFound,
            r.text_spec() == "data or entity doesn't exist"@,
    {
        AppError::message(AppErrorKind::NotFound, String::from_str("data or entity doesn't exist"))
    }

    pub fn kind(&self) -> (r: AppErrorKind)
        ensures
            r == self.kind_spec(),
    {
        self.kind
    }

    /// The text the error displays as: the message it was made with, or
    /// the display of the error it wraps.
    pub fn text(&self) -> (r: String)
        ensures
            r@ == self.text_spec(),
    {
        copy_string(&self.text)
    }

    /// The body of the response to a request that failed with this error:
    /// the status, and for the kinds a client can act on, the error's text.
    pub fn response_message(&self) -> (r: String)
        ensures
            r@ == match self.kind_spec() {
                AppErrorKind::Input => "400 BAD REQUEST - "@ + self.text_spec(),
                AppErrorKind::NotFound => "404 NOT FOUND - "@ + self.text_spec(),
                AppErrorKind::Rule => "422 UNPROCESSABLE ENTITY - "@ + self.text_spec(),
                AppErrorKind::Infrastructure => "502 BAD GATEWAY - infrastructure error"@,
                AppErrorKind::Unknown => "500 INTERNAL SERVER ERROR - unknown error"@,
            },
    {
        let prefix = match self.kind {
            AppErrorKind::Input => "400 BAD REQUEST - ",
            AppErrorKind::NotFound => "404 NOT FOUND - ",
            AppErrorKind::Rule => "422 UNPROCESSABLE ENTITY - ",
            AppErrorKind::Infrastructure => {
                return String::from_str("502 BAD GATEWAY - infrastructure error");
            },
            AppErrorKind::Unknown => {
                return String::from_str("500 INTERNAL SERVER ERROR - unknown error");
            },
        };
        let mut r = String::from_str(prefix);
        let text = self.text();
        r.append(text.as_str());
        r
    }
}

/// Turns the error of a result into an error of the proxy.
pub trait AppResultExt {
    type Wrapped;

    fn wrap(self, kind: AppErrorKind) -> Self::Wrapped;
}

impl<T> AppResultExt for Result<T, anyhow::Error> {
    type Wrapped = Result<T, AppError>;

    /// The value, or the error as one of `kind`.
    fn wrap(self, kind: AppErrorKind) -> (r: Result<T, AppError>)
        ensures
            match (self, r) {
                (Ok(a), Ok(b)) => a == b,
                (Err(_), Err(e)) => e.kind_spec() == kind,
                _ => false,
            },
    {
        match self {
            Ok(v) => Ok(v),
            Err(e) => Err(AppError::new(kind, e)),
        }
    }
}

/// Turns a value that may be absent into a result that is a not-found
/// error where it is.
pub trait AppOptionExt {
    type Flat;

    fn flat(self) -> Self::Flat;
}

impl<T> AppOptionExt for Option<T> {
    type Flat = Result<T, AppError>;

    /// The value, or a not-found error.
    fn flat(self) -> (r: Result<T, AppError>)
        ensures
            match (self, r) {
                (Some(a), Ok(b)) => a == b,
                (None, Err(e)) => e.kind_spec() == AppErrorKind::NotFound,
                _ => false,
            },
    {
        match self {
            Some(v) => Ok(v),
            None => Err(AppError::not_found()),
        }
    }
}

impl<T> AppOptionExt for Result<Option<T>, AppError> {
    type Flat = Result<T, AppError>;

    /// The value; the error as it is; or a not-found error where there is
    /// no value.
    fn flat(self) -> (r: Result<T, AppError>)
        ensures
            match (self, r) {
                (Ok(Some(a)), Ok(b)) => a == b,
                (Ok(None), Err(e)) => e.kind_spec() == AppErrorKind::NotFound,
                (Err(a), Err(b)) => a == b,
                _ => false,
            },
    {
        match self {
            Ok(Some(v)) => Ok(v),
            Ok(None) => Err(AppError::not_found()),
            Err(e) => Err(e),
        }
    }
}

} // verus!
