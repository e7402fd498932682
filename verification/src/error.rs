//! Errors of the client and the message that each one shows.
use crate::text::cat;
use vstd::prelude::*;

verus! {

/// What went wrong, with the details of it.
pub enum AppError {
    Io(String),
    Http(String),
    Json(String),
    Url(String),
    Zip(String),
    WebSocket(String),
    InvalidInput(String),
    Auth(String),
    Api(String),
    Config(String),
    Binary(String),
    Process(String),
    Tauri(String),
    Unsupported(String),
}

pub type AppResult<T> = Result<T, AppError>;

/// What an error says.
pub enum ErrorView {
    Io(Seq<char>),
    Http(Seq<char>),
    Json(Seq<char>),
    Url(Seq<char>),
    Zip(Seq<char>),
    WebSocket(Seq<char>),
    InvalidInput(Seq<char>),
    Auth(Seq<char>),
    Api(Seq<char>),
    Config(Seq<char>),
    Binary(Seq<char>),
    Process(Seq<char>),
    Tauri(Seq<char>),
    Unsupported(Seq<char>),
}

impl View for AppError {
    type V = ErrorView;

    open spec fn view(&self) -> ErrorView {
        match self {
            AppError::Io(s) => ErrorView::Io(s@),
            AppError::Http(s) => ErrorView::Http(s@),
            AppError::Json(s) => ErrorView::Json(s@),
            AppError::Url(s) => ErrorView::Url(s@),
            AppError::Zip(s) => ErrorView::Zip(s@),
            AppError::WebSocket(s) => ErrorView::WebSocket(s@),
            AppError::InvalidInput(s) => ErrorView::InvalidInput(s@),
            AppError::Auth(s) => ErrorView::Auth(s@),
            AppError::Api(s) => ErrorView::Api(s@),
            AppError::Config(s) => ErrorView::Config(s@),
            AppError::Binary(s) => ErrorView::Binary(s@),
            AppError::Process(s) => ErrorView::Process(s@),
            AppError::Tauri(s) => ErrorView::Tauri(s@),
            AppError::Unsupported(s) => ErrorView::Unsupported(s@),
        }
    }
}

impl ErrorView {
    /// The message that users see: the kind of the error, then its details.
    pub open spec fn shown(self) -> Seq<char> {
        match self {
            ErrorView::Io(s) => "I/O error: "@ + s,
            ErrorView::Http(s) => "HTTP error: "@ + s,
            ErrorView::Json(s) => "JSON error: "@ + s,
            ErrorView::Url(s) => "URL error: "@ + s,
            ErrorView::Zip(s) => "ZIP error: "@ + s,
            ErrorView::WebSocket(s) => "WebSocket error: "@ + s,
            ErrorView::InvalidInput(s) => "invalid input: "@ + s,
            ErrorView::Auth(s) => "authentication error: "@ + s,
            ErrorView::Api(s) => "API error: "@ + s,
            ErrorView::Config(s) => "configuration error: "@ + s,
            ErrorView::Binary(s) => "binary error: "@ + s,
            ErrorView::Process(s) => "process error: "@ + s,
            ErrorView::Tauri(s) => "Tauri error: "@ + s,
            ErrorView::Unsupported(s) => "unsupported operation: "@ + s,
        }
    }
}

impl AppError {
    /// The message that users see.
    pub fn message(&self) -> (r: String)
        ensures
            r@ == self@.shown(),
    {
        match self {
            AppError::Io(s) => cat("I/O error: ", s),
            AppError::Http(s) => cat("HTTP error: ", s),
            AppError::Json(s) => cat("JSON error: ", s),
            AppError::Url(s) => cat("URL error: ", s),
            AppError::Zip(s) => cat("ZIP error: ", s),
            AppError::WebSocket(s) => cat("WebSocket error: ", s),
            AppError::InvalidInput(s) => cat("invalid input: ", s),
            AppError::Auth(s) => cat("authentication error: ", s),
            AppError::Api(s) => cat("API error: ", s),
            AppError::Config(s) => cat("configuration error: ", s),
            AppError::Binary(s) => cat("binary error: ", s),
            AppError::Process(s) => cat("process error: ", s),
            AppError::Tauri(s) => cat("Tauri error: ", s),
            AppError::Unsupported(s) => cat("unsupported operation: ", s),
        }
    }
}

/// What a result says, by the views of its two sides.
pub open spec fn outcome<T: View>(r: AppResult<T>) -> Result<T::V, ErrorView> {
    match r {
        Ok(v) => Ok(v@),
        Err(e) => Err(e@),
    }
}

/// What a result says, with its value as it is.
pub open spec fn plain<T>(r: AppResult<T>) -> Result<T, ErrorView> {
    match r {
        Ok(v) => Ok(v),
        Err(e) => Err(e@),
    }
}

/// An [`AppError::InvalidInput`] with the given details.
pub fn invalid(details: &str) -> (r: AppError)
    ensures
        r@ == ErrorView::InvalidInput(details@),
{
    AppError::InvalidInput(details.to_owned())
}

/// An error is shown with what it says at the end, and its kind in front of it.
pub proof fn errors_show_what_they_say(s: Seq<char>)
    ensures
        ErrorView::Process(s).shown() == "process error: "@ + s,
        ErrorView::InvalidInput(s).shown() == "invalid input: "@ + s,
        ErrorView::Auth(s).shown() == "authentication error: "@ + s,
        ErrorView::Api(s).shown() == "API error: "@ + s,
        ErrorView::Config(s).shown() == "configuration error: "@ + s,
        ErrorView::Binary(s).shown() == "binary error: "@ + s,
        ErrorView::Io(s).shown() == "I/O error: "@ + s,
        ErrorView::Http(s).shown() == "HTTP error: "@ + s,
        ErrorView::Json(s).shown() == "JSON error: "@ + s,
        ErrorView::Url(s).shown() == "URL error: "@ + s,
        ErrorView::Zip(s).shown() == "ZIP error: "@ + s,
        ErrorView::WebSocket(s).shown() == "WebSocket error: "@ + s,
        ErrorView::Tauri(s).shown() == "Tauri error: "@ + s,
        ErrorView::Unsupported(s).shown() == "unsupported operation: "@ + s,
{
}

} // verus!
