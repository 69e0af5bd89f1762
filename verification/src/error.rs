//! The library's error type.

use vstd::prelude::*;

verus! {

/// Top-level error type for the application; outside errors arrive here as
/// their messages.
#[derive(Debug, PartialEq, Eq)]
pub enum AppError {
    /// HTTP request failed.
    Http(String),
    /// The mihomo API returned a non-2xx status code.
    Api { status: u16, message: String },
    /// Failed to connect or communicate over WebSocket.
    WebSocket(String),
    /// JSON decoding or encoding failed.
    Json(String),
    /// YAML decoding or encoding failed.
    Yaml(String),
    /// Invalid or unreadable configuration.
    Config(String),
    /// Reading or writing a file failed.
    Io(String),
    /// A required file was not found.
    FileNotFound(String),
    /// Invalid command-line argument.
    Arg(String),
    /// Any other failure, with its message.
    Other(String),
}

/// An [`AppError`] with its messages as character sequences.
pub enum ErrorView {
    Http(Seq<char>),
    Api { status: u16, message: Seq<char> },
    WebSocket(Seq<char>),
    Json(Seq<char>),
    Yaml(Seq<char>),
    Config(Seq<char>),
    Io(Seq<char>),
    FileNotFound(Seq<char>),
    Arg(Seq<char>),
    Other(Seq<char>),
}

impl View for AppError {
    type V = ErrorView;

    open spec fn view(&self) -> ErrorView {
        match self {
            AppError::Http(m) => ErrorView::Http(m@),
            AppError::Api { status, message } => ErrorView::Api { status: *status, message: message@ },
            AppError::WebSocket(m) => ErrorView::WebSocket(m@),
            AppError::Json(m) => ErrorView::Json(m@),
            AppError::Yaml(m) => ErrorView::Yaml(m@),
            AppError::Config(m) => ErrorView::Config(m@),
            AppError::Io(m) => ErrorView::Io(m@),
            AppError::FileNotFound(m) => ErrorView::FileNotFound(m@),
            AppError::Arg(m) => ErrorView::Arg(m@),
            AppError::Other(m) => ErrorView::Other(m@),
        }
    }
}

} // verus!
