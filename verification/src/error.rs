//! The ways in which a call can fail.

use vstd::prelude::*;

verus! {

/// Why no token could be had.
#[derive(Clone, Debug, PartialEq, Eq)]
pub enum AuthError {
    /// The credential provider failed; the text is its own account of it.
    Provider(String),
    /// The credential provider answered, but with no access token.
    MissingAccessToken,
}

/// An `AuthError` as a mathematical value.
pub enum AuthErrorView {
    Provider(Seq<char>),
    MissingAccessToken,
}

impl View for AuthError {
    type V = AuthErrorView;

    open spec fn view(&self) -> AuthErrorView {
        match self {
            AuthError::Provider(text) => AuthErrorView::Provider(text@),
            AuthError::MissingAccessToken => AuthErrorView::MissingAccessToken,
        }
    }
}

/// An error that the server reported: its status code and message.
#[derive(Clone, Debug, PartialEq, Eq)]
pub struct Status {
    pub code: i32,
    pub message: String,
}

/// A `Status` as a mathematical value.
pub struct StatusView {
    pub code: i32,
    pub message: Seq<char>,
}

impl View for Status {
    type V = StatusView;

    open spec fn view(&self) -> StatusView {
        StatusView { code: self.code, message: self.message@ }
    }
}

/// A failure of the client. Nothing is retried or replaced by a default:
/// every failure reaches the caller as one of these.
#[derive(Clone, Debug, PartialEq, Eq)]
pub enum Error {
    /// No usable token could be had.
    Auth(AuthError),
    /// The connection could not be set up, or broke.
    Transport(String),
    /// A token was had, but it cannot be written as request metadata.
    InvalidMetadataValue,
    /// The server answered with an error.
    Status(Status),
}

/// An `Error` as a mathematical value.
pub enum ErrorView {
    Auth(AuthErrorView),
    Transport(Seq<char>),
    InvalidMetadataValue,
    Status(StatusView),
}

impl View for Error {
    type V = ErrorView;

    open spec fn view(&self) -> ErrorView {
        match self {
            Error::Auth(e) => ErrorView::Auth(e@),
            Error::Transport(text) => ErrorView::Transport(text@),
            Error::InvalidMetadataValue => ErrorView::InvalidMetadataValue,
            Error::Status(status) => ErrorView::Status(status@),
        }
    }
}

} // verus!
