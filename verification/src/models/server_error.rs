//! Errors of the commands that work on files.

use std::fmt::Display;
use vstd::prelude::*;
use vstd::string::to_string_from_display_ensures;

verus! {

/// An error of a command: either the user's doing or the application's.
#[derive(Debug, Clone, PartialEq, Eq)]
pub enum ServerError {
    UserError { message: String },
    InternalError { message: String },
}

/// `ServerError` with its message as a sequence of characters.
pub enum ServerErrorView {
    UserError { message: Seq<char> },
    InternalError { message: Seq<char> },
}

impl View for ServerError {
    type V = ServerErrorView;

    open spec fn view(&self) -> ServerErrorView {
        match self {
            ServerError::UserError { message } => ServerErrorView::UserError { message: message@ },
            ServerError::InternalError { message } => ServerErrorView::InternalError {
                message: message@,
            },
        }
    }
}

impl ServerErrorView {
    /// The name of the kind of error.
    pub open spec fn name(self) -> Seq<char> {
        match self {
            ServerErrorView::InternalError { .. } => "InternalError"@,
            ServerErrorView::UserError { .. } => "UserError"@,
        }
    }

    /// The message of the error.
    pub open spec fn message(self) -> Seq<char> {
        match self {
            ServerErrorView::InternalError { message } => message,
            ServerErrorView::UserError { message } => message,
        }
    }
}

impl ServerError {
    /// Get `name` of the error or `type` of error.
    pub fn name(&self) -> (name: String)
        ensures
            name@ == self@.name(),
    {
        match self {
            ServerError::InternalError { message: _ } => "InternalError".to_string(),
            ServerError::UserError { message: _ } => "UserError".to_string(),
        }
    }

    /// Get the error message.
    pub fn message(&self) -> (message: String)
        ensures
            message@ == self@.message(),
    {
        match self {
            ServerError::InternalError { message } => message.clone(),
            ServerError::UserError { message } => message.clone(),
        }
    }
}

/// Wraps any error that can be displayed into an internal error whose
/// message is what the error displays.
pub fn map_to_server_error<T: Display>(e: T) -> (error: ServerError)
    ensures
        error is InternalError,
        to_string_from_display_ensures::<T>(&e, error->InternalError_message),
{
    ServerError::InternalError { message: e.to_string() }
}

} // verus!
