//! A command to try the plumbing out.

use vstd::prelude::*;
use vstd::string::StrSliceExecFns;

verus! {

/// The key under which the last message is stored.
pub const MESSAGE_KEY: &'static str = "message";

/// The answer that gives the message back.
#[derive(Debug, Clone, PartialEq, Eq)]
pub struct Response {
    pub message: String,
}

/// What the command does with a message: the message to store, if any, and
/// the answer.
#[derive(Debug, Clone, PartialEq, Eq)]
pub struct CustomCommand {
    /// The message to store under `MESSAGE_KEY`.
    pub store: Option<String>,
    /// The answer to hand back.
    pub response: Response,
}

/// Takes a message from the window: a message that is not empty is stored,
/// and every message is handed back as it came.
pub fn my_custom_command(message: String) -> (command: CustomCommand)
    ensures
        command.response.message@ == message@,
        command.store.deep_view() == if message@.len() > 0 {
            Some(message@)
        } else {
            None
        },
{
    let store = if message.as_str().unicode_len() > 0 {
        Some(message.clone())
    } else {
        None
    };
    CustomCommand { store, response: Response { message } }
}

} // verus!
