//! What can go wrong in a conversation.

use vstd::prelude::*;
use crate::text::{decimal, decimal_text, join2, join3};

verus! {

/// The failures of the engine, by kind.
#[derive(Debug, PartialEq, Eq)]
pub enum ChatError {
    /// The network failed, or the backend answered with a status that is
    /// not a success.
    Transport(String),
    /// The stream was not framed as server-sent events, or a payload was
    /// not the JSON that was expected.  `payload` is the offending text.
    Protocol { reason: String, payload: String },
    /// The model asked for a tool that nobody provides.
    ToolResolution(String),
    /// A tool ran and failed, or refused its parameters.
    ToolExecution(String),
    /// The model kept asking for tools beyond the limit of this many
    /// round trips in one turn.
    ToolLoopExceeded(usize),
}

pub ghost enum ChatErrorView {
    Transport(Seq<char>),
    Protocol { reason: Seq<char>, payload: Seq<char> },
    ToolResolution(Seq<char>),
    ToolExecution(Seq<char>),
    ToolLoopExceeded(nat),
}

impl View for ChatError {
    type V = ChatErrorView;

    open spec fn view(&self) -> ChatErrorView {
        match self {
            ChatError::Transport(message) => ChatErrorView::Transport(message@),
            ChatError::Protocol { reason, payload } => ChatErrorView::Protocol {
                reason: reason@,
                payload: payload@,
            },
            ChatError::ToolResolution(name) => ChatErrorView::ToolResolution(name@),
            ChatError::ToolExecution(message) => ChatErrorView::ToolExecution(message@),
            ChatError::ToolLoopExceeded(limit) => ChatErrorView::ToolLoopExceeded(*limit as nat),
        }
    }
}

impl Clone for ChatError {
    fn clone(&self) -> (r: Self)
        ensures
            r@ == self@,
    {
        match self {
            ChatError::Transport(message) => ChatError::Transport(message.clone()),
            ChatError::Protocol { reason, payload } => ChatError::Protocol {
                reason: reason.clone(),
                payload: payload.clone(),
            },
            ChatError::ToolResolution(name) => ChatError::ToolResolution(name.clone()),
            ChatError::ToolExecution(message) => ChatError::ToolExecution(message.clone()),
            ChatError::ToolLoopExceeded(limit) => ChatError::ToolLoopExceeded(*limit),
        }
    }
}

impl ChatErrorView {
    /// The sentence that reports the error.
    pub open spec fn message(self) -> Seq<char> {
        match self {
            ChatErrorView::Transport(message) => message,
            ChatErrorView::Protocol { reason, payload } => "JSON parse error: "@ + reason
                + " - Data: "@ + payload,
            ChatErrorView::ToolResolution(name) => "Unknown function: "@ + name,
            ChatErrorView::ToolExecution(message) => "Tool execution failed: "@ + message,
            ChatErrorView::ToolLoopExceeded(limit) => "Tool loop exceeded the limit of "@ + decimal(
                limit,
            ) + " iterations"@,
        }
    }
}

impl ChatError {
    /// The sentence that reports the error.
    pub fn message(&self) -> (r: String)
        ensures
            r@ == self@.message(),
    {
        match self {
            ChatError::Transport(message) => message.clone(),
            ChatError::Protocol { reason, payload } => {
                let head = join3("JSON parse error: ", reason.as_str(), " - Data: ");
                join2(head.as_str(), payload.as_str())
            },
            ChatError::ToolResolution(name) => join2("Unknown function: ", name.as_str()),
            ChatError::ToolExecution(message) => join2("Tool execution failed: ", message.as_str()),
            ChatError::ToolLoopExceeded(limit) => {
                let digits = decimal_text(*limit as u64);
                join3("Tool loop exceeded the limit of ", digits.as_str(), " iterations")
            },
        }
    }
}

} // verus!
