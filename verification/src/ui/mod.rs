//! What the terminal front end keeps of a chat: the kinds of its
//! messages, the mode of its input, and the box that is typed into.

use vstd::prelude::*;
use crate::dispatcher::current_millis;
use crate::gemini::GeminiClient;

pub mod input_box;

verus! {

/// Who a message on the screen comes from.
#[derive(Debug, Clone, Copy, PartialEq, Eq, Structural)]
pub enum MessageType {
    User,
    Assistant,
    Error,
}

/// Whether keys are commands or go into the input.
#[derive(Debug, Clone, Copy, PartialEq, Eq, Structural)]
pub enum InputMode {
    Normal,
    Editing,
}

impl MessageType {
    /// The label under which a message of this kind is shown.
    pub fn label(&self) -> (r: &'static str)
        ensures
            r@ == (match self {
                MessageType::User => "You"@,
                MessageType::Assistant => "Assistant"@,
                MessageType::Error => "Error"@,
            }),
    {
        match self {
            MessageType::User => "You",
            MessageType::Assistant => "Assistant",
            MessageType::Error => "Error",
        }
    }
}

impl InputMode {
    /// The mode after the key that switches modes.
    pub fn toggled(&self) -> (r: InputMode)
        ensures
            r == (match self {
                InputMode::Normal => InputMode::Editing,
                InputMode::Editing => InputMode::Normal,
            }),
    {
        match self {
            InputMode::Normal => InputMode::Editing,
            InputMode::Editing => InputMode::Normal,
        }
    }
}

/// A message on the screen.
#[derive(Debug, PartialEq, Eq)]
pub struct Message {
    pub content: String,
    pub message_type: MessageType,
    /// When the message was made, in milliseconds since the start of 1970.
    pub timestamp: i64,
}

pub ghost struct MessageView {
    pub content: Seq<char>,
    pub message_type: MessageType,
    pub timestamp: i64,
}

impl View for Message {
    type V = MessageView;

    open spec fn view(&self) -> MessageView {
        MessageView {
            content: self.content@,
            message_type: self.message_type,
            timestamp: self.timestamp,
        }
    }
}

/// The message that greets the user.
pub open spec fn welcome() -> Seq<char> {
    "Welcome to Gemini Chat CLI! Press 'i' to start typing, 'q' to quit, 'c' to clear chat."@
}

/// The state of the screen.
pub struct App {
    pub input: String,
    pub input_mode: InputMode,
    pub messages: Vec<Message>,
    pub scroll_offset: usize,
    pub is_loading: bool,
    pub gemini_client: GeminiClient,
}

impl App {
    /// The screen at the start: nothing typed, keys are commands, and one
    /// message, made now, that greets the user.
    pub fn new(gemini_client: GeminiClient) -> (r: Self)
        ensures
            r.input@.len() == 0,
            r.input_mode == InputMode::Normal,
            r.messages.len() == 1,
            r.messages[0]@.content == welcome(),
            r.messages[0]@.message_type == MessageType::Assistant,
            r.scroll_offset == 0,
            !r.is_loading,
            r.gemini_client@ == gemini_client@,
    {
        let mut messages: Vec<Message> = Vec::new();
        messages.push(
            Message {
                content: "Welcome to Gemini Chat CLI! Press 'i' to start typing, 'q' to quit, 'c' to clear chat.".to_string(),
                message_type: MessageType::Assistant,
                timestamp: current_millis(),
            },
        );
        App {
            input: String::new(),
            input_mode: InputMode::Normal,
            messages,
            scroll_offset: 0,
            is_loading: false,
            gemini_client,
        }
    }
}

} // verus!
