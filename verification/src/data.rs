//! The data the session works on: conversations and their messages, the
//! model list, the ephemeral feedback entry, the focus and input-mode
//! states, key events, and the request/result records that cross the
//! boundary to the worker threads.

use vstd::prelude::*;

verus! {

/// Who wrote a message: the local user or the external tool.
#[derive(Clone, Copy, PartialEq, Eq, Structural, Debug)]
pub enum Role {
    User,
    Assistant,
}

/// One immutable entry of a conversation.
#[derive(Debug)]
pub struct Message {
    pub role: Role,
    pub content: String,
}

/// Mathematical image of a [`Message`].
#[verifier::ext_equal]
pub struct MessageView {
    pub role: Role,
    pub content: Seq<char>,
}

impl View for Message {
    type V = MessageView;

    open spec fn view(&self) -> MessageView {
        MessageView { role: self.role, content: self.content@ }
    }
}

/// A named, ordered thread of messages. The identifier is stable for the
/// process lifetime; messages are append-only after the initial bulk load.
#[derive(Debug)]
pub struct Conversation {
    pub id: String,
    pub name: String,
    pub messages: Vec<Message>,
}

/// Mathematical image of a [`Conversation`].
#[verifier::ext_equal]
pub struct ConversationView {
    pub id: Seq<char>,
    pub name: Seq<char>,
    pub messages: Seq<MessageView>,
}

impl View for Conversation {
    type V = ConversationView;

    open spec fn view(&self) -> ConversationView {
        ConversationView {
            id: self.id@,
            name: self.name@,
            messages: self.messages@.map_values(|m: Message| m@),
        }
    }
}

/// One entry of the model list: a short alias and the full model name it
/// stands for.
#[derive(Debug)]
pub struct ModelInfo {
    pub alias: String,
    pub full_name: String,
}

/// Mathematical image of a [`ModelInfo`].
#[verifier::ext_equal]
pub struct ModelInfoView {
    pub alias: Seq<char>,
    pub full_name: Seq<char>,
}

impl View for ModelInfo {
    type V = ModelInfoView;

    open spec fn view(&self) -> ModelInfoView {
        ModelInfoView { alias: self.alias@, full_name: self.full_name@ }
    }
}

/// One record of the external tool's conversation log: a prompt and the
/// response it received, tagged with the conversation it belongs to.
#[derive(Debug)]
pub struct LogEntry {
    pub conversation_id: String,
    pub conversation_name: String,
    pub prompt: String,
    pub response: String,
}

/// Mathematical image of a [`LogEntry`].
#[verifier::ext_equal]
pub struct LogEntryView {
    pub conversation_id: Seq<char>,
    pub conversation_name: Seq<char>,
    pub prompt: Seq<char>,
    pub response: Seq<char>,
}

impl View for LogEntry {
    type V = LogEntryView;

    open spec fn view(&self) -> LogEntryView {
        LogEntryView {
            conversation_id: self.conversation_id@,
            conversation_name: self.conversation_name@,
            prompt: self.prompt@,
            response: self.response@,
        }
    }
}

/// Polarity of a feedback entry.
#[derive(Clone, Copy, PartialEq, Eq, Structural, Debug)]
pub enum FeedbackType {
    Positive,
    Negative,
}

/// The at-most-one ephemeral notification, with its absolute expiry time in
/// milliseconds on the caller's clock.
pub struct FeedbackMessage {
    pub message: String,
    pub feedback_type: FeedbackType,
    pub expires_at_ms: u64,
}

/// Which panel currently receives keyboard input.
#[derive(Clone, Copy, PartialEq, Eq, Structural, Debug)]
pub enum FocusedBlock {
    ConversationList,
    ModelSelect,
    Chat,
    Input,
}

/// The two-state editing machine scoped to the input panel.
#[derive(Clone, Copy, PartialEq, Eq, Structural, Debug)]
pub enum InputMode {
    Normal,
    Editing,
}

/// Coarse session status shown in the status bar.
#[derive(Clone, Copy, PartialEq, Eq, Structural, Debug)]
pub enum AppState {
    Normal,
    Thinking,
}

/// A key event, already decoded from the terminal.
#[derive(Clone, Copy, PartialEq, Eq, Structural, Debug)]
pub enum Key {
    Char(char),
    Up,
    Down,
    Left,
    Right,
    Enter,
    Backspace,
    Esc,
    Tab,
}

/// Why copying the selected message to the clipboard failed.
#[derive(Clone, Copy, PartialEq, Eq, Structural, Debug)]
pub enum CopyError {
    NothingSelected,
    ClipboardFailed,
}

impl CopyError {
    /// The feedback text for this failure.
    pub fn describe(&self) -> (r: &'static str)
        ensures
            *self == CopyError::NothingSelected ==> r@ == "Failed to copy: No message selected"@,
            *self == CopyError::ClipboardFailed ==> r@ == "Failed to copy: clipboard error"@,
    {
        match self {
            CopyError::NothingSelected => "Failed to copy: No message selected",
            CopyError::ClipboardFailed => "Failed to copy: clipboard error",
        }
    }
}

/// Everything a detached worker needs for one external invocation, captured
/// at send time. The conversation index binds the eventual result to the
/// conversation that was current at dispatch, not at arrival.
pub struct PendingRequest {
    pub conversation: usize,
    pub prompt: String,
    pub model_alias: String,
}

/// The one message a worker delivers back on the inference channel.
pub struct InferenceResult {
    pub conversation: usize,
    pub content: String,
}

/// What one key event asked of the surrounding loop: stop the program,
/// and/or dispatch a captured request to a fresh worker.
pub struct KeyOutcome {
    pub quit: bool,
    pub request: Option<PendingRequest>,
}

} // verus!
