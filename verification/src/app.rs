//! The session state container: the single authoritative owner of
//! everything the interface displays and everything background actors
//! report into. The surrounding loop holds it under one exclusive lock,
//! calls one operation at a time, and performs the blocking work (worker
//! threads, rendering, the input poll) outside.
//!
//! Results of dispatched prompts are bound to the conversation that was
//! current at dispatch time: the index travels with the request to the
//! worker and comes back in the result, so a result is appended to that
//! conversation even if the selection moved while the worker ran. The
//! message list only scrolls when the result lands in the conversation
//! being viewed.

use vstd::prelude::*;
use vstd::string::StringExecFns;
use crate::channels::{
    clone_remote_sender, clone_result_sender, new_remote_channel, new_result_channel,
    try_recv_remote, try_recv_result,
};
use crate::clipboard::clipboard_set;
use crate::data::{
    AppState, Conversation, ConversationView, CopyError, FeedbackMessage, FeedbackType,
    FocusedBlock, InferenceResult, InputMode, Key, KeyOutcome, Message, MessageView, ModelInfo,
    PendingRequest, Role,
};
use crate::text::{chars_to_string, str_to_chars, usize_to_string};
use crate::text::decimal_of;

verus! {

/// How long a feedback entry stays visible, in milliseconds.
pub const FEEDBACK_TTL_MS: u64 = 5000;

/// The session state container.
pub struct App {
    /// The input buffer, one character per element.
    pub input: Vec<char>,
    /// Where the next typed character goes; always within the buffer.
    pub cursor: usize,
    pub input_mode: InputMode,
    pub focused_block: FocusedBlock,
    pub conversations: Vec<Conversation>,
    /// The selected conversation, or none before the first selection.
    pub current_conversation_index: Option<usize>,
    pub models: Vec<ModelInfo>,
    /// The selected model; zero (also) when the model list is empty.
    pub model_index: usize,
    pub show_conversation_list: bool,
    /// The highlighted message of the current conversation, if any.
    pub chat_selected: Option<usize>,
    pub feedback: Option<FeedbackMessage>,
    pub state: AppState,
    pub tx: std::sync::mpsc::Sender<InferenceResult>,
    pub rx: std::sync::mpsc::Receiver<InferenceResult>,
    pub remote_command_tx: crossbeam_channel::Sender<String>,
    pub remote_command_rx: crossbeam_channel::Receiver<String>,
}

impl App {
    /// Well-formedness: selections point into their lists and the cursor
    /// stays within the input buffer.
    pub open spec fn wf(self) -> bool {
        &&& (self.current_conversation_index is Some
            ==> (self.current_conversation_index->0 as int) < self.conversations@.len())
        &&& (self.models@.len() == 0 ==> self.model_index == 0)
        &&& (self.models@.len() > 0 ==> (self.model_index as int) < self.models@.len())
        &&& self.cursor <= self.input@.len()
    }
}

/// One step forward in a circular list of length `len`, wrapping from the
/// end to the start. Tolerates a stale index at or beyond the end, which
/// also wraps to the start.
pub open spec fn wrap_next(i: int, len: int) -> int {
    if i + 1 >= len {
        0
    } else {
        i + 1
    }
}

/// One step backward in a circular list of length `len`, wrapping from the
/// start to the end.
pub open spec fn wrap_prev(i: int, len: int) -> int {
    if i == 0 {
        len - 1
    } else {
        i - 1
    }
}

/// Advancing a selection: an absent selection lands on the first element.
pub open spec fn next_sel(sel: Option<usize>, len: int) -> Option<usize> {
    match sel {
        Some(i) => Some(wrap_next(i as int, len) as usize),
        None => Some(0usize),
    }
}

/// Retreating a selection: an absent selection lands on the first element.
pub open spec fn prev_sel(sel: Option<usize>, len: int) -> Option<usize> {
    match sel {
        Some(i) => Some(wrap_prev(i as int, len) as usize),
        None => Some(0usize),
    }
}

/// The focus reached by one explicit advance, cycling through the panels
/// that are visible: the conversation and model panels take part only
/// while the list column is shown.
pub open spec fn next_focus_spec(f: FocusedBlock, show: bool) -> FocusedBlock {
    match f {
        FocusedBlock::ConversationList => if show {
            FocusedBlock::ModelSelect
        } else {
            FocusedBlock::Chat
        },
        FocusedBlock::ModelSelect => if show {
            FocusedBlock::Chat
        } else {
            FocusedBlock::Input
        },
        FocusedBlock::Chat => FocusedBlock::Input,
        FocusedBlock::Input => if show {
            FocusedBlock::ConversationList
        } else {
            FocusedBlock::Chat
        },
    }
}

/// The state after one explicit focus advance, which also leaves editing.
pub open spec fn next_focus_target(pre: App) -> App {
    App {
        focused_block: next_focus_spec(pre.focused_block, pre.show_conversation_list),
        input_mode: InputMode::Normal,
        ..pre
    }
}

/// The state after showing or hiding the list column: if the focused panel
/// just became hidden, the focus advances to a visible one.
pub open spec fn toggle_list_target(pre: App) -> App {
    let shown = !pre.show_conversation_list;
    if !shown && (pre.focused_block == FocusedBlock::ConversationList || pre.focused_block
        == FocusedBlock::ModelSelect) {
        App {
            show_conversation_list: shown,
            focused_block: next_focus_spec(pre.focused_block, shown),
            input_mode: InputMode::Normal,
            ..pre
        }
    } else {
        App { show_conversation_list: shown, ..pre }
    }
}

/// Advancing the conversation selection: circular on a non-empty list, a
/// no-op on an empty one.
pub open spec fn next_conversation_rel(pre: App, post: App) -> bool {
    if pre.conversations@.len() == 0 {
        post == pre
    } else {
        post == (App {
            current_conversation_index: next_sel(
                pre.current_conversation_index,
                pre.conversations@.len() as int,
            ),
            ..pre
        })
    }
}

/// Retreating the conversation selection: circular on a non-empty list, a
/// no-op on an empty one.
pub open spec fn previous_conversation_rel(pre: App, post: App) -> bool {
    if pre.conversations@.len() == 0 {
        post == pre
    } else {
        post == (App {
            current_conversation_index: prev_sel(
                pre.current_conversation_index,
                pre.conversations@.len() as int,
            ),
            ..pre
        })
    }
}

/// Advancing the model selection: circular on a non-empty list, a no-op on
/// an empty one.
pub open spec fn next_model_rel(pre: App, post: App) -> bool {
    if pre.models@.len() == 0 {
        post == pre
    } else {
        post == (App {
            model_index: wrap_next(pre.model_index as int, pre.models@.len() as int) as usize,
            ..pre
        })
    }
}

/// Retreating the model selection: circular on a non-empty list, a no-op
/// on an empty one.
pub open spec fn previous_model_rel(pre: App, post: App) -> bool {
    if pre.models@.len() == 0 {
        post == pre
    } else {
        post == (App {
            model_index: wrap_prev(pre.model_index as int, pre.models@.len() as int) as usize,
            ..pre
        })
    }
}

/// A conversation extended by one message.
pub open spec fn with_message(c: ConversationView, m: MessageView) -> ConversationView {
    ConversationView { id: c.id, name: c.name, messages: c.messages.push(m) }
}

/// A prompt cannot be submitted: no conversation is selected, or there is
/// no model to send it to.
pub open spec fn submit_noop(pre: App) -> bool {
    pre.current_conversation_index is None || pre.models@.len() == 0
}

/// Submitting the input buffer as a prompt, leaving the input mode at
/// `mode`: when a conversation is selected and a model exists, the buffer
/// becomes a user message of that conversation, the buffer clears, the
/// session starts thinking, and one request carrying the prompt, the
/// selected model's alias and the selected conversation's index is handed
/// out; otherwise nothing changes (beyond the input mode).
pub open spec fn submitted(pre: App, post: App, r: Option<PendingRequest>, mode: InputMode) -> bool {
    if submit_noop(pre) {
        &&& post == (App { input_mode: mode, ..pre })
        &&& r is None
    } else {
        let i = pre.current_conversation_index->0 as int;
        &&& post == (App {
            input: post.input,
            cursor: 0usize,
            conversations: post.conversations,
            state: AppState::Thinking,
            input_mode: mode,
            ..pre
        })
        &&& post.input@ == Seq::<char>::empty()
        &&& post.conversations@.len() == pre.conversations@.len()
        &&& (forall|j: int|
            0 <= j < pre.conversations@.len() && j != i ==> post.conversations@[j]
                == pre.conversations@[j])
        &&& post.conversations@[i]@ == with_message(
            pre.conversations@[i]@,
            MessageView { role: Role::User, content: pre.input@ },
        )
        &&& r is Some
        &&& (r->0).conversation == pre.current_conversation_index->0
        &&& (r->0).prompt@ == pre.input@
        &&& (r->0).model_alias@ == pre.models@[pre.model_index as int].alias@
    }
}

/// A fresh conversation appended and selected, with the focus left at
/// `focus`: its identifier is the decimal rendering of the previous count,
/// its name derives from that identifier, and it starts empty.
pub open spec fn new_conversation_rel(pre: App, post: App, focus: FocusedBlock) -> bool {
    let n = pre.conversations@.len() as int;
    &&& post == (App {
        conversations: post.conversations,
        current_conversation_index: Some(pre.conversations@.len() as usize),
        focused_block: focus,
        ..pre
    })
    &&& post.conversations@.len() == n + 1
    &&& post.conversations@.take(n) == pre.conversations@
    &&& post.conversations@[n]@.id == decimal_of(n)
    &&& post.conversations@[n]@.name == "New Conversation "@ + decimal_of(n)
    &&& post.conversations@[n]@.messages == Seq::<MessageView>::empty()
}

/// The message selection moved to the last message of the current
/// conversation, when there is one.
pub open spec fn scrolled_to_bottom(pre: App, post: App) -> bool {
    match pre.current_conversation_index {
        Some(i) => {
            let len = pre.conversations@[i as int]@.messages.len() as int;
            if len > 0 {
                post == (App { chat_selected: Some((len - 1) as usize), ..pre })
            } else {
                post == pre
            }
        },
        None => post == pre,
    }
}

/// Advancing the message selection within the current conversation:
/// circular when it has messages, a no-op otherwise.
pub open spec fn next_message_rel(pre: App, post: App) -> bool {
    match pre.current_conversation_index {
        None => post == pre,
        Some(i) => {
            let len = pre.conversations@[i as int]@.messages.len() as int;
            if len == 0 {
                post == pre
            } else {
                post == (App { chat_selected: next_sel(pre.chat_selected, len), ..pre })
            }
        },
    }
}

/// Retreating the message selection within the current conversation:
/// circular when it has messages, a no-op otherwise.
pub open spec fn previous_message_rel(pre: App, post: App) -> bool {
    match pre.current_conversation_index {
        None => post == pre,
        Some(i) => {
            let len = pre.conversations@[i as int]@.messages.len() as int;
            if len == 0 {
                post == pre
            } else {
                post == (App { chat_selected: prev_sel(pre.chat_selected, len), ..pre })
            }
        },
    }
}

/// One inference result folded into the session: the content becomes an
/// assistant message of the conversation the result is bound to, the
/// session stops thinking, and the view scrolls to the new message when
/// that conversation is the one being viewed. A result bound to no valid
/// conversation changes nothing.
pub open spec fn inference_applied(pre: App, post: App, res: InferenceResult) -> bool {
    if (res.conversation as int) < pre.conversations@.len() {
        let i = res.conversation as int;
        let oldlen = pre.conversations@[i]@.messages.len() as int;
        &&& post == (App {
            conversations: post.conversations,
            state: AppState::Normal,
            chat_selected: post.chat_selected,
            ..pre
        })
        &&& post.conversations@.len() == pre.conversations@.len()
        &&& (forall|j: int|
            0 <= j < pre.conversations@.len() && j != i ==> post.conversations@[j]
                == pre.conversations@[j])
        &&& post.conversations@[i]@ == with_message(
            pre.conversations@[i]@,
            MessageView { role: Role::Assistant, content: res.content@ },
        )
        &&& post.chat_selected == (if pre.current_conversation_index == Some(res.conversation) {
            Some(oldlen as usize)
        } else {
            pre.chat_selected
        })
    } else {
        post == pre
    }
}

/// A feedback entry with the given text and polarity was installed at
/// `now`, and nothing else changed.
pub open spec fn feedback_set_rel(
    pre: App,
    post: App,
    msg: Seq<char>,
    kind: FeedbackType,
    now: u64,
) -> bool {
    &&& post == (App { feedback: post.feedback, ..pre })
    &&& post.feedback is Some
    &&& (post.feedback->0).message@ == msg
    &&& (post.feedback->0).feedback_type == kind
    &&& (post.feedback->0).expires_at_ms == now + FEEDBACK_TTL_MS
}

/// The lazy-expiry step at time `now`: an entry whose expiry has passed is
/// cleared; otherwise nothing changes.
pub open spec fn feedback_update_rel(pre: App, post: App, now: u64) -> bool {
    match pre.feedback {
        Some(f) => if now > f.expires_at_ms {
            post == (App { feedback: None, ..pre })
        } else {
            post == pre
        },
        None => post == pre,
    }
}

/// One remote command folded into the session at time `now`: the command
/// text replaces the input buffer and is submitted exactly as if it had
/// been typed and sent, and a positive feedback entry is raised — also
/// when no conversation is selected and the submission therefore does
/// nothing.
pub open spec fn remote_applied(
    pre: App,
    post: App,
    cmd: Seq<char>,
    now: u64,
    r: Option<PendingRequest>,
) -> bool {
    &&& post.feedback is Some
    &&& (post.feedback->0).message@ == "Remote message received and sent!"@
    &&& (post.feedback->0).feedback_type == FeedbackType::Positive
    &&& (post.feedback->0).expires_at_ms == now + FEEDBACK_TTL_MS
    &&& if submit_noop(pre) {
        &&& post == (App {
            input: post.input,
            cursor: post.cursor,
            feedback: post.feedback,
            ..pre
        })
        &&& post.input@ == cmd
        &&& post.cursor == cmd.len()
        &&& r is None
    } else {
        let i = pre.current_conversation_index->0 as int;
        &&& post == (App {
            input: post.input,
            cursor: 0usize,
            conversations: post.conversations,
            state: AppState::Thinking,
            feedback: post.feedback,
            ..pre
        })
        &&& post.input@ == Seq::<char>::empty()
        &&& post.conversations@.len() == pre.conversations@.len()
        &&& (forall|j: int|
            0 <= j < pre.conversations@.len() && j != i ==> post.conversations@[j]
                == pre.conversations@[j])
        &&& post.conversations@[i]@ == with_message(
            pre.conversations@[i]@,
            MessageView { role: Role::User, content: cmd },
        )
        &&& r is Some
        &&& (r->0).conversation == pre.current_conversation_index->0
        &&& (r->0).prompt@ == cmd
        &&& (r->0).model_alias@ == pre.models@[pre.model_index as int].alias@
    }
}

/// A message of the current conversation is highlighted.
pub open spec fn has_message_selected(app: App) -> bool {
    &&& app.current_conversation_index is Some
    &&& app.chat_selected is Some
    &&& (app.chat_selected->0 as int) < app.conversations@[app.current_conversation_index->0
        as int]@.messages.len()
}

/// The feedback raised by the copy action at time `now`: negative with a
/// fixed text when nothing is selected, otherwise positive on success and
/// negative when the clipboard call failed.
pub open spec fn copy_feedback_rel(pre: App, post: App, now: u64) -> bool {
    if !has_message_selected(pre) {
        feedback_set_rel(
            pre,
            post,
            "Failed to copy: No message selected"@,
            FeedbackType::Negative,
            now,
        )
    } else {
        feedback_set_rel(pre, post, "Message copied successfully!"@, FeedbackType::Positive, now)
            || feedback_set_rel(
            pre,
            post,
            "Failed to copy: clipboard error"@,
            FeedbackType::Negative,
            now,
        )
    }
}

/// No request handed out and no quit asked for.
pub open spec fn quiet(out: KeyOutcome) -> bool {
    !out.quit && out.request is None
}

/// The full dispatch table of the focus and input-mode machines: what one
/// key event does to the session, given the focused panel and, within the
/// input panel, the editing mode.
pub open spec fn key_transition(pre: App, key: Key, now: u64, post: App, out: KeyOutcome) -> bool {
    match pre.focused_block {
        FocusedBlock::ConversationList => match key {
            Key::Char('j') | Key::Down => next_conversation_rel(pre, post) && quiet(out),
            Key::Char('k') | Key::Up => previous_conversation_rel(pre, post) && quiet(out),
            Key::Enter => post == (App { focused_block: FocusedBlock::Chat, ..pre }) && quiet(out),
            Key::Char('n') => new_conversation_rel(pre, post, FocusedBlock::Input) && quiet(out),
            Key::Tab => post == next_focus_target(pre) && quiet(out),
            Key::Char('h') => post == toggle_list_target(pre) && quiet(out),
            Key::Char('i') => post == (App {
                focused_block: FocusedBlock::Input,
                input_mode: InputMode::Editing,
                ..pre
            }) && quiet(out),
            Key::Char('q') => post == pre && out.quit && out.request is None,
            _ => post == pre && quiet(out),
        },
        FocusedBlock::ModelSelect => match key {
            Key::Char('j') | Key::Down => next_model_rel(pre, post) && quiet(out),
            Key::Char('k') | Key::Up => previous_model_rel(pre, post) && quiet(out),
            Key::Tab => post == next_focus_target(pre) && quiet(out),
            Key::Char('h') => post == toggle_list_target(pre) && quiet(out),
            Key::Char('i') => post == (App {
                focused_block: FocusedBlock::Input,
                input_mode: InputMode::Editing,
                ..pre
            }) && quiet(out),
            Key::Char('q') => post == pre && out.quit && out.request is None,
            _ => post == pre && quiet(out),
        },
        FocusedBlock::Chat => match key {
            Key::Tab => post == next_focus_target(pre) && quiet(out),
            Key::Char('h') => post == toggle_list_target(pre) && quiet(out),
            Key::Char('j') | Key::Down => next_message_rel(pre, post) && quiet(out),
            Key::Char('k') | Key::Up => previous_message_rel(pre, post) && quiet(out),
            Key::Char('i') => post == (App {
                focused_block: FocusedBlock::Input,
                input_mode: InputMode::Editing,
                ..pre
            }) && quiet(out),
            Key::Char('y') => copy_feedback_rel(pre, post, now) && quiet(out),
            Key::Char('q') => post == pre && out.quit && out.request is None,
            _ => post == pre && quiet(out),
        },
        FocusedBlock::Input => match pre.input_mode {
            InputMode::Normal => match key {
                Key::Char('i') => post == (App { input_mode: InputMode::Editing, ..pre }) && quiet(
                    out,
                ),
                Key::Tab => post == next_focus_target(pre) && quiet(out),
                Key::Char('h') => post == toggle_list_target(pre) && quiet(out),
                Key::Char('q') => post == pre && out.quit && out.request is None,
                _ => post == pre && quiet(out),
            },
            InputMode::Editing => match key {
                Key::Enter => submitted(pre, post, out.request, InputMode::Normal) && !out.quit,
                Key::Char(c) => insert_char_rel(pre, post, c) && quiet(out),
                Key::Backspace => backspace_rel(pre, post) && quiet(out),
                Key::Esc => post == (App { input_mode: InputMode::Normal, ..pre }) && quiet(out),
                Key::Tab => post == next_focus_target(pre) && quiet(out),
                Key::Left => post == (App {
                    cursor: (if pre.cursor > 0 {
                        pre.cursor - 1
                    } else {
                        0
                    }) as usize,
                    ..pre
                }) && quiet(out),
                Key::Right => post == (App {
                    cursor: (if (pre.cursor as int) < pre.input@.len() {
                        pre.cursor + 1
                    } else {
                        pre.cursor as int
                    }) as usize,
                    ..pre
                }) && quiet(out),
                _ => post == pre && quiet(out),
            },
        },
    }
}

/// One character inserted at the cursor.
pub open spec fn insert_char_rel(pre: App, post: App, c: char) -> bool {
    &&& post == (App { input: post.input, cursor: (pre.cursor + 1) as usize, ..pre })
    &&& post.input@ == pre.input@.insert(pre.cursor as int, c)
}

/// The character before the cursor removed; nothing happens at the start
/// of the buffer.
pub open spec fn backspace_rel(pre: App, post: App) -> bool {
    if pre.cursor > 0 {
        &&& post == (App { input: post.input, cursor: (pre.cursor - 1) as usize, ..pre })
        &&& post.input@ == pre.input@.remove(pre.cursor - 1)
    } else {
        post == pre
    }
}

impl App {
    /// A fresh session over the given bulk-loaded conversations and the
    /// model list, with both channels newly created.
    pub fn new(conversations: Vec<Conversation>, models: Vec<ModelInfo>) -> (app: App)
        ensures
            app.wf(),
            app.conversations == conversations,
            app.models == models,
            app.input@ == Seq::<char>::empty(),
            app.cursor == 0,
            app.input_mode == InputMode::Normal,
            app.focused_block == FocusedBlock::ConversationList,
            app.current_conversation_index is None,
            app.model_index == 0,
            app.show_conversation_list == false,
            app.chat_selected is None,
            app.feedback is None,
            app.state == AppState::Normal,
    {
        let (tx, rx) = new_result_channel();
        let (remote_command_tx, remote_command_rx) = new_remote_channel();
        App {
            input: Vec::new(),
            cursor: 0,
            input_mode: InputMode::Normal,
            focused_block: FocusedBlock::ConversationList,
            conversations,
            current_conversation_index: None,
            models,
            model_index: 0,
            show_conversation_list: false,
            chat_selected: None,
            feedback: None,
            state: AppState::Normal,
            tx,
            rx,
            remote_command_tx,
            remote_command_rx,
        }
    }

    /// A handle on which workers deliver inference results.
    pub fn inference_sender(&self) -> std::sync::mpsc::Sender<InferenceResult> {
        clone_result_sender(&self.tx)
    }

    /// A handle on which connection handlers deliver remote commands.
    pub fn remote_sender(&self) -> crossbeam_channel::Sender<String> {
        clone_remote_sender(&self.remote_command_tx)
    }

    /// Leaves editing, keeping everything else.
    pub fn exit_edit_mode(&mut self)
        ensures
            *final(self) == (App { input_mode: InputMode::Normal, ..*old(self) }),
    {
        if let InputMode::Editing = self.input_mode {
            self.input_mode = InputMode::Normal;
        } else {
            self.input_mode = InputMode::Normal;
        }
    }

    /// One explicit focus advance; also leaves editing.
    pub fn next_focus(&mut self)
        ensures
            *final(self) == next_focus_target(*old(self)),
    {
        self.exit_edit_mode();
        self.focused_block = match self.focused_block {
            FocusedBlock::ConversationList => if self.show_conversation_list {
                FocusedBlock::ModelSelect
            } else {
                FocusedBlock::Chat
            },
            FocusedBlock::ModelSelect => if self.show_conversation_list {
                FocusedBlock::Chat
            } else {
                FocusedBlock::Input
            },
            FocusedBlock::Chat => FocusedBlock::Input,
            FocusedBlock::Input => if self.show_conversation_list {
                FocusedBlock::ConversationList
            } else {
                FocusedBlock::Chat
            },
        };
    }

    /// Advances the conversation selection circularly; a no-op on an empty
    /// list, which in particular never underflows.
    pub fn next_conversation(&mut self)
        requires
            old(self).wf(),
        ensures
            final(self).wf(),
            next_conversation_rel(*old(self), *final(self)),
    {
        if self.conversations.len() == 0 {
            return ;
        }
        let len = self.conversations.len();
        let i = match self.current_conversation_index {
            Some(i) => if i >= len - 1 {
                0
            } else {
                i + 1
            },
            None => 0,
        };
        self.current_conversation_index = Some(i);
    }

    /// Retreats the conversation selection circularly; a no-op on an empty
    /// list.
    pub fn previous_conversation(&mut self)
        requires
            old(self).wf(),
        ensures
            final(self).wf(),
            previous_conversation_rel(*old(self), *final(self)),
    {
        if self.conversations.len() == 0 {
            return ;
        }
        let len = self.conversations.len();
        let i = match self.current_conversation_index {
            Some(i) => if i == 0 {
                len - 1
            } else {
                i - 1
            },
            None => 0,
        };
        self.current_conversation_index = Some(i);
    }

    /// Advances the model selection circularly; a no-op on an empty list.
    pub fn next_model(&mut self)
        requires
            old(self).wf(),
        ensures
            final(self).wf(),
            next_model_rel(*old(self), *final(self)),
    {
        if self.models.len() == 0 {
            return ;
        }
        let len = self.models.len();
        self.model_index = if self.model_index >= len - 1 {
            0
        } else {
            self.model_index + 1
        };
    }

    /// Retreats the model selection circularly; a no-op on an empty list.
    pub fn previous_model(&mut self)
        requires
            old(self).wf(),
        ensures
            final(self).wf(),
            previous_model_rel(*old(self), *final(self)),
    {
        if self.models.len() == 0 {
            return ;
        }
        let len = self.models.len();
        self.model_index = if self.model_index == 0 {
            len - 1
        } else {
            self.model_index - 1
        };
    }

    /// Shows or hides the conversation/model column.
    pub fn toggle_conversation_list(&mut self)
        ensures
            *final(self) == toggle_list_target(*old(self)),
    {
        self.show_conversation_list = !self.show_conversation_list;
        if !self.show_conversation_list && (match self.focused_block {
            FocusedBlock::ConversationList => true,
            FocusedBlock::ModelSelect => true,
            _ => false,
        }) {
            self.next_focus();
        }
    }

    /// Submits the input buffer as a prompt to the selected conversation,
    /// capturing the selected model's alias; the returned request, if any,
    /// is to be handed to a detached worker. A no-op without a selected
    /// conversation or with an empty model list.
    pub fn send_message(&mut self) -> (r: Option<PendingRequest>)
        requires
            old(self).wf(),
        ensures
            final(self).wf(),
            submitted(*old(self), *final(self), r, old(self).input_mode),
    {
        let index = match self.current_conversation_index {
            Some(i) => i,
            None => {
                return None;
            },
        };
        if self.models.len() == 0 {
            return None;
        }
        let prompt = chars_to_string(&self.input);
        let content = prompt.clone();
        self.conversations[index].messages.push(Message { role: Role::User, content });
        self.input.clear();
        self.cursor = 0;
        self.state = AppState::Thinking;
        let model_alias = self.models[self.model_index].alias.clone();
        proof {
            assert(self.conversations@[index as int]@ =~~= with_message(
                old(self).conversations@[index as int]@,
                MessageView { role: Role::User, content: old(self).input@ },
            ));
        }
        Some(PendingRequest { conversation: index, prompt, model_alias })
    }

    /// Appends a conversation with a freshly minted identifier and a
    /// generated display name, and selects it.
    pub fn start_new_conversation(&mut self)
        requires
            old(self).wf(),
        ensures
            final(self).wf(),
            new_conversation_rel(*old(self), *final(self), old(self).focused_block),
    {
        let n = self.conversations.len();
        let id = usize_to_string(n);
        let name = String::from_str("New Conversation ").concat(id.as_str());
        self.conversations.push(Conversation { id, name, messages: Vec::new() });
        self.current_conversation_index = Some(n);
        proof {
            assert(self.conversations@.take(n as int) =~= old(self).conversations@);
            assert(self.conversations@[n as int]@.messages =~= Seq::<MessageView>::empty());
        }
    }

    /// Moves the message selection to the last message of the current
    /// conversation, when there is one.
    pub fn scroll_to_bottom(&mut self)
        requires
            old(self).wf(),
        ensures
            final(self).wf(),
            scrolled_to_bottom(*old(self), *final(self)),
    {
        let index = match self.current_conversation_index {
            Some(i) => i,
            None => {
                return ;
            },
        };
        let message_count = self.conversations[index].messages.len();
        if message_count > 0 {
            self.chat_selected = Some(message_count - 1);
        }
    }

    /// The highlighted message of the current conversation, if any.
    pub fn selected_message(&self) -> (r: Option<usize>)
        ensures
            r == self.chat_selected,
    {
        self.chat_selected
    }

    /// Advances the message selection circularly; a no-op when no
    /// conversation is current or it has no messages.
    pub fn next_message(&mut self)
        requires
            old(self).wf(),
        ensures
            final(self).wf(),
            next_message_rel(*old(self), *final(self)),
    {
        let index = match self.current_conversation_index {
            Some(i) => i,
            None => {
                return ;
            },
        };
        let len = self.conversations[index].messages.len();
        if len == 0 {
            return ;
        }
        let i = match self.chat_selected {
            Some(i) => if i >= len - 1 {
                0
            } else {
                i + 1
            },
            None => 0,
        };
        self.chat_selected = Some(i);
    }

    /// Retreats the message selection circularly; a no-op when no
    /// conversation is current or it has no messages.
    pub fn previous_message(&mut self)
        requires
            old(self).wf(),
        ensures
            final(self).wf(),
            previous_message_rel(*old(self), *final(self)),
    {
        let index = match self.current_conversation_index {
            Some(i) => i,
            None => {
                return ;
            },
        };
        let len = self.conversations[index].messages.len();
        if len == 0 {
            return ;
        }
        let i = match self.chat_selected {
            Some(i) => if i == 0 {
                len - 1
            } else {
                i - 1
            },
            None => 0,
        };
        self.chat_selected = Some(i);
    }

    /// Folds one delivered inference result into the session; see
    /// [`inference_applied`] for the dispatch-time binding.
    pub fn apply_inference_result(&mut self, res: InferenceResult)
        requires
            old(self).wf(),
        ensures
            final(self).wf(),
            inference_applied(*old(self), *final(self), res),
    {
        let index = res.conversation;
        if index >= self.conversations.len() {
            return ;
        }
        self.conversations[index].messages.push(
            Message { role: Role::Assistant, content: res.content },
        );
        self.state = AppState::Normal;
        let is_current = match self.current_conversation_index {
            Some(i) => i == index,
            None => false,
        };
        proof {
            assert(self.conversations@[index as int]@ =~~= with_message(
                old(self).conversations@[index as int]@,
                MessageView { role: Role::Assistant, content: res.content@ },
            ));
        }
        if is_current {
            self.scroll_to_bottom();
        }
    }

    /// Non-blocking drain of the inference channel: if a worker has
    /// delivered a result, it is folded in; otherwise nothing changes.
    pub fn check_for_response(&mut self)
        requires
            old(self).wf(),
        ensures
            final(self).wf(),
            *final(self) == *old(self) || exists|res: InferenceResult|
                inference_applied(*old(self), *final(self), res),
    {
        match try_recv_result(&self.rx) {
            Some(res) => {
                let ghost gres = res;
                self.apply_inference_result(res);
                proof {
                    assert(inference_applied(*old(self), *self, gres));
                }
            },
            None => {},
        }
    }

    /// Folds one remote command into the session at time `now_ms`, exactly
    /// as if it had been typed and sent, raising positive feedback.
    pub fn apply_remote_command(&mut self, cmd: String, now_ms: u64) -> (r: Option<PendingRequest>)
        requires
            old(self).wf(),
            now_ms <= u64::MAX - FEEDBACK_TTL_MS,
        ensures
            final(self).wf(),
            remote_applied(*old(self), *final(self), cmd@, now_ms, r),
    {
        let chars = str_to_chars(cmd.as_str());
        let cursor = chars.len();
        self.input = chars;
        self.cursor = cursor;
        let r = self.send_message();
        self.set_feedback(
            String::from_str("Remote message received and sent!"),
            FeedbackType::Positive,
            now_ms,
        );
        r
    }

    /// Non-blocking drain of the remote-command channel: if a connection
    /// handler has forwarded a command, it is folded in; otherwise nothing
    /// changes.
    pub fn handle_remote_command(&mut self, now_ms: u64) -> (r: Option<PendingRequest>)
        requires
            old(self).wf(),
            now_ms <= u64::MAX - FEEDBACK_TTL_MS,
        ensures
            final(self).wf(),
            (*final(self) == *old(self) && r is None) || exists|cmd: Seq<char>|
                remote_applied(*old(self), *final(self), cmd, now_ms, r),
    {
        match try_recv_remote(&self.remote_command_rx) {
            Some(cmd) => {
                let ghost c = cmd@;
                let r = self.apply_remote_command(cmd, now_ms);
                proof {
                    assert(remote_applied(*old(self), *self, c, now_ms, r));
                }
                r
            },
            None => None,
        }
    }

    /// Places the highlighted message's content on the OS clipboard.
    /// Fails exactly when nothing is highlighted, or when the clipboard
    /// itself does.
    pub fn copy_selected_message_to_clipboard(&self) -> (r: Result<(), CopyError>)
        requires
            self.wf(),
        ensures
            r == Result::<(), CopyError>::Err(CopyError::NothingSelected) <==> !has_message_selected(
                *self,
            ),
    {
        let ci = match self.current_conversation_index {
            Some(i) => i,
            None => {
                return Err(CopyError::NothingSelected);
            },
        };
        let mi = match self.chat_selected {
            Some(i) => i,
            None => {
                return Err(CopyError::NothingSelected);
            },
        };
        if mi >= self.conversations[ci].messages.len() {
            return Err(CopyError::NothingSelected);
        }
        let text = self.conversations[ci].messages[mi].content.clone();
        if clipboard_set(text) {
            Ok(())
        } else {
            Err(CopyError::ClipboardFailed)
        }
    }

    /// Replaces any existing feedback entry with a new one that expires
    /// `FEEDBACK_TTL_MS` after `now_ms`.
    pub fn set_feedback(&mut self, message: String, feedback_type: FeedbackType, now_ms: u64)
        requires
            now_ms <= u64::MAX - FEEDBACK_TTL_MS,
        ensures
            feedback_set_rel(*old(self), *final(self), message@, feedback_type, now_ms),
    {
        self.feedback = Some(
            FeedbackMessage { message, feedback_type, expires_at_ms: now_ms + FEEDBACK_TTL_MS },
        );
    }

    /// Lazy expiry, called once per scheduler tick: clears the feedback
    /// entry once its expiry instant has passed.
    pub fn update_feedback(&mut self, now_ms: u64)
        ensures
            feedback_update_rel(*old(self), *final(self), now_ms),
    {
        let clear = match &self.feedback {
            Some(f) => now_ms > f.expires_at_ms,
            None => false,
        };
        if clear {
            self.feedback = None;
        }
    }

    /// Dispatches one key event to the handler of the focused panel; the
    /// whole table is [`key_transition`].
    pub fn handle_key(&mut self, key: Key, now_ms: u64) -> (out: KeyOutcome)
        requires
            old(self).wf(),
            now_ms <= u64::MAX - FEEDBACK_TTL_MS,
        ensures
            final(self).wf(),
            key_transition(*old(self), key, now_ms, *final(self), out),
    {
        match self.focused_block {
            FocusedBlock::ConversationList => match key {
                Key::Char('j') | Key::Down => {
                    self.next_conversation();
                    KeyOutcome { quit: false, request: None }
                },
                Key::Char('k') | Key::Up => {
                    self.previous_conversation();
                    KeyOutcome { quit: false, request: None }
                },
                Key::Enter => {
                    self.focused_block = FocusedBlock::Chat;
                    KeyOutcome { quit: false, request: None }
                },
                Key::Char('n') => {
                    self.start_new_conversation();
                    self.focused_block = FocusedBlock::Input;
                    KeyOutcome { quit: false, request: None }
                },
                Key::Tab => {
                    self.next_focus();
                    KeyOutcome { quit: false, request: None }
                },
                Key::Char('h') => {
                    self.toggle_conversation_list();
                    KeyOutcome { quit: false, request: None }
                },
                Key::Char('i') => {
                    self.focused_block = FocusedBlock::Input;
                    self.input_mode = InputMode::Editing;
                    KeyOutcome { quit: false, request: None }
                },
                Key::Char('q') => KeyOutcome { quit: true, request: None },
                _ => KeyOutcome { quit: false, request: None },
            },
            FocusedBlock::ModelSelect => match key {
                Key::Char('j') | Key::Down => {
                    self.next_model();
                    KeyOutcome { quit: false, request: None }
                },
                Key::Char('k') | Key::Up => {
                    self.previous_model();
                    KeyOutcome { quit: false, request: None }
                },
                Key::Tab => {
                    self.next_focus();
                    KeyOutcome { quit: false, request: None }
                },
                Key::Char('h') => {
                    self.toggle_conversation_list();
                    KeyOutcome { quit: false, request: None }
                },
                Key::Char('i') => {
                    self.focused_block = FocusedBlock::Input;
                    self.input_mode = InputMode::Editing;
                    KeyOutcome { quit: false, request: None }
                },
                Key::Char('q') => KeyOutcome { quit: true, request: None },
                _ => KeyOutcome { quit: false, request: None },
            },
            FocusedBlock::Chat => match key {
                Key::Tab => {
                    self.next_focus();
                    KeyOutcome { quit: false, request: None }
                },
                Key::Char('h') => {
                    self.toggle_conversation_list();
                    KeyOutcome { quit: false, request: None }
                },
                Key::Char('j') | Key::Down => {
                    self.next_message();
                    KeyOutcome { quit: false, request: None }
                },
                Key::Char('k') | Key::Up => {
                    self.previous_message();
                    KeyOutcome { quit: false, request: None }
                },
                Key::Char('i') => {
                    self.focused_block = FocusedBlock::Input;
                    self.input_mode = InputMode::Editing;
                    KeyOutcome { quit: false, request: None }
                },
                Key::Char('y') => {
                    match self.copy_selected_message_to_clipboard() {
                        Ok(_) => {
                            self.set_feedback(
                                String::from_str("Message copied successfully!"),
                                FeedbackType::Positive,
                                now_ms,
                            );
                        },
                        Err(e) => {
                            let d = e.describe();
                            self.set_feedback(String::from_str(d), FeedbackType::Negative, now_ms);
                        },
                    }
                    KeyOutcome { quit: false, request: None }
                },
                Key::Char('q') => KeyOutcome { quit: true, request: None },
                _ => KeyOutcome { quit: false, request: None },
            },
            FocusedBlock::Input => match self.input_mode {
                InputMode::Normal => match key {
                    Key::Char('i') => {
                        self.input_mode = InputMode::Editing;
                        KeyOutcome { quit: false, request: None }
                    },
                    Key::Tab => {
                        self.next_focus();
                        KeyOutcome { quit: false, request: None }
                    },
                    Key::Char('h') => {
                        self.toggle_conversation_list();
                        KeyOutcome { quit: false, request: None }
                    },
                    Key::Char('q') => KeyOutcome { quit: true, request: None },
                    _ => KeyOutcome { quit: false, request: None },
                },
                InputMode::Editing => match key {
                    Key::Enter => {
                        let r = self.send_message();
                        self.input_mode = InputMode::Normal;
                        KeyOutcome { quit: false, request: r }
                    },
                    Key::Char(c) => {
                        let cur = self.cursor;
                        self.input.insert(cur, c);
                        let n = self.input.len();
                        proof {
                            assert(cur as int + 1 <= n as int);
                        }
                        self.cursor = cur + 1;
                        KeyOutcome { quit: false, request: None }
                    },
                    Key::Backspace => {
                        if self.cursor > 0 {
                            let cur = self.cursor;
                            self.input.remove(cur - 1);
                            self.cursor = cur - 1;
                        }
                        KeyOutcome { quit: false, request: None }
                    },
                    Key::Esc => {
                        self.input_mode = InputMode::Normal;
                        KeyOutcome { quit: false, request: None }
                    },
                    Key::Tab => {
                        self.next_focus();
                        KeyOutcome { quit: false, request: None }
                    },
                    Key::Left => {
                        if self.cursor > 0 {
                            self.cursor = self.cursor - 1;
                        }
                        KeyOutcome { quit: false, request: None }
                    },
                    Key::Right => {
                        if self.cursor < self.input.len() {
                            self.cursor = self.cursor + 1;
                        }
                        KeyOutcome { quit: false, request: None }
                    },
                    _ => KeyOutcome { quit: false, request: None },
                },
            },
        }
    }
}

/// Feedback time-to-live law: an entry set at time `t` is still present
/// when the expiry sweep runs four seconds later, and gone when it runs
/// six seconds later.
pub proof fn lemma_feedback_ttl(
    a: App,
    b: App,
    c: App,
    d: App,
    msg: Seq<char>,
    kind: FeedbackType,
    t: u64,
)
    requires
        t <= u64::MAX - 6000,
        feedback_set_rel(a, b, msg, kind, t),
        feedback_update_rel(b, c, (t + 4000) as u64),
        feedback_update_rel(c, d, (t + 6000) as u64),
    ensures
        c.feedback is Some,
        (c.feedback->0).message@ == msg,
        d.feedback is None,
{
}

/// `k` forward steps from `i` in a circular list of length `len`.
pub open spec fn iter_wrap_next(i: int, len: int, k: nat) -> int
    decreases k,
{
    if k == 0 {
        i
    } else {
        wrap_next(iter_wrap_next(i, len, (k - 1) as nat), len)
    }
}

/// `k` backward steps from `i` in a circular list of length `len`.
pub open spec fn iter_wrap_prev(i: int, len: int, k: nat) -> int
    decreases k,
{
    if k == 0 {
        i
    } else {
        wrap_prev(iter_wrap_prev(i, len, (k - 1) as nat), len)
    }
}

proof fn lemma_iter_wrap_next_split(i: int, len: int, k1: nat, k2: nat)
    ensures
        iter_wrap_next(i, len, k1 + k2) == iter_wrap_next(iter_wrap_next(i, len, k1), len, k2),
    decreases k2,
{
    if k2 > 0 {
        lemma_iter_wrap_next_split(i, len, k1, (k2 - 1) as nat);
    }
}

proof fn lemma_iter_wrap_next_linear(i: int, len: int, k: nat)
    requires
        0 <= i < len,
        i + k < len,
    ensures
        iter_wrap_next(i, len, k) == i + k,
    decreases k,
{
    if k > 0 {
        lemma_iter_wrap_next_linear(i, len, (k - 1) as nat);
    }
}

proof fn lemma_iter_wrap_prev_split(i: int, len: int, k1: nat, k2: nat)
    ensures
        iter_wrap_prev(i, len, k1 + k2) == iter_wrap_prev(iter_wrap_prev(i, len, k1), len, k2),
    decreases k2,
{
    if k2 > 0 {
        lemma_iter_wrap_prev_split(i, len, k1, (k2 - 1) as nat);
    }
}

proof fn lemma_iter_wrap_prev_linear(i: int, len: int, k: nat)
    requires
        0 <= i - k,
        i < len,
    ensures
        iter_wrap_prev(i, len, k) == i - k,
    decreases k,
{
    if k > 0 {
        lemma_iter_wrap_prev_linear(i, len, (k - 1) as nat);
    }
}

/// Wrap-around law, forward: in a non-empty circular list, advancing
/// exactly `len` times returns any in-range index to itself.
pub proof fn lemma_next_wraps_around(i: int, len: int)
    requires
        0 <= i < len,
    ensures
        iter_wrap_next(i, len, len as nat) == i,
{
    let up = (len - 1 - i) as nat;
    lemma_iter_wrap_next_linear(i, len, up);
    assert(iter_wrap_next(i, len, up) == len - 1);
    lemma_iter_wrap_next_split(i, len, up, 1);
    assert(iter_wrap_next(i, len, (up + 1) as nat) == 0);
    lemma_iter_wrap_next_linear(0, len, i as nat);
    lemma_iter_wrap_next_split(i, len, (up + 1) as nat, i as nat);
    assert(up + 1 + i == len);
}

/// Wrap-around law, backward: in a non-empty circular list, retreating
/// exactly `len` times returns any in-range index to itself.
pub proof fn lemma_previous_wraps_around(i: int, len: int)
    requires
        0 <= i < len,
    ensures
        iter_wrap_prev(i, len, len as nat) == i,
{
    lemma_iter_wrap_prev_linear(i, len, i as nat);
    assert(iter_wrap_prev(i, len, i as nat) == 0);
    lemma_iter_wrap_prev_split(i, len, i as nat, 1);
    assert(iter_wrap_prev(i, len, (i + 1) as nat) == len - 1);
    lemma_iter_wrap_prev_linear(len - 1, len, (len - 1 - i) as nat);
    lemma_iter_wrap_prev_split(i, len, (i + 1) as nat, (len - 1 - i) as nat);
    assert(i + 1 + (len - 1 - i) == len);
}

/// `k` advances of a selection over a list of length `len`.
pub open spec fn iter_next_sel(sel: Option<usize>, len: int, k: nat) -> Option<usize>
    decreases k,
{
    if k == 0 {
        sel
    } else {
        next_sel(iter_next_sel(sel, len, (k - 1) as nat), len)
    }
}

/// `k` retreats of a selection over a list of length `len`.
pub open spec fn iter_prev_sel(sel: Option<usize>, len: int, k: nat) -> Option<usize>
    decreases k,
{
    if k == 0 {
        sel
    } else {
        prev_sel(iter_prev_sel(sel, len, (k - 1) as nat), len)
    }
}

proof fn lemma_iter_next_sel_tracks(i: usize, len: int, k: nat)
    requires
        (i as int) < len,
        len <= usize::MAX,
    ensures
        iter_next_sel(Some(i), len, k) == Some(iter_wrap_next(i as int, len, k) as usize),
        0 <= iter_wrap_next(i as int, len, k) < len,
    decreases k,
{
    if k > 0 {
        lemma_iter_next_sel_tracks(i, len, (k - 1) as nat);
    }
}

proof fn lemma_iter_prev_sel_tracks(i: usize, len: int, k: nat)
    requires
        (i as int) < len,
        len <= usize::MAX,
    ensures
        iter_prev_sel(Some(i), len, k) == Some(iter_wrap_prev(i as int, len, k) as usize),
        0 <= iter_wrap_prev(i as int, len, k) < len,
    decreases k,
{
    if k > 0 {
        lemma_iter_prev_sel_tracks(i, len, (k - 1) as nat);
    }
}

/// Wrap-around law at the selection level, forward: over a non-empty list,
/// advancing the selection exactly `len` times returns it to where it
/// started.
pub proof fn lemma_selection_next_cycle(i: usize, len: int)
    requires
        (i as int) < len,
        len <= usize::MAX,
    ensures
        iter_next_sel(Some(i), len, len as nat) == Some(i),
{
    lemma_iter_next_sel_tracks(i, len, len as nat);
    lemma_next_wraps_around(i as int, len);
}

/// Wrap-around law at the selection level, backward.
pub proof fn lemma_selection_prev_cycle(i: usize, len: int)
    requires
        (i as int) < len,
        len <= usize::MAX,
    ensures
        iter_prev_sel(Some(i), len, len as nat) == Some(i),
{
    lemma_iter_prev_sel_tracks(i, len, len as nat);
    lemma_previous_wraps_around(i as int, len);
}

} // verus!
