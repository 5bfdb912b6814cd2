use llmchat::app::App;
use llmchat::data::{
    AppState, Conversation, CopyError, FeedbackType, FocusedBlock, InferenceResult, InputMode,
    Key, ModelInfo, Role,
};

fn conversation(id: &str, name: &str) -> Conversation {
    Conversation { id: id.to_string(), name: name.to_string(), messages: Vec::new() }
}

fn model(alias: &str, full_name: &str) -> ModelInfo {
    ModelInfo { alias: alias.to_string(), full_name: full_name.to_string() }
}

fn session_with(n_conversations: usize, n_models: usize) -> App {
    let mut convs = Vec::new();
    for i in 0..n_conversations {
        convs.push(conversation(&format!("c{}", i), &format!("Conversation {}", i)));
    }
    let mut models = Vec::new();
    for i in 0..n_models {
        models.push(model(&format!("m{}", i), &format!("model-{}", i)));
    }
    App::new(convs, models)
}

fn type_text(app: &mut App, text: &str) {
    for c in text.chars() {
        app.handle_key(Key::Char(c), 0);
    }
}

#[test]
fn fresh_session_defaults() {
    let app = session_with(2, 1);
    assert!(app.current_conversation_index.is_none());
    assert_eq!(app.model_index, 0);
    assert!(matches!(app.focused_block, FocusedBlock::ConversationList));
    assert!(matches!(app.input_mode, InputMode::Normal));
    assert!(matches!(app.state, AppState::Normal));
    assert!(app.feedback.is_none());
    assert!(!app.show_conversation_list);
    assert!(app.input.is_empty());
}

#[test]
fn navigation_on_empty_lists_never_panics_and_changes_nothing() {
    let mut app = session_with(0, 0);
    app.next_conversation();
    app.previous_conversation();
    app.next_model();
    app.previous_model();
    assert!(app.current_conversation_index.is_none());
    assert_eq!(app.model_index, 0);
    app.next_message();
    app.previous_message();
    assert!(app.chat_selected.is_none());
}

#[test]
fn conversation_navigation_wraps_after_len_steps() {
    let mut app = session_with(3, 1);
    app.next_conversation();
    assert_eq!(app.current_conversation_index, Some(0));
    for _ in 0..3 {
        app.next_conversation();
    }
    assert_eq!(app.current_conversation_index, Some(0));
    for _ in 0..3 {
        app.previous_conversation();
    }
    assert_eq!(app.current_conversation_index, Some(0));
}

#[test]
fn model_navigation_wraps_after_len_steps() {
    let mut app = session_with(1, 4);
    app.next_model();
    assert_eq!(app.model_index, 1);
    for _ in 0..3 {
        app.next_model();
    }
    assert_eq!(app.model_index, 0);
    for _ in 0..4 {
        app.previous_model();
    }
    assert_eq!(app.model_index, 0);
    app.previous_model();
    assert_eq!(app.model_index, 3);
}

#[test]
fn submit_without_selected_conversation_changes_nothing() {
    let mut app = session_with(2, 1);
    app.input = vec!['h', 'i'];
    app.cursor = 2;
    let before_counts: Vec<usize> = app.conversations.iter().map(|c| c.messages.len()).collect();
    let r = app.send_message();
    assert!(r.is_none());
    let after_counts: Vec<usize> = app.conversations.iter().map(|c| c.messages.len()).collect();
    assert_eq!(before_counts, after_counts);
    assert!(app.current_conversation_index.is_none());
    assert_eq!(app.input, vec!['h', 'i']);
    assert!(matches!(app.state, AppState::Normal));
}

#[test]
fn submit_with_empty_model_list_changes_nothing() {
    let mut app = session_with(1, 0);
    app.next_conversation();
    app.input = vec!['h', 'i'];
    app.cursor = 2;
    let r = app.send_message();
    assert!(r.is_none());
    assert_eq!(app.conversations[0].messages.len(), 0);
}

#[test]
fn submit_appends_user_message_and_hands_out_request() {
    let mut app = session_with(2, 2);
    app.next_conversation();
    app.next_model();
    app.input = vec!['h', 'i'];
    app.cursor = 2;
    let r = app.send_message().expect("a request should be dispatched");
    assert_eq!(r.conversation, 0);
    assert_eq!(r.prompt, "hi");
    assert_eq!(r.model_alias, "m1");
    assert_eq!(app.conversations[0].messages.len(), 1);
    assert!(matches!(app.conversations[0].messages[0].role, Role::User));
    assert_eq!(app.conversations[0].messages[0].content, "hi");
    assert!(app.input.is_empty());
    assert_eq!(app.cursor, 0);
    assert!(matches!(app.state, AppState::Thinking));
}

#[test]
fn one_result_drained_once_appends_exactly_one_assistant_message() {
    let mut app = session_with(1, 1);
    app.next_conversation();
    app.input = vec!['h', 'i'];
    app.cursor = 2;
    let req = app.send_message().expect("dispatched");
    // The worker delivers exactly one message for the dispatched prompt.
    app.inference_sender()
        .send(InferenceResult { conversation: req.conversation, content: "hello!".to_string() })
        .unwrap();
    app.check_for_response();
    assert_eq!(app.conversations[0].messages.len(), 2);
    assert!(matches!(app.conversations[0].messages[1].role, Role::Assistant));
    assert_eq!(app.conversations[0].messages[1].content, "hello!");
    assert!(matches!(app.state, AppState::Normal));
    // Draining again before any new result changes nothing.
    app.check_for_response();
    app.check_for_response();
    assert_eq!(app.conversations[0].messages.len(), 2);
}

#[test]
fn result_lands_in_the_conversation_current_at_dispatch() {
    let mut app = session_with(2, 1);
    app.next_conversation();
    app.input = vec!['h', 'i'];
    app.cursor = 2;
    let req = app.send_message().expect("dispatched");
    assert_eq!(req.conversation, 0);
    // The user switches conversations while the worker runs.
    app.next_conversation();
    assert_eq!(app.current_conversation_index, Some(1));
    app.inference_sender()
        .send(InferenceResult { conversation: req.conversation, content: "late".to_string() })
        .unwrap();
    app.check_for_response();
    assert_eq!(app.conversations[0].messages.len(), 2);
    assert_eq!(app.conversations[0].messages[1].content, "late");
    assert_eq!(app.conversations[1].messages.len(), 0);
}

#[test]
fn remote_command_acts_like_a_typed_prompt_and_raises_feedback() {
    let mut app = session_with(1, 1);
    app.next_conversation();
    app.remote_sender().send("hello world".to_string()).unwrap();
    let r = app.handle_remote_command(1_000);
    let req = r.expect("the remote command should dispatch a request");
    assert_eq!(req.prompt, "hello world");
    assert_eq!(app.conversations[0].messages.len(), 1);
    assert!(matches!(app.conversations[0].messages[0].role, Role::User));
    assert_eq!(app.conversations[0].messages[0].content, "hello world");
    let f = app.feedback.as_ref().expect("feedback should be raised");
    assert!(matches!(f.feedback_type, FeedbackType::Positive));
    assert_eq!(f.message, "Remote message received and sent!");
}

#[test]
fn remote_command_with_nothing_selected_raises_feedback_but_sends_nothing() {
    let mut app = session_with(1, 1);
    app.remote_sender().send("hello world".to_string()).unwrap();
    let r = app.handle_remote_command(1_000);
    assert!(r.is_none());
    assert_eq!(app.conversations[0].messages.len(), 0);
    assert!(app.feedback.is_some());
}

#[test]
fn empty_remote_queue_changes_nothing() {
    let mut app = session_with(1, 1);
    let r = app.handle_remote_command(1_000);
    assert!(r.is_none());
    assert!(app.feedback.is_none());
}

#[test]
fn feedback_present_after_four_seconds_gone_after_six() {
    let mut app = session_with(0, 0);
    app.set_feedback("saved".to_string(), FeedbackType::Positive, 1_000);
    app.update_feedback(5_000);
    assert!(app.feedback.is_some());
    app.update_feedback(7_000);
    assert!(app.feedback.is_none());
}

#[test]
fn new_feedback_replaces_the_old_entry() {
    let mut app = session_with(0, 0);
    app.set_feedback("first".to_string(), FeedbackType::Positive, 1_000);
    app.set_feedback("second".to_string(), FeedbackType::Negative, 2_000);
    let f = app.feedback.as_ref().unwrap();
    assert_eq!(f.message, "second");
    assert!(matches!(f.feedback_type, FeedbackType::Negative));
    assert_eq!(f.expires_at_ms, 7_000);
}

#[test]
fn focus_cycles_through_visible_panels() {
    let mut app = session_with(1, 1);
    app.toggle_conversation_list();
    assert!(app.show_conversation_list);
    assert!(matches!(app.focused_block, FocusedBlock::ConversationList));
    app.next_focus();
    assert!(matches!(app.focused_block, FocusedBlock::ModelSelect));
    app.next_focus();
    assert!(matches!(app.focused_block, FocusedBlock::Chat));
    app.next_focus();
    assert!(matches!(app.focused_block, FocusedBlock::Input));
    app.next_focus();
    assert!(matches!(app.focused_block, FocusedBlock::ConversationList));
}

#[test]
fn focus_skips_hidden_panels() {
    let mut app = session_with(1, 1);
    assert!(!app.show_conversation_list);
    assert!(matches!(app.focused_block, FocusedBlock::ConversationList));
    app.next_focus();
    assert!(matches!(app.focused_block, FocusedBlock::Chat));
    app.next_focus();
    assert!(matches!(app.focused_block, FocusedBlock::Input));
    app.next_focus();
    assert!(matches!(app.focused_block, FocusedBlock::Chat));
}

#[test]
fn hiding_the_list_moves_focus_off_hidden_panels() {
    let mut app = session_with(1, 1);
    app.toggle_conversation_list();
    app.toggle_conversation_list();
    assert!(matches!(app.focused_block, FocusedBlock::Chat));

    let mut app = session_with(1, 1);
    app.toggle_conversation_list();
    app.next_focus();
    assert!(matches!(app.focused_block, FocusedBlock::ModelSelect));
    app.toggle_conversation_list();
    assert!(matches!(app.focused_block, FocusedBlock::Input));
}

#[test]
fn keyboard_drives_navigation_and_quit() {
    let mut app = session_with(2, 1);
    let out = app.handle_key(Key::Char('j'), 0);
    assert!(!out.quit);
    assert_eq!(app.current_conversation_index, Some(0));
    let out = app.handle_key(Key::Down, 0);
    assert!(!out.quit);
    assert_eq!(app.current_conversation_index, Some(1));
    let out = app.handle_key(Key::Char('q'), 0);
    assert!(out.quit);
}

#[test]
fn typing_edits_at_the_cursor() {
    let mut app = session_with(1, 1);
    app.handle_key(Key::Char('i'), 0);
    assert!(matches!(app.focused_block, FocusedBlock::Input));
    assert!(matches!(app.input_mode, InputMode::Editing));
    type_text(&mut app, "helo");
    app.handle_key(Key::Left, 0);
    app.handle_key(Key::Char('l'), 0);
    let text: String = app.input.iter().collect();
    assert_eq!(text, "hello");
    app.handle_key(Key::Backspace, 0);
    app.handle_key(Key::Backspace, 0);
    let text: String = app.input.iter().collect();
    assert_eq!(text, "heo");
    assert_eq!(app.cursor, 2);
    app.handle_key(Key::Esc, 0);
    assert!(matches!(app.input_mode, InputMode::Normal));
}

#[test]
fn enter_while_editing_submits_and_leaves_editing() {
    let mut app = session_with(1, 1);
    app.next_conversation();
    app.handle_key(Key::Char('i'), 0);
    type_text(&mut app, "hi there");
    let out = app.handle_key(Key::Enter, 0);
    let req = out.request.expect("a request should be dispatched");
    assert_eq!(req.prompt, "hi there");
    assert!(matches!(app.input_mode, InputMode::Normal));
    assert_eq!(app.conversations[0].messages.len(), 1);
}

#[test]
fn new_conversation_key_creates_selects_and_focuses_input() {
    let mut app = session_with(0, 1);
    let out = app.handle_key(Key::Char('n'), 0);
    assert!(!out.quit);
    assert_eq!(app.conversations.len(), 1);
    assert_eq!(app.conversations[0].id, "0");
    assert_eq!(app.conversations[0].name, "New Conversation 0");
    assert_eq!(app.conversations[0].messages.len(), 0);
    assert_eq!(app.current_conversation_index, Some(0));
    assert!(matches!(app.focused_block, FocusedBlock::Input));
    app.handle_key(Key::Char('n'), 0);
    // 'n' only acts in the conversation list; focus moved to the input panel.
    assert_eq!(app.conversations.len(), 1);
}

#[test]
fn minted_identifiers_follow_the_count() {
    let mut app = session_with(0, 1);
    app.start_new_conversation();
    app.start_new_conversation();
    app.start_new_conversation();
    assert_eq!(app.conversations[1].id, "1");
    assert_eq!(app.conversations[2].id, "2");
    assert_eq!(app.conversations[2].name, "New Conversation 2");
    assert_eq!(app.current_conversation_index, Some(2));
}

#[test]
fn message_selection_wraps_and_scrolls() {
    let mut app = session_with(1, 1);
    app.next_conversation();
    for i in 0..3 {
        app.input = vec![char::from_digit(i, 10).unwrap()];
        app.cursor = 1;
        app.send_message();
    }
    assert_eq!(app.conversations[0].messages.len(), 3);
    app.next_message();
    assert_eq!(app.selected_message(), Some(0));
    app.next_message();
    app.next_message();
    assert_eq!(app.selected_message(), Some(2));
    app.next_message();
    assert_eq!(app.selected_message(), Some(0));
    app.previous_message();
    assert_eq!(app.selected_message(), Some(2));
    app.scroll_to_bottom();
    assert_eq!(app.selected_message(), Some(2));
}

#[test]
fn copy_with_nothing_selected_fails_and_raises_negative_feedback() {
    let mut app = session_with(1, 1);
    let r = app.copy_selected_message_to_clipboard();
    assert!(matches!(r, Err(CopyError::NothingSelected)));
    // Through the key handler, in the chat panel.
    app.next_focus();
    assert!(matches!(app.focused_block, FocusedBlock::Chat));
    app.handle_key(Key::Char('y'), 3_000);
    let f = app.feedback.as_ref().expect("feedback should be raised");
    assert!(matches!(f.feedback_type, FeedbackType::Negative));
    assert_eq!(f.message, "Failed to copy: No message selected");
}

#[test]
fn copy_with_a_selection_always_raises_some_feedback() {
    let mut app = session_with(1, 1);
    app.next_conversation();
    app.input = vec!['x'];
    app.cursor = 1;
    app.send_message();
    app.scroll_to_bottom();
    app.next_focus();
    app.handle_key(Key::Char('y'), 3_000);
    // Whether the OS clipboard is reachable depends on the environment;
    // either way the action reports through the feedback entry.
    assert!(app.feedback.is_some());
}
