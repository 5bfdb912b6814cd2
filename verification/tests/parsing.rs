use llmchat::data::{LogEntry, Role};
use llmchat::logs::{group_conversations, load_conversations};
use llmchat::models::parse_models;
use llmchat::reply::{ack_line, compose_reply};
use llmchat::text::usize_to_string;

#[test]
fn parses_simple_alias_lines() {
    let models = parse_models("gpt4: openai/gpt-4\nsmall: local/small-model\n");
    assert_eq!(models.len(), 2);
    assert_eq!(models[0].alias, "gpt4");
    assert_eq!(models[0].full_name, "openai/gpt-4");
    assert_eq!(models[1].alias, "small");
    assert_eq!(models[1].full_name, "local/small-model");
}

#[test]
fn trims_whitespace_around_alias_and_name() {
    let models = parse_models("  tiny  :  vendor/tiny-model  \n");
    assert_eq!(models.len(), 1);
    assert_eq!(models[0].alias, "tiny");
    assert_eq!(models[0].full_name, "vendor/tiny-model");
}

#[test]
fn skips_lines_without_exactly_one_colon() {
    let models = parse_models("no colon here\na: b: c\nok: fine\n\n");
    assert_eq!(models.len(), 1);
    assert_eq!(models[0].alias, "ok");
    assert_eq!(models[0].full_name, "fine");
}

#[test]
fn parses_carriage_return_line_endings() {
    let models = parse_models("one: first\r\ntwo: second\r\n");
    assert_eq!(models.len(), 2);
    assert_eq!(models[0].alias, "one");
    assert_eq!(models[1].full_name, "second");
}

#[test]
fn empty_listing_yields_no_models() {
    assert_eq!(parse_models("").len(), 0);
}

#[test]
fn missing_final_newline_still_parses() {
    let models = parse_models("a: b");
    assert_eq!(models.len(), 1);
    assert_eq!(models[0].alias, "a");
    assert_eq!(models[0].full_name, "b");
}

fn entry(id: &str, name: &str, prompt: &str, response: &str) -> LogEntry {
    LogEntry {
        conversation_id: id.to_string(),
        conversation_name: name.to_string(),
        prompt: prompt.to_string(),
        response: response.to_string(),
    }
}

#[test]
fn groups_shared_conversation_in_chronological_order() {
    // Newest first, as the external tool delivers them.
    let entries = vec![
        entry("42", "Numbers", "second question", "second answer"),
        entry("42", "Numbers", "first question", "first answer"),
    ];
    let convs = group_conversations(&entries);
    assert_eq!(convs.len(), 1);
    assert_eq!(convs[0].id, "42");
    assert_eq!(convs[0].messages.len(), 4);
    assert!(matches!(convs[0].messages[0].role, Role::User));
    assert_eq!(convs[0].messages[0].content, "first question");
    assert!(matches!(convs[0].messages[1].role, Role::Assistant));
    assert_eq!(convs[0].messages[1].content, "first answer");
    assert!(matches!(convs[0].messages[2].role, Role::User));
    assert_eq!(convs[0].messages[2].content, "second question");
    assert!(matches!(convs[0].messages[3].role, Role::Assistant));
    assert_eq!(convs[0].messages[3].content, "second answer");
}

#[test]
fn only_consecutive_records_collapse() {
    let entries = vec![
        entry("42", "A", "p3", "r3"),
        entry("7", "B", "p2", "r2"),
        entry("42", "A", "p1", "r1"),
    ];
    let convs = group_conversations(&entries);
    assert_eq!(convs.len(), 3);
    assert_eq!(convs[0].id, "42");
    assert_eq!(convs[0].messages[0].content, "p1");
    assert_eq!(convs[1].id, "7");
    assert_eq!(convs[2].id, "42");
    assert_eq!(convs[2].messages[0].content, "p3");
}

#[test]
fn loads_conversations_from_json_log_listing() {
    let text = "[\
        {\"conversation_id\": \"42\", \"conversation_name\": \"Numbers\", \
         \"prompt\": \"second question\", \"response\": \"second answer\"},\
        {\"conversation_id\": \"42\", \"conversation_name\": \"Numbers\", \
         \"prompt\": \"first question\", \"response\": \"first answer\"}\
    ]";
    let convs = load_conversations(text);
    assert_eq!(convs.len(), 1);
    assert_eq!(convs[0].id, "42");
    assert_eq!(convs[0].name, "Numbers");
    assert_eq!(convs[0].messages.len(), 4);
    assert!(matches!(convs[0].messages[0].role, Role::User));
    assert_eq!(convs[0].messages[0].content, "first question");
    assert!(matches!(convs[0].messages[1].role, Role::Assistant));
    assert_eq!(convs[0].messages[1].content, "first answer");
    assert!(matches!(convs[0].messages[2].role, Role::User));
    assert_eq!(convs[0].messages[2].content, "second question");
    assert!(matches!(convs[0].messages[3].role, Role::Assistant));
    assert_eq!(convs[0].messages[3].content, "second answer");
}

#[test]
fn json_with_missing_fields_reads_them_empty() {
    let text = "[{\"conversation_id\": \"9\"}]";
    let convs = load_conversations(text);
    assert_eq!(convs.len(), 1);
    assert_eq!(convs[0].id, "9");
    assert_eq!(convs[0].name, "");
    assert_eq!(convs[0].messages.len(), 2);
    assert_eq!(convs[0].messages[0].content, "");
}

#[test]
fn invalid_json_yields_no_conversations() {
    assert_eq!(load_conversations("not json at all").len(), 0);
    assert_eq!(load_conversations("{\"an\": \"object\"}").len(), 0);
}

#[test]
fn successful_reply_is_stdout_alone() {
    let r = compose_reply("the answer".to_string(), "ignored warning", true);
    assert_eq!(r, "the answer");
}

#[test]
fn failed_reply_appends_stderr_under_error_marker() {
    let r = compose_reply(String::new(), "model not found", false);
    assert_eq!(r, "\nError: model not found");
}

#[test]
fn failed_reply_keeps_partial_stdout() {
    let r = compose_reply("partial".to_string(), "boom", false);
    assert_eq!(r, "partial\nError: boom");
}

#[test]
fn acknowledgement_line_is_fixed() {
    assert_eq!(ack_line(), "Command received and processed.");
}

#[test]
fn renders_decimal_identifiers() {
    assert_eq!(usize_to_string(0), "0");
    assert_eq!(usize_to_string(7), "7");
    assert_eq!(usize_to_string(42), "42");
    assert_eq!(usize_to_string(1000), "1000");
}
