//! Bulk load of conversation history from the external tool's log listing.
//!
//! The tool delivers one record per prompt/response exchange, newest first.
//! Consecutive records that share a conversation identifier are collapsed
//! into one conversation whose messages run in chronological order: for
//! each exchange, the user's prompt and then the tool's response.

use vstd::prelude::*;
use crate::data::{
    Conversation, ConversationView, LogEntry, LogEntryView, Message, MessageView, Role,
};

verus! {

/// The images of a vector of conversations.
pub open spec fn conv_views(cs: Seq<Conversation>) -> Seq<ConversationView> {
    cs.map_values(|c: Conversation| c@)
}

/// The images of a vector of log entries.
pub open spec fn entry_views(es: Seq<LogEntry>) -> Seq<LogEntryView> {
    es.map_values(|e: LogEntry| e@)
}

/// The two messages one log entry contributes, in chronological order.
pub open spec fn entry_pair(e: LogEntryView) -> Seq<MessageView> {
    seq![
        MessageView { role: Role::User, content: e.prompt },
        MessageView { role: Role::Assistant, content: e.response },
    ]
}

/// Conversations built from log entries given in chronological order
/// (oldest exchange first): a run of consecutive entries sharing an
/// identifier extends the conversation opened by the run's first entry,
/// which also supplies the display name.
pub open spec fn group_chron(entries: Seq<LogEntryView>) -> Seq<ConversationView>
    decreases entries.len(),
{
    if entries.len() == 0 {
        Seq::empty()
    } else {
        let prev = group_chron(entries.drop_last());
        let e = entries.last();
        if prev.len() > 0 && prev.last().id == e.conversation_id {
            prev.update(
                prev.len() - 1,
                ConversationView {
                    id: prev.last().id,
                    name: prev.last().name,
                    messages: prev.last().messages + entry_pair(e),
                },
            )
        } else {
            prev.push(
                ConversationView {
                    id: e.conversation_id,
                    name: e.conversation_name,
                    messages: entry_pair(e),
                },
            )
        }
    }
}

/// Conversations built from log entries as the tool delivers them: newest
/// exchange first.
pub open spec fn group_spec(entries: Seq<LogEntryView>) -> Seq<ConversationView> {
    group_chron(entries.reverse())
}

fn push_pair(messages: &mut Vec<Message>, e: &LogEntry)
    ensures
        final(messages)@.map_values(|m: Message| m@) =~= old(messages)@.map_values(
            |m: Message| m@,
        ) + entry_pair(e@),
{
    messages.push(Message { role: Role::User, content: e.prompt.clone() });
    messages.push(Message { role: Role::Assistant, content: e.response.clone() });
    proof {
        assert(messages@.map_values(|m: Message| m@) =~= old(messages)@.map_values(
            |m: Message| m@,
        ) + entry_pair(e@));
    }
}

/// Collapses the log records, given newest first, into conversations.
pub fn group_conversations(entries: &Vec<LogEntry>) -> (r: Vec<Conversation>)
    ensures
        conv_views(r@) == group_spec(entry_views(entries@)),
{
    let ghost chron: Seq<LogEntryView> = entry_views(entries@).reverse();
    let n = entries.len();
    let mut out: Vec<Conversation> = Vec::new();
    let mut k: usize = 0;
    while k < n
        invariant
            k <= n,
            n == entries@.len(),
            chron == entry_views(entries@).reverse(),
            conv_views(out@) == group_chron(chron.take(k as int)),
        decreases n - k,
    {
        let e = &entries[n - 1 - k];
        proof {
            assert(chron[k as int] == e@);
            assert(chron.take(k as int + 1).drop_last() =~= chron.take(k as int));
            assert(chron.take(k as int + 1).last() == e@);
        }
        let extend = out.len() > 0 && {
            let last = &out[out.len() - 1];
            last.id == e.conversation_id
        };
        if extend {
            let mut last = match out.pop() {
                Some(c) => c,
                None => {
                    proof {
                        assert(false);
                    }
                    unreached()
                },
            };
            push_pair(&mut last.messages, e);
            out.push(last);
            proof {
                assert(conv_views(out@) =~= group_chron(chron.take(k as int + 1)));
            }
        } else {
            let mut messages: Vec<Message> = Vec::new();
            push_pair(&mut messages, e);
            out.push(
                Conversation {
                    id: e.conversation_id.clone(),
                    name: e.conversation_name.clone(),
                    messages,
                },
            );
            proof {
                assert(conv_views(out@) =~= group_chron(chron.take(k as int + 1)));
            }
        }
        k = k + 1;
    }
    proof {
        assert(chron.take(n as int) =~= chron);
    }
    out
}

/// Name for what serde_json's parser extracts from the log listing: the
/// records of the JSON array in the text, in delivered order, a field
/// read as empty where it is missing or not a string. The result depends
/// on the text alone.
pub uninterp spec fn logs_of_json(s: Seq<char>) -> Seq<LogEntryView>;

/// Relies on serde_json::from_str and serde_json::Value's accessors
/// (as_array, index, as_str): parsing the log listing is a function of the
/// text alone; text that is not a JSON array yields no records.
#[verifier::external_body]
fn parse_log_entries(text: &str) -> (r: Vec<LogEntry>)
    ensures
        entry_views(r@) == logs_of_json(text@),
{
    let v: serde_json::Value = match serde_json::from_str(text) {
        Ok(v) => v,
        Err(_) => return Vec::new(),
    };
    match v.as_array() {
        None => Vec::new(),
        Some(arr) => arr.iter().map(|g| LogEntry {
            conversation_id: g["conversation_id"].as_str().unwrap_or_default().to_string(),
            conversation_name: g["conversation_name"].as_str().unwrap_or_default().to_string(),
            prompt: g["prompt"].as_str().unwrap_or_default().to_string(),
            response: g["response"].as_str().unwrap_or_default().to_string(),
        }).collect(),
    }
}

/// Startup bulk load: the conversations described by the external tool's
/// JSON log listing.
pub fn load_conversations(text: &str) -> (r: Vec<Conversation>)
    ensures
        conv_views(r@) == group_spec(logs_of_json(text@)),
{
    let entries = parse_log_entries(text);
    group_conversations(&entries)
}

} // verus!
