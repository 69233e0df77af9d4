//! Conversation messages and the `{role, text}` form in which the host sees them.

use vstd::prelude::*;

use crate::json::{
    json_contents, json_object, json_set, json_string, json_text, json_to_string, JsonView,
};
use crate::text::{join_lines, lines, text_seq};

verus! {

/// A moment: seconds since the Unix epoch, and nanoseconds within the second.
#[derive(Clone, Copy)]
pub struct Timestamp {
    pub secs: i64,
    pub nanos: u32,
}

/// `chrono::Utc::now`, taken apart into whole seconds and nanoseconds. Claimed: the
/// nanoseconds stay below two seconds (a leap second counts on past one). Which moment it
/// is depends on the clock, and nothing is claimed of it.
#[verifier::external_body]
pub(crate) fn now() -> (moment: Timestamp)
    ensures
        moment.nanos < 2_000_000_000,
{
    let moment = chrono::Utc::now();
    Timestamp { secs: moment.timestamp(), nanos: moment.timestamp_subsec_nanos() }
}

/// One block of what a user or the assistant said. Only texts are read here.
pub enum ContentBlock {
    Text { text: String },
    Other,
}

/// One block of what a tool returned. Only texts are read here.
pub enum DataBlock {
    Text { text: String },
    Other,
}

/// The tokens that a provider reports for one reply.
#[derive(Clone, Copy)]
pub struct TokenUsage {
    pub input_tokens: u64,
    pub output_tokens: u64,
    pub cache_read_tokens: u64,
    pub cache_write_tokens: u64,
    pub reasoning_tokens: u64,
}

#[derive(Clone, Copy, PartialEq, Eq, Structural)]
pub enum AssistantMessageKind {
    FinalAnswer,
    Other,
}

/// What the user said. `origin` is the handle under which the host keeps the agent loop's
/// own message, for one that the loop made; a message made here has none.
pub struct UserMessage {
    pub content: Vec<ContentBlock>,
    pub timestamp: Timestamp,
    pub origin: Option<u64>,
}

/// What the assistant said. `text` is its content as one text.
pub struct AssistantMessage {
    pub kind: AssistantMessageKind,
    pub message_id: String,
    pub turn_id: String,
    pub content: Vec<ContentBlock>,
    pub text: String,
    pub timestamp: Timestamp,
    pub usage: Option<TokenUsage>,
    pub origin: Option<u64>,
}

/// What a tool returned to the model.
pub struct ToolResultMessage {
    pub content: Vec<DataBlock>,
    pub origin: Option<u64>,
}

/// A summary that stands for messages that were left out.
pub struct SummaryMessage {
    pub summary: String,
    pub origin: Option<u64>,
}

/// A message of an application's own. There is no data where it cannot be written as JSON.
pub struct CustomMessage {
    pub data: Option<serde_json::Value>,
    pub origin: Option<u64>,
}

/// One message of a conversation. `Unknown` is any kind that the agent loop may add.
pub enum AgentMessage {
    User(UserMessage),
    Assistant(AssistantMessage),
    ToolResult(ToolResultMessage),
    BranchSummary(SummaryMessage),
    CompactionSummary(SummaryMessage),
    Custom(CustomMessage),
    Unknown { origin: Option<u64> },
}

/// The texts among content blocks, in order.
pub open spec fn content_texts(blocks: Seq<ContentBlock>) -> Seq<Seq<char>>
    decreases blocks.len(),
{
    if blocks.len() == 0 {
        Seq::empty()
    } else {
        let before = content_texts(blocks.drop_last());
        match blocks.last() {
            ContentBlock::Text { text } => before.push(text@),
            ContentBlock::Other => before,
        }
    }
}

/// The texts among data blocks, in order.
pub open spec fn data_texts(blocks: Seq<DataBlock>) -> Seq<Seq<char>>
    decreases blocks.len(),
{
    if blocks.len() == 0 {
        Seq::empty()
    } else {
        let before = data_texts(blocks.drop_last());
        match blocks.last() {
            DataBlock::Text { text } => before.push(text@),
            DataBlock::Other => before,
        }
    }
}

/// The role under which a message is shown.
pub open spec fn message_role(message: AgentMessage) -> Seq<char> {
    match message {
        AgentMessage::User(_) => "user"@,
        AgentMessage::Assistant(_) => "assistant"@,
        AgentMessage::ToolResult(_) => "tool_result"@,
        AgentMessage::BranchSummary(_) => "branch_summary"@,
        AgentMessage::CompactionSummary(_) => "compaction_summary"@,
        AgentMessage::Custom(_) => "custom"@,
        AgentMessage::Unknown { .. } => "unknown"@,
    }
}

/// The text with which a message is shown.
pub open spec fn message_text(message: AgentMessage) -> Seq<char> {
    match message {
        AgentMessage::User(m) => lines(content_texts(m.content@)),
        AgentMessage::Assistant(m) => m.text@,
        AgentMessage::ToolResult(m) => lines(data_texts(m.content@)),
        AgentMessage::BranchSummary(m) => m.summary@,
        AgentMessage::CompactionSummary(m) => m.summary@,
        AgentMessage::Custom(m) => match m.data {
            Some(data) => json_text(json_contents(data)),
            None => Seq::empty(),
        },
        AgentMessage::Unknown { .. } => Seq::empty(),
    }
}

/// The `{role, text}` object of a role and a text.
pub open spec fn entry_view(role: Seq<char>, text: Seq<char>) -> JsonView {
    JsonView::Object(map!["role"@ => JsonView::Text(role), "text"@ => JsonView::Text(text)])
}

/// The object that stands for a message.
pub open spec fn message_view(message: AgentMessage) -> JsonView {
    entry_view(message_role(message), message_text(message))
}

/// Joins the texts among content blocks, a line break between two of them.
pub fn join_blocks_text(blocks: &Vec<ContentBlock>) -> (text: String)
    ensures
        text@ == lines(content_texts(blocks@)),
{
    let mut parts: Vec<String> = Vec::new();
    let mut i: usize = 0;
    while i < blocks.len()
        invariant
            i <= blocks@.len(),
            text_seq(parts@) == content_texts(blocks@.take(i as int)),
        decreases blocks@.len() - i,
    {
        let ghost before = parts@;
        match &blocks[i] {
            ContentBlock::Text { text } => {
                parts.push(text.clone());
                assert(text_seq(parts@) =~= text_seq(before).push(text@));
            },
            ContentBlock::Other => {},
        }
        assert(blocks@.take(i + 1).drop_last() =~= blocks@.take(i as int));
        i += 1;
    }
    assert(blocks@.take(i as int) =~= blocks@);
    join_lines(&parts)
}

/// Joins the texts among data blocks, a line break between two of them.
pub fn join_data_blocks_text(blocks: &Vec<DataBlock>) -> (text: String)
    ensures
        text@ == lines(data_texts(blocks@)),
{
    let mut parts: Vec<String> = Vec::new();
    let mut i: usize = 0;
    while i < blocks.len()
        invariant
            i <= blocks@.len(),
            text_seq(parts@) == data_texts(blocks@.take(i as int)),
        decreases blocks@.len() - i,
    {
        let ghost before = parts@;
        match &blocks[i] {
            DataBlock::Text { text } => {
                parts.push(text.clone());
                assert(text_seq(parts@) =~= text_seq(before).push(text@));
            },
            DataBlock::Other => {},
        }
        assert(blocks@.take(i + 1).drop_last() =~= blocks@.take(i as int));
        i += 1;
    }
    assert(blocks@.take(i as int) =~= blocks@);
    join_lines(&parts)
}

/// Shows a message as a `{role, text}` object.
pub fn message_to_value(message: &AgentMessage) -> (value: serde_json::Value)
    ensures
        json_contents(value) == message_view(*message),
{
    let (role, text): (&str, String) = match message {
        AgentMessage::User(m) => ("user", join_blocks_text(&m.content)),
        AgentMessage::Assistant(m) => ("assistant", m.text.clone()),
        AgentMessage::ToolResult(m) => ("tool_result", join_data_blocks_text(&m.content)),
        AgentMessage::BranchSummary(m) => ("branch_summary", m.summary.clone()),
        AgentMessage::CompactionSummary(m) => ("compaction_summary", m.summary.clone()),
        AgentMessage::Custom(m) => match &m.data {
            Some(data) => ("custom", json_to_string(data)),
            None => ("custom", String::new()),
        },
        AgentMessage::Unknown { .. } => ("unknown", String::new()),
    };
    let mut value = json_object();
    json_set(&mut value, "role", json_string(role.to_owned()));
    json_set(&mut value, "text", json_string(text));
    value
}

} // verus!
