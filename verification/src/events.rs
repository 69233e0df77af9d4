//! Events of the agent loop and the JSON lines in which the host sees them.
//!
//! Each line is one object on one line, with the kind of the event under `type`.

use std::sync::Arc;

use vstd::prelude::*;

use crate::json::{
    contents_seq, json_array, json_bool, json_clone, json_contents, json_field, json_object,
    json_plain, json_set, json_string, json_text, json_to_string, json_u64, reads_as, JsonView,
    NumberView,
};
use crate::messages::{
    data_texts, join_data_blocks_text, message_to_value, message_view, AgentMessage,
    AssistantMessage, DataBlock,
};
use crate::text::{enclosed, is_line, lines};

verus! {

/// What a tool call returned.
pub struct ToolResult {
    pub model_content: Vec<DataBlock>,
    pub details: serde_json::Value,
    pub terminate: bool,
}

/// What a tool call returned before its end.
pub struct ToolProgress {
    pub content: Vec<DataBlock>,
    pub details: serde_json::Value,
}

/// Why a tool call failed.
pub struct ToolFailure {
    pub code: String,
    pub model_message: String,
}

/// The kinds of errors that end a run. `Other` is any kind that the agent loop may add.
#[derive(Clone, Copy, PartialEq, Eq, Structural)]
pub enum AgentErrorKind {
    ProviderTyped,
    Tool,
    Aborted,
    NotIdle,
    InvalidInput,
    Internal,
    ResourceLimitExceeded,
    StreamIdle,
    FinalAnswerRejected,
    Other,
}

/// An error of a run, with the text that describes it.
pub struct AgentError {
    pub kind: AgentErrorKind,
    pub message: String,
}

/// One event of the agent loop. `Unknown` is any event that the loop may add, with a
/// text that describes it.
#[allow(inconsistent_fields)]
pub enum AgentEvent {
    AgentStart,
    AgentEnd { new_messages: Vec<Arc<AgentMessage>> },
    TurnStart { index: u64 },
    TurnEnd {
        index: u64,
        message: AssistantMessage,
        tool_results: Vec<(String, Result<ToolResult, ToolFailure>)>,
    },
    MessageStart { message_id: String },
    MessageUpdate { message_id: String, partial: AssistantMessage },
    MessageEnd { message_id: String, message: AssistantMessage },
    TextDelta { message_id: String, text: String },
    ThinkingDelta { message_id: String, thinking: String, signature: Option<String> },
    ToolCallStart { message_id: String, tool_use_id: String, name: String },
    ToolCallArgsDelta { tool_use_id: String, partial_input: serde_json::Value },
    ToolCallEnd { tool_use_id: String, args: serde_json::Value },
    ToolExecutionStart { tool_use_id: String, tool_name: String, args: serde_json::Value },
    ToolExecutionUpdate { tool_use_id: String, partial: ToolProgress },
    ToolExecutionEnd { tool_use_id: String, result: Result<ToolResult, ToolFailure> },
    Error(AgentError),
    RetryAttempt { attempt: u64, max_retries: u64, delay_ms: u64, error: serde_json::Value },
    Unknown { debug: String },
}

impl ToolFailure {
    /// The failure as one text.
    pub open spec fn display(self) -> Seq<char> {
        self.code@ + ": "@ + self.model_message@
    }

    pub fn new(code: &str, model_message: String) -> (failure: ToolFailure)
        ensures
            failure.code@ == code@,
            failure.model_message == model_message,
    {
        ToolFailure { code: code.to_owned(), model_message }
    }

    /// Describes the failure by its code and its message.
    pub fn to_text(&self) -> (text: String)
        ensures
            text@ == self.display(),
    {
        enclosed(self.code.as_str(), ": ", self.model_message.as_str())
    }
}

/// The name of an error kind, where it has one.
pub open spec fn error_type_view(kind: AgentErrorKind) -> Option<Seq<char>> {
    match kind {
        AgentErrorKind::ProviderTyped => Some("provider"@),
        AgentErrorKind::Tool => Some("tool"@),
        AgentErrorKind::Aborted => Some("aborted"@),
        AgentErrorKind::NotIdle => Some("not_idle"@),
        AgentErrorKind::InvalidInput => Some("invalid_input"@),
        AgentErrorKind::Internal => Some("internal"@),
        AgentErrorKind::ResourceLimitExceeded => Some("resource_limit"@),
        AgentErrorKind::StreamIdle => Some("stream_idle"@),
        AgentErrorKind::FinalAnswerRejected => Some("final_answer_rejected"@),
        AgentErrorKind::Other => None,
    }
}

/// A list of messages, each as an object.
pub open spec fn messages_view(messages: Seq<Arc<AgentMessage>>) -> Seq<JsonView> {
    Seq::new(messages.len(), |i: int| message_view(*messages[i]))
}

/// The fields of a tool result.
pub open spec fn tool_result_fields(result: ToolResult) -> Map<Seq<char>, JsonView> {
    map![
        "terminate"@ => JsonView::Bool(result.terminate),
        "text"@ => JsonView::Text(lines(data_texts(result.model_content@))),
        "details"@ => json_contents(result.details),
    ]
}

/// The fields of what a tool returned before its end.
pub open spec fn progress_fields(progress: ToolProgress) -> Map<Seq<char>, JsonView> {
    map![
        "terminate"@ => JsonView::Bool(false),
        "text"@ => JsonView::Text(lines(data_texts(progress.content@))),
        "details"@ => json_contents(progress.details),
    ]
}

/// The outcome of one tool call within a turn.
pub open spec fn outcome_view(outcome: Result<ToolResult, ToolFailure>) -> JsonView {
    match outcome {
        Ok(result) => JsonView::Object(
            tool_result_fields(result).insert("ok"@, JsonView::Bool(true)),
        ),
        Err(failure) => JsonView::Object(
            map!["ok"@ => JsonView::Bool(false), "error"@ => JsonView::Text(failure.display())],
        ),
    }
}

/// The outcomes of the tool calls of a turn by their ids; of two under one id the later.
pub open spec fn outcomes_view(
    outcomes: Seq<(String, Result<ToolResult, ToolFailure>)>,
) -> Map<Seq<char>, JsonView>
    decreases outcomes.len(),
{
    if outcomes.len() == 0 {
        Map::empty()
    } else {
        outcomes_view(outcomes.drop_last()).insert(
            outcomes.last().0@,
            outcome_view(outcomes.last().1),
        )
    }
}

/// The kind of an event, as the host sees it.
pub open spec fn event_type(event: AgentEvent) -> Seq<char> {
    match event {
        AgentEvent::AgentStart => "agent_start"@,
        AgentEvent::AgentEnd { .. } => "agent_end"@,
        AgentEvent::TurnStart { .. } => "turn_start"@,
        AgentEvent::TurnEnd { .. } => "turn_end"@,
        AgentEvent::MessageStart { .. } => "message_start"@,
        AgentEvent::MessageUpdate { .. } => "message_update"@,
        AgentEvent::MessageEnd { .. } => "message_end"@,
        AgentEvent::TextDelta { .. } => "text_delta"@,
        AgentEvent::ThinkingDelta { .. } => "thinking_delta"@,
        AgentEvent::ToolCallStart { .. } => "tool_call_start"@,
        AgentEvent::ToolCallArgsDelta { .. } => "tool_call_args_delta"@,
        AgentEvent::ToolCallEnd { .. } => "tool_call_end"@,
        AgentEvent::ToolExecutionStart { .. } => "tool_execution_start"@,
        AgentEvent::ToolExecutionUpdate { .. } => "tool_execution_update"@,
        AgentEvent::ToolExecutionEnd { .. } => "tool_execution_end"@,
        AgentEvent::Error(_) => "error"@,
        AgentEvent::RetryAttempt { .. } => "retry_attempt"@,
        AgentEvent::Unknown { .. } => "unknown"@,
    }
}

/// An integer of the host's JSON.
pub open spec fn number_view(n: int) -> JsonView {
    JsonView::Number(NumberView::Integer(n))
}

/// The fields of an event besides its kind.
pub open spec fn event_fields(event: AgentEvent) -> Map<Seq<char>, JsonView> {
    match event {
        AgentEvent::AgentStart => Map::empty(),
        AgentEvent::AgentEnd { new_messages } => map![
            "new_messages_count"@ => number_view(new_messages@.len() as int),
            "new_messages"@ => JsonView::Array(messages_view(new_messages@)),
        ],
        AgentEvent::TurnStart { index } => map!["index"@ => number_view(index as int)],
        AgentEvent::TurnEnd { index, message, tool_results } => map![
            "index"@ => number_view(index as int),
            "message_text"@ => JsonView::Text(message.text@),
            "tool_results"@ => JsonView::Object(outcomes_view(tool_results@)),
        ],
        AgentEvent::MessageStart { message_id } => map![
            "message_id"@ => JsonView::Text(message_id@),
        ],
        AgentEvent::MessageUpdate { message_id, partial } => map![
            "message_id"@ => JsonView::Text(message_id@),
            "text"@ => JsonView::Text(partial.text@),
        ],
        AgentEvent::MessageEnd { message_id, message } => map![
            "message_id"@ => JsonView::Text(message_id@),
            "text"@ => JsonView::Text(message.text@),
        ],
        AgentEvent::TextDelta { message_id, text } => map![
            "message_id"@ => JsonView::Text(message_id@),
            "text"@ => JsonView::Text(text@),
        ],
        AgentEvent::ThinkingDelta { message_id, thinking, signature } => {
            let fields = map![
                "message_id"@ => JsonView::Text(message_id@),
                "thinking"@ => JsonView::Text(thinking@),
            ];
            match signature {
                Some(signature) => fields.insert("signature"@, JsonView::Text(signature@)),
                None => fields,
            }
        },
        AgentEvent::ToolCallStart { message_id, tool_use_id, name } => map![
            "message_id"@ => JsonView::Text(message_id@),
            "tool_use_id"@ => JsonView::Text(tool_use_id@),
            "tool_name"@ => JsonView::Text(name@),
        ],
        AgentEvent::ToolCallArgsDelta { tool_use_id, partial_input } => map![
            "tool_use_id"@ => JsonView::Text(tool_use_id@),
            "partial_input"@ => json_contents(partial_input),
        ],
        AgentEvent::ToolCallEnd { tool_use_id, args } => map![
            "tool_use_id"@ => JsonView::Text(tool_use_id@),
            "args"@ => json_contents(args),
        ],
        AgentEvent::ToolExecutionStart { tool_use_id, tool_name, args } => map![
            "tool_use_id"@ => JsonView::Text(tool_use_id@),
            "tool_name"@ => JsonView::Text(tool_name@),
            "args"@ => json_contents(args),
        ],
        AgentEvent::ToolExecutionUpdate { tool_use_id, partial } => map![
            "tool_use_id"@ => JsonView::Text(tool_use_id@),
            "result"@ => JsonView::Object(progress_fields(partial)),
        ],
        AgentEvent::ToolExecutionEnd { tool_use_id, result } => match result {
            Ok(result) => map![
                "tool_use_id"@ => JsonView::Text(tool_use_id@),
                "ok"@ => JsonView::Bool(true),
                "result"@ => JsonView::Object(tool_result_fields(result)),
            ],
            Err(failure) => map![
                "tool_use_id"@ => JsonView::Text(tool_use_id@),
                "ok"@ => JsonView::Bool(false),
                "error"@ => JsonView::Text(failure.display()),
            ],
        },
        AgentEvent::Error(error) => {
            let fields = map!["message"@ => JsonView::Text(error.message@)];
            match error_type_view(error.kind) {
                Some(name) => fields.insert("error_type"@, JsonView::Text(name)),
                None => fields,
            }
        },
        AgentEvent::RetryAttempt { attempt, max_retries, delay_ms, error } => map![
            "attempt"@ => number_view(attempt as int),
            "max_retries"@ => number_view(max_retries as int),
            "delay_ms"@ => number_view(delay_ms as int),
            "error"@ => json_contents(error),
        ],
        AgentEvent::Unknown { debug } => map!["debug"@ => JsonView::Text(debug@)],
    }
}

/// The object that stands for an event.
pub open spec fn event_view(event: AgentEvent) -> JsonView {
    JsonView::Object(event_fields(event).insert("type"@, JsonView::Text(event_type(event))))
}

/// The name of an error's kind, where it has one.
pub fn error_type(error: &AgentError) -> (name: Option<&'static str>)
    ensures
        match name {
            Some(name) => error_type_view(error.kind) == Some(name@),
            None => error_type_view(error.kind) is None,
        },
{
    match error.kind {
        AgentErrorKind::ProviderTyped => Some("provider"),
        AgentErrorKind::Tool => Some("tool"),
        AgentErrorKind::Aborted => Some("aborted"),
        AgentErrorKind::NotIdle => Some("not_idle"),
        AgentErrorKind::InvalidInput => Some("invalid_input"),
        AgentErrorKind::Internal => Some("internal"),
        AgentErrorKind::ResourceLimitExceeded => Some("resource_limit"),
        AgentErrorKind::StreamIdle => Some("stream_idle"),
        AgentErrorKind::FinalAnswerRejected => Some("final_answer_rejected"),
        AgentErrorKind::Other => None,
    }
}

/// Shows a tool result as a `{terminate, text, details}` object.
pub fn tool_result_to_value(result: &ToolResult) -> (value: serde_json::Value)
    ensures
        json_contents(value) == JsonView::Object(tool_result_fields(*result)),
{
    let mut value = json_object();
    json_set(&mut value, "terminate", json_bool(result.terminate));
    json_set(&mut value, "text", json_string(join_data_blocks_text(&result.model_content)));
    json_set(&mut value, "details", json_clone(&result.details));
    value
}

/// Shows what a tool returned before its end as a `{terminate, text, details}` object.
pub fn progress_to_value(progress: &ToolProgress) -> (value: serde_json::Value)
    ensures
        json_contents(value) == JsonView::Object(progress_fields(*progress)),
{
    let mut value = json_object();
    json_set(&mut value, "terminate", json_bool(false));
    json_set(&mut value, "text", json_string(join_data_blocks_text(&progress.content)));
    json_set(&mut value, "details", json_clone(&progress.details));
    value
}

/// Shows each message of a list as an object.
pub fn messages_to_values(messages: &Vec<Arc<AgentMessage>>) -> (values: Vec<serde_json::Value>)
    ensures
        contents_seq(values@) == messages_view(messages@),
{
    let mut values: Vec<serde_json::Value> = Vec::new();
    let mut i: usize = 0;
    while i < messages.len()
        invariant
            i <= messages@.len(),
            values@.len() == i,
            forall|j: int|
                0 <= j < i ==> json_contents(#[trigger] values@[j]) == message_view(*messages@[j]),
        decreases messages@.len() - i,
    {
        values.push(message_to_value(&*messages[i]));
        i += 1;
    }
    assert(contents_seq(values@) =~= messages_view(messages@));
    values
}

/// Shows the outcome of one tool call within a turn.
fn outcome_to_value(outcome: &Result<ToolResult, ToolFailure>) -> (value: serde_json::Value)
    ensures
        json_contents(value) == outcome_view(*outcome),
{
    match outcome {
        Ok(result) => {
            let mut value = tool_result_to_value(result);
            json_set(&mut value, "ok", json_bool(true));
            value
        },
        Err(failure) => {
            let mut value = json_object();
            json_set(&mut value, "ok", json_bool(false));
            json_set(&mut value, "error", json_string(failure.to_text()));
            value
        },
    }
}

/// Shows the outcomes of the tool calls of a turn by their ids.
fn outcomes_to_value(
    outcomes: &Vec<(String, Result<ToolResult, ToolFailure>)>,
) -> (value: serde_json::Value)
    ensures
        json_contents(value) == JsonView::Object(outcomes_view(outcomes@)),
{
    let mut value = json_object();
    let mut i: usize = 0;
    while i < outcomes.len()
        invariant
            i <= outcomes@.len(),
            json_contents(value) == JsonView::Object(outcomes_view(outcomes@.take(i as int))),
        decreases outcomes@.len() - i,
    {
        json_set(&mut value, outcomes[i].0.as_str(), outcome_to_value(&outcomes[i].1));
        assert(outcomes@.take(i + 1).drop_last() =~= outcomes@.take(i as int));
        i += 1;
    }
    assert(outcomes@.take(i as int) =~= outcomes@);
    value
}

/// Shows an event as an object with its kind under `type`.
pub fn event_to_value(event: &AgentEvent) -> (value: serde_json::Value)
    ensures
        json_contents(value) == event_view(*event),
{
    let mut value = json_object();
    let kind: &str = match event {
        AgentEvent::AgentStart => "agent_start",
        AgentEvent::AgentEnd { new_messages } => {
            json_set(&mut value, "new_messages_count", json_u64(new_messages.len() as u64));
            json_set(&mut value, "new_messages", json_array(messages_to_values(new_messages)));
            "agent_end"
        },
        AgentEvent::TurnStart { index } => {
            json_set(&mut value, "index", json_u64(*index));
            "turn_start"
        },
        AgentEvent::TurnEnd { index, message, tool_results } => {
            json_set(&mut value, "index", json_u64(*index));
            json_set(&mut value, "message_text", json_string(message.text.clone()));
            json_set(&mut value, "tool_results", outcomes_to_value(tool_results));
            "turn_end"
        },
        AgentEvent::MessageStart { message_id } => {
            json_set(&mut value, "message_id", json_string(message_id.clone()));
            "message_start"
        },
        AgentEvent::MessageUpdate { message_id, partial } => {
            json_set(&mut value, "message_id", json_string(message_id.clone()));
            json_set(&mut value, "text", json_string(partial.text.clone()));
            "message_update"
        },
        AgentEvent::MessageEnd { message_id, message } => {
            json_set(&mut value, "message_id", json_string(message_id.clone()));
            json_set(&mut value, "text", json_string(message.text.clone()));
            "message_end"
        },
        AgentEvent::TextDelta { message_id, text } => {
            json_set(&mut value, "message_id", json_string(message_id.clone()));
            json_set(&mut value, "text", json_string(text.clone()));
            "text_delta"
        },
        AgentEvent::ThinkingDelta { message_id, thinking, signature } => {
            json_set(&mut value, "message_id", json_string(message_id.clone()));
            json_set(&mut value, "thinking", json_string(thinking.clone()));
            if let Some(signature) = signature {
                json_set(&mut value, "signature", json_string(signature.clone()));
            }
            "thinking_delta"
        },
        AgentEvent::ToolCallStart { message_id, tool_use_id, name } => {
            json_set(&mut value, "message_id", json_string(message_id.clone()));
            json_set(&mut value, "tool_use_id", json_string(tool_use_id.clone()));
            json_set(&mut value, "tool_name", json_string(name.clone()));
            "tool_call_start"
        },
        AgentEvent::ToolCallArgsDelta { tool_use_id, partial_input } => {
            json_set(&mut value, "tool_use_id", json_string(tool_use_id.clone()));
            json_set(&mut value, "partial_input", json_clone(partial_input));
            "tool_call_args_delta"
        },
        AgentEvent::ToolCallEnd { tool_use_id, args } => {
            json_set(&mut value, "tool_use_id", json_string(tool_use_id.clone()));
            json_set(&mut value, "args", json_clone(args));
            "tool_call_end"
        },
        AgentEvent::ToolExecutionStart { tool_use_id, tool_name, args } => {
            json_set(&mut value, "tool_use_id", json_string(tool_use_id.clone()));
            json_set(&mut value, "tool_name", json_string(tool_name.clone()));
            json_set(&mut value, "args", json_clone(args));
            "tool_execution_start"
        },
        AgentEvent::ToolExecutionUpdate { tool_use_id, partial } => {
            json_set(&mut value, "tool_use_id", json_string(tool_use_id.clone()));
            json_set(&mut value, "result", progress_to_value(partial));
            "tool_execution_update"
        },
        AgentEvent::ToolExecutionEnd { tool_use_id, result } => {
            json_set(&mut value, "tool_use_id", json_string(tool_use_id.clone()));
            match result {
                Ok(result) => {
                    json_set(&mut value, "ok", json_bool(true));
                    json_set(&mut value, "result", tool_result_to_value(result));
                },
                Err(failure) => {
                    json_set(&mut value, "ok", json_bool(false));
                    json_set(&mut value, "error", json_string(failure.to_text()));
                },
            }
            "tool_execution_end"
        },
        AgentEvent::Error(error) => {
            json_set(&mut value, "message", json_string(error.message.clone()));
            if let Some(name) = error_type(error) {
                json_set(&mut value, "error_type", json_string(name.to_owned()));
            }
            "error"
        },
        AgentEvent::RetryAttempt { attempt, max_retries, delay_ms, error } => {
            json_set(&mut value, "attempt", json_u64(*attempt));
            json_set(&mut value, "max_retries", json_u64(*max_retries));
            json_set(&mut value, "delay_ms", json_u64(*delay_ms));
            json_set(&mut value, "error", json_clone(error));
            "retry_attempt"
        },
        AgentEvent::Unknown { debug } => {
            json_set(&mut value, "debug", json_string(debug.clone()));
            "unknown"
        },
    };
    json_set(&mut value, "type", json_string(kind.to_owned()));
    value
}

/// Writes an event as one line of JSON.
pub fn event_to_json(event: &AgentEvent) -> (line: String)
    ensures
        line@ == json_text(event_view(*event)),
        is_line(line@),
        json_plain(event_view(*event), 127) ==> reads_as(line@, event_view(*event)),
{
    json_to_string(&event_to_value(event))
}

/// Every event, one of a kind unknown here too, is shown with its kind under `type`.
pub proof fn event_carries_its_type(event: AgentEvent)
    ensures
        json_field(event_view(event), "type"@) == Some(JsonView::Text(event_type(event))),
{
}

/// The kind of an event hides none of its fields: each is shown as it is.
pub proof fn event_keeps_its_fields(event: AgentEvent, key: Seq<char>)
    requires
        event_fields(event).contains_key(key),
    ensures
        json_field(event_view(event), key) == Some(event_fields(event)[key]),
{
    reveal_strlit("type");
    reveal_strlit("new_messages_count");
    reveal_strlit("new_messages");
    reveal_strlit("index");
    reveal_strlit("message_text");
    reveal_strlit("tool_results");
    reveal_strlit("message_id");
    reveal_strlit("text");
    reveal_strlit("thinking");
    reveal_strlit("signature");
    reveal_strlit("tool_use_id");
    reveal_strlit("tool_name");
    reveal_strlit("partial_input");
    reveal_strlit("args");
    reveal_strlit("result");
    reveal_strlit("ok");
    reveal_strlit("error");
    reveal_strlit("message");
    reveal_strlit("error_type");
    reveal_strlit("attempt");
    reveal_strlit("max_retries");
    reveal_strlit("delay_ms");
    reveal_strlit("debug");
    assert("type"@[1] == 'y');
    assert("text"@[1] == 'e');
    assert("args"@[1] == 'r');
    assert(key != "type"@);
}

/// The type tells the kinds of events apart: two events with one type are of one kind.
pub proof fn type_tells_events_apart(a: AgentEvent, b: AgentEvent)
    requires
        event_type(a) == event_type(b),
    ensures
        a is AgentStart == b is AgentStart,
        a is AgentEnd == b is AgentEnd,
        a is TurnStart == b is TurnStart,
        a is TurnEnd == b is TurnEnd,
        a is MessageStart == b is MessageStart,
        a is MessageUpdate == b is MessageUpdate,
        a is MessageEnd == b is MessageEnd,
        a is TextDelta == b is TextDelta,
        a is ThinkingDelta == b is ThinkingDelta,
        a is ToolCallStart == b is ToolCallStart,
        a is ToolCallArgsDelta == b is ToolCallArgsDelta,
        a is ToolCallEnd == b is ToolCallEnd,
        a is ToolExecutionStart == b is ToolExecutionStart,
        a is ToolExecutionUpdate == b is ToolExecutionUpdate,
        a is ToolExecutionEnd == b is ToolExecutionEnd,
        a is Error == b is Error,
        a is RetryAttempt == b is RetryAttempt,
        a is Unknown == b is Unknown,
{
    reveal_strlit("agent_start");
    reveal_strlit("agent_end");
    reveal_strlit("turn_start");
    reveal_strlit("turn_end");
    reveal_strlit("message_start");
    reveal_strlit("message_update");
    reveal_strlit("message_end");
    reveal_strlit("text_delta");
    reveal_strlit("thinking_delta");
    reveal_strlit("tool_call_start");
    reveal_strlit("tool_call_args_delta");
    reveal_strlit("tool_call_end");
    reveal_strlit("tool_execution_start");
    reveal_strlit("tool_execution_update");
    reveal_strlit("tool_execution_end");
    reveal_strlit("error");
    reveal_strlit("retry_attempt");
    reveal_strlit("unknown");
    assert("agent_start"@.len() == 11);
    assert("agent_end"@.len() == 9);
    assert("turn_start"@.len() == 10);
    assert("turn_end"@.len() == 8);
    assert("message_start"@.len() == 13);
    assert("message_update"@.len() == 14);
    assert("message_end"@.len() == 11);
    assert("text_delta"@.len() == 10);
    assert("thinking_delta"@.len() == 14);
    assert("tool_call_start"@.len() == 15);
    assert("tool_call_args_delta"@.len() == 20);
    assert("tool_call_end"@.len() == 13);
    assert("tool_execution_start"@.len() == 20);
    assert("tool_execution_update"@.len() == 21);
    assert("tool_execution_end"@.len() == 18);
    assert("error"@.len() == 5);
    assert("retry_attempt"@.len() == 13);
    assert("unknown"@.len() == 7);
    assert("agent_start"@[0] != "message_end"@[0]);
    assert("turn_start"@[1] != "text_delta"@[1]);
    assert("message_start"@[0] != "tool_call_end"@[0]);
    assert("message_start"@[0] != "retry_attempt"@[0]);
    assert("tool_call_end"@[0] != "retry_attempt"@[0]);
    assert("message_update"@[0] != "thinking_delta"@[0]);
    assert("tool_call_args_delta"@[5] != "tool_execution_start"@[5]);
}

} // verus!
