//! What the host reads in the JSON that it gets, and what becomes of the JSON that it gives.

use std::sync::Arc;

use vstd::prelude::*;

use crate::agent::{
    busy_line, error_view, imported, limit_line, read_registration, AgentView, Approval,
};
use crate::cost::{cost_view, CostView};
use crate::events::{
    event_view, messages_view, outcome_view, outcomes_view, AgentEvent, ToolFailure, ToolResult,
};
use crate::json::{json_contents, json_field, json_text, JsonView, NumberView};
use crate::messages::{
    content_texts, data_texts, message_view, AgentMessage, AssistantMessageKind, ContentBlock,
    DataBlock,
};
use crate::session::{
    first_refusal_stays, is_restored, read_entries, read_entry, read_session, session_view,
    EntryView, Role,
};
use crate::text::{decimal, lines, text_seq};
use crate::tools::{is_reply, reply_details, reply_terminate, reply_text};

verus! {

/// Whether an object has a field of this name and this value.
pub open spec fn shows(object: JsonView, name: Seq<char>, value: JsonView) -> bool {
    object matches JsonView::Object(fields) && fields.contains_key(name) && fields[name] == value
}

/// Whether an object has no field of this name.
pub open spec fn hides(object: JsonView, name: Seq<char>) -> bool {
    object matches JsonView::Object(fields) && !fields.contains_key(name)
}

/// Whether an object shows a whole number under this name.
pub open spec fn shows_number(object: JsonView, name: Seq<char>, n: int) -> bool {
    shows(object, name, JsonView::Number(NumberView::Integer(n)))
}

/// Whether an object shows a text under this name.
pub open spec fn shows_text(object: JsonView, name: Seq<char>, text: Seq<char>) -> bool {
    shows(object, name, JsonView::Text(text))
}

/// The names of fields are told apart.
proof fn names_differ()
    ensures
        "type"@.len() == 4 && "text"@.len() == 4 && "args"@.len() == 4 && "role"@.len() == 4,
        "type"@ != "text"@ && "type"@ != "args"@ && "role"@ != "text"@,
        "index"@.len() == 5 && "error"@.len() == 5 && "debug"@.len() == 5,
        "ok"@.len() == 2 && "v"@.len() == 1,
        "result"@.len() == 6,
        "message"@.len() == 7 && "details"@.len() == 7 && "attempt"@.len() == 7
            && "history"@.len() == 7,
        "thinking"@.len() == 8 && "delay_ms"@.len() == 8,
        "signature"@.len() == 9 && "tool_name"@.len() == 9 && "terminate"@.len() == 9,
        "message_id"@.len() == 10 && "error_type"@.len() == 10,
        "tool_use_id"@.len() == 11 && "max_retries"@.len() == 11,
        "message_text"@.len() == 12 && "tool_results"@.len() == 12 && "new_messages"@.len() == 12,
        "message_text"@ != "tool_results"@,
        "partial_input"@.len() == 13,
        "new_messages_count"@.len() == 18,
{
    reveal_strlit("type");
    reveal_strlit("text");
    reveal_strlit("args");
    reveal_strlit("role");
    reveal_strlit("index");
    reveal_strlit("error");
    reveal_strlit("debug");
    reveal_strlit("ok");
    reveal_strlit("v");
    reveal_strlit("result");
    reveal_strlit("message");
    reveal_strlit("details");
    reveal_strlit("attempt");
    reveal_strlit("history");
    reveal_strlit("thinking");
    reveal_strlit("delay_ms");
    reveal_strlit("signature");
    reveal_strlit("tool_name");
    reveal_strlit("terminate");
    reveal_strlit("message_id");
    reveal_strlit("error_type");
    reveal_strlit("tool_use_id");
    reveal_strlit("max_retries");
    reveal_strlit("message_text");
    reveal_strlit("tool_results");
    reveal_strlit("new_messages");
    reveal_strlit("partial_input");
    reveal_strlit("new_messages_count");
    assert("type"@[1] != "text"@[1]);
    assert("type"@[0] != "args"@[0]);
    assert("role"@[0] != "text"@[0]);
    assert("message_text"@[0] != "tool_results"@[0]);
}

/// Every event that is about a tool call says which: its line has the id of the call.
pub proof fn event_names_its_tool_call(event: AgentEvent)
    ensures
        event matches AgentEvent::ToolCallStart { tool_use_id, .. } ==> shows_text(
            event_view(event),
            "tool_use_id"@,
            tool_use_id@,
        ),
        event matches AgentEvent::ToolCallArgsDelta { tool_use_id, .. } ==> shows_text(
            event_view(event),
            "tool_use_id"@,
            tool_use_id@,
        ),
        event matches AgentEvent::ToolCallEnd { tool_use_id, .. } ==> shows_text(
            event_view(event),
            "tool_use_id"@,
            tool_use_id@,
        ),
        event matches AgentEvent::ToolExecutionStart { tool_use_id, .. } ==> shows_text(
            event_view(event),
            "tool_use_id"@,
            tool_use_id@,
        ),
        event matches AgentEvent::ToolExecutionUpdate { tool_use_id, .. } ==> shows_text(
            event_view(event),
            "tool_use_id"@,
            tool_use_id@,
        ),
        event matches AgentEvent::ToolExecutionEnd { tool_use_id, .. } ==> shows_text(
            event_view(event),
            "tool_use_id"@,
            tool_use_id@,
        ),
{
    names_differ();
}

/// Every event that is about a message says which: its line has the id of the message.
pub proof fn event_names_its_message(event: AgentEvent)
    ensures
        event matches AgentEvent::MessageStart { message_id } ==> shows_text(
            event_view(event),
            "message_id"@,
            message_id@,
        ),
        event matches AgentEvent::MessageUpdate { message_id, .. } ==> shows_text(
            event_view(event),
            "message_id"@,
            message_id@,
        ),
        event matches AgentEvent::MessageEnd { message_id, .. } ==> shows_text(
            event_view(event),
            "message_id"@,
            message_id@,
        ),
        event matches AgentEvent::TextDelta { message_id, .. } ==> shows_text(
            event_view(event),
            "message_id"@,
            message_id@,
        ),
        event matches AgentEvent::ThinkingDelta { message_id, .. } ==> shows_text(
            event_view(event),
            "message_id"@,
            message_id@,
        ),
        event matches AgentEvent::ToolCallStart { message_id, .. } ==> shows_text(
            event_view(event),
            "message_id"@,
            message_id@,
        ),
{
    names_differ();
}

/// What the model says reaches the host as it is: whole messages, parts of them, thoughts and
/// the texts of errors.
pub proof fn event_shows_what_is_said(event: AgentEvent)
    ensures
        event matches AgentEvent::TextDelta { text, .. } ==> shows_text(
            event_view(event),
            "text"@,
            text@,
        ),
        event matches AgentEvent::MessageUpdate { partial, .. } ==> shows_text(
            event_view(event),
            "text"@,
            partial.text@,
        ),
        event matches AgentEvent::MessageEnd { message, .. } ==> shows_text(
            event_view(event),
            "text"@,
            message.text@,
        ),
        event matches AgentEvent::TurnEnd { message, .. } ==> shows_text(
            event_view(event),
            "message_text"@,
            message.text@,
        ),
        event matches AgentEvent::ThinkingDelta { thinking, .. } ==> shows_text(
            event_view(event),
            "thinking"@,
            thinking@,
        ),
        event matches AgentEvent::ThinkingDelta { signature: Some(signature), .. } ==> shows_text(
            event_view(event),
            "signature"@,
            signature@,
        ),
        event matches AgentEvent::ThinkingDelta { signature: None, .. } ==> hides(
            event_view(event),
            "signature"@,
        ),
        event matches AgentEvent::Error(error) ==> shows_text(
            event_view(event),
            "message"@,
            error.message@,
        ),
        event matches AgentEvent::Unknown { debug } ==> shows_text(
            event_view(event),
            "debug"@,
            debug@,
        ),
{
    names_differ();
}

/// The host sees which tool is called and with what, as it is.
pub proof fn event_shows_the_call(event: AgentEvent)
    ensures
        event matches AgentEvent::ToolCallStart { name, .. } ==> shows_text(
            event_view(event),
            "tool_name"@,
            name@,
        ),
        event matches AgentEvent::ToolExecutionStart { tool_name, .. } ==> shows_text(
            event_view(event),
            "tool_name"@,
            tool_name@,
        ),
        event matches AgentEvent::ToolCallArgsDelta { partial_input, .. } ==> shows(
            event_view(event),
            "partial_input"@,
            json_contents(partial_input),
        ),
        event matches AgentEvent::ToolCallEnd { args, .. } ==> shows(
            event_view(event),
            "args"@,
            json_contents(args),
        ),
        event matches AgentEvent::ToolExecutionStart { args, .. } ==> shows(
            event_view(event),
            "args"@,
            json_contents(args),
        ),
{
    names_differ();
}

/// Numbers reach the host as they are.
pub proof fn event_shows_its_numbers(event: AgentEvent)
    ensures
        event matches AgentEvent::TurnStart { index } ==> shows_number(
            event_view(event),
            "index"@,
            index as int,
        ),
        event matches AgentEvent::TurnEnd { index, .. } ==> shows_number(
            event_view(event),
            "index"@,
            index as int,
        ),
        event matches AgentEvent::AgentEnd { new_messages } ==> shows_number(
            event_view(event),
            "new_messages_count"@,
            new_messages@.len() as int,
        ),
        event matches AgentEvent::RetryAttempt { attempt, max_retries, delay_ms, error } ==> {
            &&& shows_number(event_view(event), "attempt"@, attempt as int)
            &&& shows_number(event_view(event), "max_retries"@, max_retries as int)
            &&& shows_number(event_view(event), "delay_ms"@, delay_ms as int)
            &&& shows(event_view(event), "error"@, json_contents(error))
        },
{
    names_differ();
}

/// Whether `object` shows what a tool returned: its flag, its texts a line each, and its
/// details.
pub open spec fn shows_result(
    object: JsonView,
    terminate: bool,
    content: Seq<DataBlock>,
    details: JsonView,
) -> bool {
    &&& shows(object, "terminate"@, JsonView::Bool(terminate))
    &&& shows_text(object, "text"@, lines(data_texts(content)))
    &&& shows(object, "details"@, details)
}

/// Whether `object` shows the outcome of a tool call: what it returned, or why it failed, by
/// its code and its message.
pub open spec fn shows_outcome(
    object: JsonView,
    outcome: Result<ToolResult, ToolFailure>,
) -> bool {
    match outcome {
        Ok(result) => {
            &&& shows(object, "ok"@, JsonView::Bool(true))
            &&& shows_result(
                object,
                result.terminate,
                result.model_content@,
                json_contents(result.details),
            )
            &&& hides(object, "error"@)
        },
        Err(failure) => {
            &&& shows(object, "ok"@, JsonView::Bool(false))
            &&& shows_text(object, "error"@, failure.code@ + ": "@ + failure.model_message@)
            &&& hides(object, "text"@)
        },
    }
}

/// The end of a tool call says whether it succeeded, and shows what it returned or why it
/// failed, and not the other. What it returned before is shown likewise.
pub proof fn event_shows_the_outcome(event: AgentEvent)
    ensures
        event matches AgentEvent::ToolExecutionEnd { result: Ok(result), .. } ==> {
            &&& shows(event_view(event), "ok"@, JsonView::Bool(true))
            &&& hides(event_view(event), "error"@)
            &&& json_field(event_view(event), "result"@) matches Some(shown) && shows_result(
                shown,
                result.terminate,
                result.model_content@,
                json_contents(result.details),
            )
        },
        event matches AgentEvent::ToolExecutionEnd { result: Err(failure), .. } ==> {
            &&& shows(event_view(event), "ok"@, JsonView::Bool(false))
            &&& shows_text(
                event_view(event),
                "error"@,
                failure.code@ + ": "@ + failure.model_message@,
            )
            &&& hides(event_view(event), "result"@)
        },
        event matches AgentEvent::ToolExecutionUpdate { partial, .. } ==> {
            &&& json_field(event_view(event), "result"@) matches Some(shown) && shows_result(
                shown,
                false,
                partial.content@,
                json_contents(partial.details),
            )
        },
{
    names_differ();
}

/// The end of a turn shows the outcome of each tool call under its id, of two under one id the
/// later, and nothing else.
pub proof fn turn_shows_its_outcomes(event: AgentEvent)
    ensures
        event matches AgentEvent::TurnEnd { tool_results, .. } ==> {
            &&& json_field(event_view(event), "tool_results"@) matches Some(
                JsonView::Object(shown),
            ) && {
                &&& forall|i: int|
                    0 <= i < tool_results@.len() && (forall|j: int|
                        i < j < tool_results@.len() ==> (#[trigger] tool_results@[j]).0@
                            != tool_results@[i].0@) ==> shown.contains_key(
                        (#[trigger] tool_results@[i]).0@,
                    ) && shows_outcome(shown[tool_results@[i].0@], tool_results@[i].1)
                &&& forall|id: Seq<char>| #[trigger]
                    shown.contains_key(id) ==> exists|i: int|
                        0 <= i < tool_results@.len() && (#[trigger] tool_results@[i]).0@ == id
            }
        },
{
    names_differ();
    if let AgentEvent::TurnEnd { tool_results, .. } = event {
        let shown = outcomes_view(tool_results@);
        assert(json_field(event_view(event), "tool_results"@) == Some(JsonView::Object(shown)));
        assert forall|i: int|
            0 <= i < tool_results@.len() && (forall|j: int|
                i < j < tool_results@.len() ==> (#[trigger] tool_results@[j]).0@
                    != tool_results@[i].0@) implies shown.contains_key(
            (#[trigger] tool_results@[i]).0@,
        ) && shows_outcome(shown[tool_results@[i].0@], tool_results@[i].1) by {
            outcome_is_kept(tool_results@, i);
            outcome_is_shown(tool_results@[i].1);
        }
        assert forall|id: Seq<char>| #[trigger] shown.contains_key(id) implies exists|i: int|
            0 <= i < tool_results@.len() && (#[trigger] tool_results@[i]).0@ == id by {
            shown_outcome_is_one(tool_results@, id);
        }
    }
}

/// An outcome shows what it is.
proof fn outcome_is_shown(outcome: Result<ToolResult, ToolFailure>)
    ensures
        shows_outcome(outcome_view(outcome), outcome),
{
    names_differ();
}

/// The last outcome under an id is the one that is shown.
proof fn outcome_is_kept(outcomes: Seq<(String, Result<ToolResult, ToolFailure>)>, i: int)
    requires
        0 <= i < outcomes.len(),
        forall|j: int|
            i < j < outcomes.len() ==> (#[trigger] outcomes[j]).0@ != outcomes[i].0@,
    ensures
        outcomes_view(outcomes).contains_key(outcomes[i].0@),
        outcomes_view(outcomes)[outcomes[i].0@] == outcome_view(outcomes[i].1),
    decreases outcomes.len(),
{
    let before = outcomes.drop_last();
    if i < before.len() {
        assert(outcomes[outcomes.len() - 1].0@ != outcomes[i].0@);
        assert forall|j: int| i < j < before.len() implies (#[trigger] before[j]).0@
            != before[i].0@ by {
            assert(before[j] == outcomes[j]);
        }
        outcome_is_kept(before, i);
    }
}

/// An outcome that is shown is that of some call.
proof fn shown_outcome_is_one(
    outcomes: Seq<(String, Result<ToolResult, ToolFailure>)>,
    id: Seq<char>,
)
    requires
        outcomes_view(outcomes).contains_key(id),
    ensures
        exists|i: int| 0 <= i < outcomes.len() && (#[trigger] outcomes[i]).0@ == id,
    decreases outcomes.len(),
{
    if outcomes.len() > 0 {
        let before = outcomes.drop_last();
        if outcomes.last().0@ == id {
            assert(outcomes[outcomes.len() - 1].0@ == id);
        } else {
            shown_outcome_is_one(before, id);
            let i = choose|i: int| 0 <= i < before.len() && (#[trigger] before[i]).0@ == id;
            assert(outcomes[i].0@ == id);
        }
    }
}

/// Whether `object` shows a message: who speaks, and what is said.
pub open spec fn shows_message(object: JsonView, message: AgentMessage) -> bool {
    match message {
        AgentMessage::User(m) => shows_text(object, "role"@, "user"@) && shows_text(
            object,
            "text"@,
            lines(content_texts(m.content@)),
        ),
        AgentMessage::Assistant(m) => shows_text(object, "role"@, "assistant"@) && shows_text(
            object,
            "text"@,
            m.text@,
        ),
        AgentMessage::ToolResult(m) => shows_text(object, "role"@, "tool_result"@) && shows_text(
            object,
            "text"@,
            lines(data_texts(m.content@)),
        ),
        AgentMessage::BranchSummary(m) => shows_text(object, "role"@, "branch_summary"@)
            && shows_text(object, "text"@, m.summary@),
        AgentMessage::CompactionSummary(m) => shows_text(object, "role"@, "compaction_summary"@)
            && shows_text(object, "text"@, m.summary@),
        AgentMessage::Custom(m) => shows_text(object, "role"@, "custom"@) && shows_text(
            object,
            "text"@,
            if m.data is Some {
                json_text(json_contents(m.data->0))
            } else {
                Seq::empty()
            },
        ),
        AgentMessage::Unknown { .. } => shows_text(object, "role"@, "unknown"@) && shows_text(
            object,
            "text"@,
            Seq::empty(),
        ),
    }
}

/// A message shows who speaks and what is said.
pub proof fn message_shows_its_text(message: Arc<AgentMessage>)
    ensures
        shows_message(message_view(*message), *message),
{
    names_differ();
}

/// The end of a run shows every message of it, in order.
pub proof fn end_shows_every_message(event: AgentEvent)
    ensures
        event matches AgentEvent::AgentEnd { new_messages } ==> {
            &&& json_field(event_view(event), "new_messages"@) matches Some(
                JsonView::Array(shown),
            ) && shown.len() == new_messages@.len() && forall|i: int|
                0 <= i < shown.len() ==> shows_message(#[trigger] shown[i], *new_messages@[i])
        },
{
    names_differ();
    if let AgentEvent::AgentEnd { new_messages } = event {
        let shown = messages_view(new_messages@);
        assert(json_field(event_view(event), "new_messages"@) == Some(JsonView::Array(shown)));
        assert forall|i: int| 0 <= i < shown.len() implies shows_message(
            #[trigger] shown[i],
            *new_messages@[i],
        ) by {
            message_shows_its_text(new_messages@[i]);
        }
    }
}

/// A session shows its version and every message of the history, in order.
pub proof fn session_shows_the_history(history: Seq<Arc<AgentMessage>>)
    ensures
        shows_number(session_view(history), "v"@, 1),
        json_field(session_view(history), "history"@) matches Some(JsonView::Array(shown))
            && shown.len() == history.len() && forall|i: int|
            0 <= i < shown.len() ==> shows_message(#[trigger] shown[i], *history[i]),
{
    names_differ();
    let shown = messages_view(history);
    assert(json_field(session_view(history), "history"@) == Some(JsonView::Array(shown)));
    assert forall|i: int| 0 <= i < shown.len() implies shows_message(
        #[trigger] shown[i],
        *history[i],
    ) by {
        message_shows_its_text(history[i]);
    }
}

/// Texts are put together in order and lose nothing: none makes the empty text, one stays as
/// it is, and two lists of texts have a line break between them.
pub proof fn lines_keep_every_text(a: Seq<Seq<char>>, b: Seq<Seq<char>>, text: Seq<char>)
    ensures
        lines(Seq::empty()) == Seq::<char>::empty(),
        lines(seq![text]) == text,
        a.len() > 0 && b.len() > 0 ==> lines(a + b) == lines(a) + seq!['\n'] + lines(b),
    decreases b.len(),
{
    reveal_with_fuel(lines, 3);
    if a.len() > 0 && b.len() == 1 {
        assert((a + b).drop_last() =~= a);
        assert((a + b).last() == b[0]);
    } else if a.len() > 0 && b.len() > 1 {
        lines_keep_every_text(a, b.drop_last(), text);
        assert((a + b).drop_last() =~= a + b.drop_last());
        assert((a + b).last() == b.last());
        assert(lines(a) + seq!['\n'] + lines(b.drop_last()) + seq!['\n'] + b.last() =~= lines(a)
            + seq!['\n'] + (lines(b.drop_last()) + seq!['\n'] + b.last()));
    }
}

/// The texts of content are those of its blocks, in order: a text block has its text, another
/// block none, and what comes first stays first.
pub proof fn content_keeps_its_texts(a: Seq<ContentBlock>, b: Seq<ContentBlock>, text: String)
    ensures
        content_texts(Seq::empty()) == Seq::<Seq<char>>::empty(),
        content_texts(seq![ContentBlock::Text { text }]) == seq![text@],
        content_texts(seq![ContentBlock::Other]) == Seq::<Seq<char>>::empty(),
        content_texts(a + b) == content_texts(a) + content_texts(b),
    decreases b.len(),
{
    reveal_with_fuel(content_texts, 2);
    assert(seq![ContentBlock::Text { text }].drop_last() =~= Seq::empty());
    assert(seq![ContentBlock::Other].drop_last() =~= Seq::empty());
    assert(content_texts(seq![ContentBlock::Text { text }]) =~= seq![text@]);
    if b.len() == 0 {
        assert(a + b =~= a);
        assert(content_texts(a) + content_texts(b) =~= content_texts(a));
    } else {
        content_keeps_its_texts(a, b.drop_last(), text);
        assert((a + b).drop_last() =~= a + b.drop_last());
        assert((a + b).last() == b.last());
        assert(content_texts(a + b) =~= content_texts(a) + content_texts(b));
    }
}

/// The texts of what a tool returned are those of its blocks, in order: a text block has its
/// text, another block none, and what comes first stays first.
pub proof fn data_keeps_its_texts(a: Seq<DataBlock>, b: Seq<DataBlock>, text: String)
    ensures
        data_texts(Seq::empty()) == Seq::<Seq<char>>::empty(),
        data_texts(seq![DataBlock::Text { text }]) == seq![text@],
        data_texts(seq![DataBlock::Other]) == Seq::<Seq<char>>::empty(),
        data_texts(a + b) == data_texts(a) + data_texts(b),
    decreases b.len(),
{
    reveal_with_fuel(data_texts, 2);
    assert(seq![DataBlock::Text { text }].drop_last() =~= Seq::empty());
    assert(seq![DataBlock::Other].drop_last() =~= Seq::empty());
    assert(data_texts(seq![DataBlock::Text { text }]) =~= seq![text@]);
    if b.len() == 0 {
        assert(a + b =~= a);
        assert(data_texts(a) + data_texts(b) =~= data_texts(a));
    } else {
        data_keeps_its_texts(a, b.drop_last(), text);
        assert((a + b).drop_last() =~= a + b.drop_last());
        assert((a + b).last() == b.last());
        assert(data_texts(a + b) =~= data_texts(a) + data_texts(b));
    }
}

/// A list of strings is seen string by string.
pub proof fn strings_are_seen_one_by_one(strings: Seq<String>)
    ensures
        text_seq(strings).len() == strings.len(),
        forall|i: int| 0 <= i < strings.len() ==> #[trigger] text_seq(strings)[i] == strings[i]@,
{
}

/// A number in decimal notation has digits only, the first of which is no zero but in zero
/// itself, and the last digit is what is left over by tens.
pub proof fn decimal_is_written_in_full(n: nat)
    ensures
        decimal(n).len() > 0,
        decimal(n).last() as int == '0' as int + n % 10,
        n < 10 ==> decimal(n).len() == 1,
        n >= 10 ==> decimal(n).drop_last() == decimal(n / 10),
        n > 0 ==> decimal(n)[0] != '0',
    decreases n,
{
    if n >= 10 {
        decimal_is_written_in_full(n / 10);
        assert(decimal(n).drop_last() =~= decimal(n / 10));
        assert(decimal(n)[0] == decimal(n / 10)[0]);
    }
}

/// The lines that the agent writes itself are errors: a prompt out of turn is answered as
/// busy, and a run with too many turns is reported with their number.
pub proof fn agent_reports_its_errors(max_turns: u32)
    ensures
        exists|object: JsonView|
            busy_line() == #[trigger] json_text(object) && shows_text(object, "type"@, "error"@)
                && shows_text(object, "message"@, "prompt() called while a run is in flight"@)
                && shows_text(object, "error_type"@, "busy"@),
        exists|object: JsonView|
            limit_line(max_turns) == #[trigger] json_text(object) && shows_text(
                object,
                "type"@,
                "error"@,
            ) && shows_text(
                object,
                "message"@,
                "max_turns ("@ + decimal(max_turns as nat) + ") exceeded; aborting"@,
            ) && shows_text(object, "error_type"@, "resource_limit"@),
{
    names_differ();
    let busy = error_view("prompt() called while a run is in flight"@, "busy"@);
    assert(busy_line() == json_text(busy));
    let limit = error_view(
        "max_turns ("@ + decimal(max_turns as nat) + ") exceeded; aborting"@,
        "resource_limit"@,
    );
    assert(limit_line(max_turns) == json_text(limit));
}

/// The host sees each sum of tokens under its own name.
pub proof fn cost_shows_every_sum(cost: CostView)
    ensures
        shows_number(cost_view(cost), "totalInputTokens"@, cost.input_tokens as int),
        shows_number(cost_view(cost), "totalOutputTokens"@, cost.output_tokens as int),
        shows_number(cost_view(cost), "totalCacheReadTokens"@, cost.cache_read_tokens as int),
        shows_number(cost_view(cost), "totalCacheWriteTokens"@, cost.cache_write_tokens as int),
        shows_number(cost_view(cost), "totalReasoningTokens"@, cost.reasoning_tokens as int),
        shows_number(cost_view(cost), "providerCalls"@, cost.provider_calls as int),
{
    reveal_strlit("totalInputTokens");
    reveal_strlit("totalOutputTokens");
    reveal_strlit("totalCacheReadTokens");
    reveal_strlit("totalCacheWriteTokens");
    reveal_strlit("totalReasoningTokens");
    reveal_strlit("providerCalls");
    assert("totalInputTokens"@.len() == 16);
    assert("totalOutputTokens"@.len() == 17);
    assert("totalCacheReadTokens"@.len() == 20);
    assert("totalCacheWriteTokens"@.len() == 21);
    assert("totalReasoningTokens"@.len() == 20);
    assert("providerCalls"@.len() == 13);
    assert("totalCacheReadTokens"@[5] != "totalReasoningTokens"@[5]);
}

/// The host's answer to a call is read as it says: a text under `text` is the text, and
/// otherwise the whole answer is; what stands under `details` are the details, and otherwise
/// those that are given; and the run ends exactly where `terminate` says that it is to.
pub proof fn reply_is_read_as_it_says(
    result: ToolResult,
    reply: JsonView,
    raw: Seq<char>,
    otherwise: JsonView,
    text: Seq<char>,
    details: JsonView,
    terminate: bool,
)
    requires
        is_reply(
            result,
            reply_text(reply, raw),
            reply_details(reply, otherwise),
            reply_terminate(reply),
        ),
    ensures
        result.model_content@.len() == 1,
        result.model_content@[0] matches DataBlock::Text { text: found } && {
            &&& shows_text(reply, "text"@, text) ==> found@ == text
            &&& (forall|t: Seq<char>| !#[trigger] shows_text(reply, "text"@, t)) ==> found@ == raw
        },
        shows(reply, "details"@, details) ==> json_contents(result.details) == details,
        (forall|d: JsonView| !#[trigger] shows(reply, "details"@, d)) ==> json_contents(
            result.details,
        ) == otherwise,
        shows(reply, "terminate"@, JsonView::Bool(terminate)) ==> result.terminate == terminate,
        !shows(reply, "terminate"@, JsonView::Bool(true)) ==> !result.terminate,
{
    if let JsonView::Object(fields) = reply {
        if fields.contains_key("text"@) {
            if let JsonView::Text(t) = fields["text"@] {
                assert(shows_text(reply, "text"@, t));
            }
        }
        if fields.contains_key("details"@) {
            assert(shows(reply, "details"@, fields["details"@]));
        }
    }
    if result.terminate {
        assert(shows(reply, "terminate"@, JsonView::Bool(true)));
    }
}

/// The line of an event has its kind under `type`, whatever else is in the event.
pub proof fn event_shows_its_kind(event: AgentEvent)
    ensures
        event is AgentStart ==> shows_text(event_view(event), "type"@, "agent_start"@),
        event is AgentEnd ==> shows_text(event_view(event), "type"@, "agent_end"@),
        event is TurnStart ==> shows_text(event_view(event), "type"@, "turn_start"@),
        event is TurnEnd ==> shows_text(event_view(event), "type"@, "turn_end"@),
        event is MessageStart ==> shows_text(event_view(event), "type"@, "message_start"@),
        event is MessageUpdate ==> shows_text(event_view(event), "type"@, "message_update"@),
        event is MessageEnd ==> shows_text(event_view(event), "type"@, "message_end"@),
        event is TextDelta ==> shows_text(event_view(event), "type"@, "text_delta"@),
        event is ThinkingDelta ==> shows_text(event_view(event), "type"@, "thinking_delta"@),
        event is ToolCallStart ==> shows_text(event_view(event), "type"@, "tool_call_start"@),
        event is ToolCallArgsDelta ==> shows_text(
            event_view(event),
            "type"@,
            "tool_call_args_delta"@,
        ),
        event is ToolCallEnd ==> shows_text(event_view(event), "type"@, "tool_call_end"@),
        event is ToolExecutionStart ==> shows_text(
            event_view(event),
            "type"@,
            "tool_execution_start"@,
        ),
        event is ToolExecutionUpdate ==> shows_text(
            event_view(event),
            "type"@,
            "tool_execution_update"@,
        ),
        event is ToolExecutionEnd ==> shows_text(event_view(event), "type"@, "tool_execution_end"@),
        event is Error ==> shows_text(event_view(event), "type"@, "error"@),
        event is RetryAttempt ==> shows_text(event_view(event), "type"@, "retry_attempt"@),
        event is Unknown ==> shows_text(event_view(event), "type"@, "unknown"@),
{
}

/// The line of an error has the kind of the error under `error_type`, where the kind has a
/// name.
pub proof fn error_shows_its_kind(event: AgentEvent)
    ensures
        event matches AgentEvent::Error(error) ==> {
            &&& error.kind is ProviderTyped ==> shows_text(
                event_view(event),
                "error_type"@,
                "provider"@,
            )
            &&& error.kind is Tool ==> shows_text(
                event_view(event),
                "error_type"@,
                "tool"@,
            )
            &&& error.kind is Aborted ==> shows_text(
                event_view(event),
                "error_type"@,
                "aborted"@,
            )
            &&& error.kind is NotIdle ==> shows_text(
                event_view(event),
                "error_type"@,
                "not_idle"@,
            )
            &&& error.kind is InvalidInput ==> shows_text(
                event_view(event),
                "error_type"@,
                "invalid_input"@,
            )
            &&& error.kind is Internal ==> shows_text(
                event_view(event),
                "error_type"@,
                "internal"@,
            )
            &&& error.kind is ResourceLimitExceeded ==> shows_text(
                event_view(event),
                "error_type"@,
                "resource_limit"@,
            )
            &&& error.kind is StreamIdle ==> shows_text(
                event_view(event),
                "error_type"@,
                "stream_idle"@,
            )
            &&& error.kind is FinalAnswerRejected ==> shows_text(
                event_view(event),
                "error_type"@,
                "final_answer_rejected"@,
            )
            &&& error.kind is Other ==> hides(event_view(event), "error_type"@)
        },
{
    names_differ();
}

/// Whether an entry of a session says this: who speaks, and what is said, which is nothing
/// where the entry has no text.
pub open spec fn entry_says(item: JsonView, entry: EntryView) -> bool {
    &&& match entry.role {
        Role::User => shows_text(item, "role"@, "user"@),
        Role::Assistant => shows_text(item, "role"@, "assistant"@),
    }
    &&& shows_text(item, "text"@, entry.text) || (entry.text.len() == 0 && forall|t: Seq<char>|
        !#[trigger] shows_text(item, "text"@, t))
}

/// An entry is read as what it says, and one that names another role, or none, is refused
/// with it.
proof fn entry_is_read_as_it_says(item: JsonView, entry: EntryView, role: Seq<char>)
    ensures
        entry_says(item, entry) ==> read_entry(item) == Ok::<EntryView, Seq<char>>(entry),
        read_entry(item) matches Ok(read) ==> entry_says(item, read),
        shows_text(item, "role"@, role) && role != "user"@ && role != "assistant"@ ==> read_entry(
            item,
        ) == Err::<EntryView, Seq<char>>(
            "session entry role '"@ + role + "' is not importable (run-internal)"@,
        ),
        (forall|r: Seq<char>| !#[trigger] shows_text(item, "role"@, r)) ==> read_entry(item)
            == Err::<EntryView, Seq<char>>(
            "session entry role '"@ + "unknown"@ + "' is not importable (run-internal)"@,
        ),
{
    names_differ();
    reveal_strlit("user");
    reveal_strlit("assistant");
    reveal_strlit("unknown");
    assert("user"@.len() == 4);
    assert("assistant"@.len() == 9);
    assert("unknown"@.len() == 7);
    if let JsonView::Object(fields) = item {
        if fields.contains_key("text"@) {
            if let JsonView::Text(t) = fields["text"@] {
                assert(shows_text(item, "text"@, t));
            }
        }
        if fields.contains_key("role"@) {
            if let JsonView::Text(r) = fields["role"@] {
                assert(shows_text(item, "role"@, r));
            }
        }
    }
    if entry_says(item, entry) && entry.text.len() == 0 {
        assert(entry.text =~= Seq::empty());
    }
}

/// Entries are read one by one, in order.
proof fn entries_are_read_in_order(items: Seq<JsonView>, entries: Seq<EntryView>)
    ensures
        read_entries(items) == Ok::<Seq<EntryView>, Seq<char>>(entries) <==> {
            &&& items.len() == entries.len()
            &&& forall|i: int| 0 <= i < items.len() ==> entry_says(#[trigger] items[i], entries[i])
        },
    decreases items.len(),
{
    if items.len() == 0 {
        if entries.len() == 0 {
            assert(entries =~= Seq::empty());
        }
    } else {
        let before = items.drop_last();
        if entries.len() > 0 {
            let shorter = entries.drop_last();
            entries_are_read_in_order(before, shorter);
            entry_is_read_as_it_says(items.last(), entries.last(), Seq::empty());
            if items.len() == entries.len() && forall|i: int|
                0 <= i < items.len() ==> entry_says(#[trigger] items[i], entries[i]) {
                assert forall|i: int| 0 <= i < before.len() implies entry_says(
                    #[trigger] before[i],
                    shorter[i],
                ) by {
                    assert(entry_says(items[i], entries[i]));
                }
                assert(entry_says(items[items.len() - 1], entries[items.len() - 1]));
                assert(shorter.push(entries.last()) =~= entries);
            }
            if read_entries(items) == Ok::<Seq<EntryView>, Seq<char>>(entries) {
                let read = read_entries(before)->Ok_0;
                let last = read_entry(items.last())->Ok_0;
                assert(entries == read.push(last));
                assert(shorter =~= read);
                entry_is_read_as_it_says(items.last(), last, Seq::empty());
                assert forall|i: int| 0 <= i < items.len() implies entry_says(
                    #[trigger] items[i],
                    entries[i],
                ) by {
                    if i < before.len() {
                        assert(entry_says(before[i], shorter[i]));
                    }
                }
            }
        } else if let Ok(read) = read_entries(items) {
            assert(read.len() > 0);
        }
    }
}

/// A session is read exactly where it shows the version, and a history of which every entry
/// says what the user or the assistant said; what is read is what the entries say, in order.
pub proof fn session_is_read_as_it_says(
    session: JsonView,
    items: Seq<JsonView>,
    entries: Seq<EntryView>,
)
    requires
        shows_number(session, "v"@, 1),
        shows(session, "history"@, JsonView::Array(items)),
    ensures
        read_session(session) == Ok::<Seq<EntryView>, Seq<char>>(entries) <==> {
            &&& items.len() == entries.len()
            &&& forall|i: int| 0 <= i < items.len() ==> entry_says(#[trigger] items[i], entries[i])
        },
{
    entries_are_read_in_order(items, entries);
}

/// A session of another version, or without a history, is refused and says why.
pub proof fn session_without_history_is_refused(session: JsonView)
    ensures
        !shows_number(session, "v"@, 1) ==> read_session(session) == Err::<
            Seq<EntryView>,
            Seq<char>,
        >("unsupported session version (expected 1)"@),
        shows_number(session, "v"@, 1) && (forall|items: Seq<JsonView>|
            !#[trigger] has_history(session, items)) ==> read_session(session) == Err::<
            Seq<EntryView>,
            Seq<char>,
        >("session json missing history array"@),
{
    if let JsonView::Object(fields) = session {
        if fields.contains_key("history"@) {
            if let JsonView::Array(items) = fields["history"@] {
                assert(has_history(session, items));
            }
        }
    }
}

/// Whether the history of a session is this list.
pub open spec fn has_history(session: JsonView, items: Seq<JsonView>) -> bool {
    shows(session, "history"@, JsonView::Array(items))
}

/// The first entry of a session that neither the user nor the assistant said is what the
/// session is refused for, with the role that the entry names.
pub proof fn session_is_refused_for_its_first_other_entry(
    session: JsonView,
    items: Seq<JsonView>,
    entries: Seq<EntryView>,
    role: Seq<char>,
)
    requires
        shows_number(session, "v"@, 1),
        shows(session, "history"@, JsonView::Array(items)),
        entries.len() < items.len(),
        forall|i: int| 0 <= i < entries.len() ==> entry_says(#[trigger] items[i], entries[i]),
        shows_text(items[entries.len() as int], "role"@, role) || (role == "unknown"@ && forall|
            r: Seq<char>,
        |
            !#[trigger] shows_text(items[entries.len() as int], "role"@, r)),
        role != "user"@,
        role != "assistant"@,
    ensures
        read_session(session) == Err::<Seq<EntryView>, Seq<char>>(
            "session entry role '"@ + role + "' is not importable (run-internal)"@,
        ),
{
    let first = entries.len() as int;
    let good = items.take(first);
    assert forall|i: int| 0 <= i < good.len() implies entry_says(
        #[trigger] good[i],
        entries[i],
    ) by {
        assert(entry_says(items[i], entries[i]));
    }
    entries_are_read_in_order(good, entries);
    entry_is_read_as_it_says(items[first], EntryView { role: Role::User, text: role }, role);
    assert(items.take(first + 1).drop_last() =~= good);
    assert(items.take(first + 1).last() == items[first]);
    first_refusal_stays(items, first + 1);
}

/// After the import of a session every message has what its entry says, in the blocks that the
/// model gets as in the text that the host sees, and counts as made here.
pub proof fn import_restores_what_was_said(
    before: AgentView,
    after: AgentView,
    entries: Seq<EntryView>,
    outcome: Result<(), String>,
    i: int,
)
    requires
        imported(before, after, Ok(entries), outcome),
        0 <= i < entries.len(),
    ensures
        after.history.len() == entries.len(),
        entries[i].role is User ==> {
            &&& *after.history[i] matches AgentMessage::User(m)
            &&& content_texts(m.content@) == seq![entries[i].text]
            &&& m.content@.len() == 1
            &&& m.origin is None
        },
        entries[i].role is Assistant ==> {
            &&& *after.history[i] matches AgentMessage::Assistant(m)
            &&& content_texts(m.content@) == seq![entries[i].text]
            &&& m.content@.len() == 1
            &&& m.text@ == entries[i].text
            &&& m.kind == AssistantMessageKind::FinalAnswer
            &&& m.message_id@.len() == 0
            &&& m.turn_id@.len() == 0
            &&& m.usage is None
            &&& m.origin is None
        },
{
    reveal_with_fuel(content_texts, 2);
    assert(is_restored(*after.history[i], entries[i]));
    match *after.history[i] {
        AgentMessage::User(m) => {
            assert(m.content@.drop_last() =~= Seq::empty());
            assert(content_texts(m.content@) =~= seq![entries[i].text]);
        },
        AgentMessage::Assistant(m) => {
            assert(m.content@.drop_last() =~= Seq::empty());
            assert(content_texts(m.content@) =~= seq![entries[i].text]);
        },
        _ => {},
    }
}

/// A tool is registered as its options say: the host decides on its calls where they say
/// `manual`, and not where they say `auto` or nothing; what else they say, an invalid schema
/// and invalid options are refused, the schema first.
pub proof fn options_are_read_as_they_say(
    schema: JsonView,
    options: JsonView,
    reason: Seq<char>,
    other: Result<JsonView, Seq<char>>,
)
    ensures
        shows_text(options, "approval"@, "manual"@) ==> read_registration(
            Ok(schema),
            Ok(options),
        ) == Ok::<(JsonView, Approval), Seq<char>>((schema, Approval::Manual)),
        shows_text(options, "approval"@, "auto"@) ==> read_registration(Ok(schema), Ok(options))
            == Ok::<(JsonView, Approval), Seq<char>>((schema, Approval::Auto)),
        json_field(options, "approval"@) is None ==> read_registration(Ok(schema), Ok(options))
            == Ok::<(JsonView, Approval), Seq<char>>((schema, Approval::Auto)),
        json_field(options, "approval"@) is Some && !shows_text(options, "approval"@, "manual"@)
            && !shows_text(options, "approval"@, "auto"@) ==> read_registration(
            Ok(schema),
            Ok(options),
        ) == Err::<(JsonView, Approval), Seq<char>>(
            "invalid tool options: "@ + "approval must be 'auto' or 'manual'"@,
        ),
        read_registration(Err(reason), other) == Err::<(JsonView, Approval), Seq<char>>(
            "invalid tool schema: "@ + reason,
        ),
        read_registration(Ok(schema), Err(reason)) == Err::<(JsonView, Approval), Seq<char>>(
            "invalid tool options: "@ + reason,
        ),
{
    reveal_strlit("auto");
    reveal_strlit("manual");
    assert("auto"@.len() == 4);
    assert("manual"@.len() == 6);
}

/// The line of an event has no other fields than those of its kind.
pub proof fn event_shows_nothing_else(event: AgentEvent, name: Seq<char>)
    ensures
        event is AgentStart && !hides(event_view(event), name) ==> (
            name == "type"@
        ),
        event is AgentEnd && !hides(event_view(event), name) ==> (
            name == "type"@
            || name == "new_messages_count"@
            || name == "new_messages"@
        ),
        event is TurnStart && !hides(event_view(event), name) ==> (
            name == "type"@
            || name == "index"@
        ),
        event is TurnEnd && !hides(event_view(event), name) ==> (
            name == "type"@
            || name == "index"@
            || name == "message_text"@
            || name == "tool_results"@
        ),
        event is MessageStart && !hides(event_view(event), name) ==> (
            name == "type"@
            || name == "message_id"@
        ),
        event is MessageUpdate && !hides(event_view(event), name) ==> (
            name == "type"@
            || name == "message_id"@
            || name == "text"@
        ),
        event is MessageEnd && !hides(event_view(event), name) ==> (
            name == "type"@
            || name == "message_id"@
            || name == "text"@
        ),
        event is TextDelta && !hides(event_view(event), name) ==> (
            name == "type"@
            || name == "message_id"@
            || name == "text"@
        ),
        event is ThinkingDelta && !hides(event_view(event), name) ==> (
            name == "type"@
            || name == "message_id"@
            || name == "thinking"@
            || name == "signature"@
        ),
        event is ToolCallStart && !hides(event_view(event), name) ==> (
            name == "type"@
            || name == "message_id"@
            || name == "tool_use_id"@
            || name == "tool_name"@
        ),
        event is ToolCallArgsDelta && !hides(event_view(event), name) ==> (
            name == "type"@
            || name == "tool_use_id"@
            || name == "partial_input"@
        ),
        event is ToolCallEnd && !hides(event_view(event), name) ==> (
            name == "type"@
            || name == "tool_use_id"@
            || name == "args"@
        ),
        event is ToolExecutionStart && !hides(event_view(event), name) ==> (
            name == "type"@
            || name == "tool_use_id"@
            || name == "tool_name"@
            || name == "args"@
        ),
        event is ToolExecutionUpdate && !hides(event_view(event), name) ==> (
            name == "type"@
            || name == "tool_use_id"@
            || name == "result"@
        ),
        event is ToolExecutionEnd && !hides(event_view(event), name) ==> (
            name == "type"@
            || name == "tool_use_id"@
            || name == "ok"@
            || name == "result"@
            || name == "error"@
        ),
        event is Error && !hides(event_view(event), name) ==> (
            name == "type"@
            || name == "message"@
            || name == "error_type"@
        ),
        event is RetryAttempt && !hides(event_view(event), name) ==> (
            name == "type"@
            || name == "attempt"@
            || name == "max_retries"@
            || name == "delay_ms"@
            || name == "error"@
        ),
        event is Unknown && !hides(event_view(event), name) ==> (
            name == "type"@
            || name == "debug"@
        ),
{
}

/// A message, what a tool returned and why it failed, a session and the sums of tokens have no
/// other fields than theirs.
pub proof fn objects_show_nothing_else(
    message: Arc<AgentMessage>,
    outcome: Result<ToolResult, ToolFailure>,
    history: Seq<Arc<AgentMessage>>,
    cost: CostView,
    name: Seq<char>,
)
    ensures
        !hides(message_view(*message), name) ==> name == "role"@ || name == "text"@,
        outcome is Ok && !hides(outcome_view(outcome), name) ==> name == "ok"@ || name
            == "terminate"@ || name == "text"@ || name == "details"@,
        outcome is Err && !hides(outcome_view(outcome), name) ==> name == "ok"@ || name
            == "error"@,
        !hides(session_view(history), name) ==> name == "v"@ || name == "history"@,
        !hides(cost_view(cost), name) ==> name == "totalInputTokens"@ || name
            == "totalOutputTokens"@ || name == "totalCacheReadTokens"@ || name
            == "totalCacheWriteTokens"@ || name == "totalReasoningTokens"@ || name
            == "providerCalls"@,
{
}

} // verus!
