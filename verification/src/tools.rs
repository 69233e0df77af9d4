//! Tools of the host, and calls that wait for its answer.
//!
//! A tool is either a callback of the host, which the agent loop calls, or a placeholder:
//! each call of it is parked under the id that the model gave it until the host answers.
//! An approval gate in front of a tool parks a call in the same way until the host allows
//! or denies it.

use std::sync::Arc;

use futures::channel::{mpsc, oneshot};
use vstd::prelude::*;

use crate::channels::{
    answer_line, decision_channel, decision_line, decision_sent, reply_channel, reply_line,
    reply_sent, send_decision, send_reply, verdict_line,
};
use crate::events::{ToolFailure, ToolResult};
use crate::json::{
    json_as_bool, json_as_str, json_clone, json_contents, json_field, json_get, json_null,
    json_parse, json_plain, json_text, json_text_field, json_to_string, parse_json, reads_as,
    JsonView,
};
use crate::messages::DataBlock;
use crate::parked::Parked;
use crate::text::{enclosed, joined};

verus! {

/// What the model is told of a tool.
pub struct ToolInfo {
    pub name: String,
    pub description: String,
    pub schema: serde_json::Value,
}

/// What the model is told of a tool, as plain values.
pub struct ToolIdentity {
    pub name: Seq<char>,
    pub description: Seq<char>,
    pub schema: JsonView,
}

impl View for ToolInfo {
    type V = ToolIdentity;

    open spec fn view(&self) -> ToolIdentity {
        ToolIdentity {
            name: self.name@,
            description: self.description@,
            schema: json_contents(self.schema),
        }
    }
}

/// A tool that is a callback of the host, which keeps it under the handle `callback`.
pub struct JsTool {
    info: Arc<ToolInfo>,
    callback: u64,
}

/// How a callback of the host ended: it could not be called, its promise was rejected, or
/// it returned a value, which may or may not be a text.
pub enum CallbackOutcome {
    CallFailed { reason: String },
    Rejected { reason: String },
    Returned { text: Option<String> },
}

/// A placeholder for a tool: each call waits until the host answers it.
pub struct PendingTool {
    info: Arc<ToolInfo>,
    pending: Parked<mpsc::Sender<String>>,
}

/// A gate in front of a tool: each call waits until the host allows or denies it.
pub struct ApprovalGate {
    pending: Parked<oneshot::Sender<bool>>,
}

/// What becomes of a call that an approval gate held.
pub enum BeforeToolCallDecision {
    Allow,
    Deny(ToolFailure),
}

pub enum ToolKind {
    Callback(JsTool),
    Pump(PendingTool),
}

/// A tool with the approval gates in front of it. A call passes the last gate first.
pub struct AgentTool {
    pub kind: ToolKind,
    pub gates: Vec<ApprovalGate>,
}

/// A tool's kind, with the channels of the calls that wait for an answer, by the calls' ids.
#[verifier::ext_equal]
pub enum ToolKindView {
    Callback(u64),
    Pump(Map<Seq<char>, int>),
}

/// A tool as plain values; each gate holds the channels of the calls that wait for a
/// decision, by the calls' ids.
#[verifier::ext_equal]
pub struct ToolView {
    pub identity: ToolIdentity,
    pub kind: ToolKindView,
    pub gates: Seq<Map<Seq<char>, int>>,
}

/// The channels of parked calls by their ids.
pub open spec fn reply_lines(parked: Map<Seq<char>, mpsc::Sender<String>>) -> Map<Seq<char>, int> {
    Map::new(|id: Seq<char>| parked.contains_key(id), |id: Seq<char>| reply_line(parked[id]))
}

/// The channels of held calls by their ids.
pub open spec fn decision_lines(parked: Map<Seq<char>, oneshot::Sender<bool>>) -> Map<
    Seq<char>,
    int,
> {
    Map::new(|id: Seq<char>| parked.contains_key(id), |id: Seq<char>| decision_line(parked[id]))
}

/// The channels of the calls of a tool that wait for an answer, by the calls' ids.
pub open spec fn waiting_calls(tool: ToolView) -> Map<Seq<char>, int> {
    match tool.kind {
        ToolKindView::Callback(_) => Map::empty(),
        ToolKindView::Pump(waiting) => waiting,
    }
}

/// A placeholder with one more call that waits for an answer.
pub open spec fn with_call(tool: ToolView, id: Seq<char>, line: int) -> ToolView {
    ToolView { kind: ToolKindView::Pump(waiting_calls(tool).insert(id, line)), ..tool }
}

/// A tool of which the call `id` waits for no answer any longer.
pub open spec fn without_call(tool: ToolView, id: Seq<char>) -> ToolView {
    match tool.kind {
        ToolKindView::Callback(_) => tool,
        ToolKindView::Pump(waiting) => ToolView {
            kind: ToolKindView::Pump(waiting.remove(id)),
            ..tool
        },
    }
}

/// Whether an answer reached the call `id`, if it waits among these, and was accepted or
/// refused there. Where no such call waits, none accepted it.
pub open spec fn call_answered(
    waiting: Map<Seq<char>, int>,
    id: Seq<char>,
    text: Seq<char>,
    accepted: bool,
) -> bool {
    if waiting.contains_key(id) {
        reply_sent(waiting[id], text, accepted)
    } else {
        !accepted
    }
}

/// A tool with one more call that waits at a gate.
pub open spec fn with_held_call(tool: ToolView, gate: int, id: Seq<char>, line: int) -> ToolView {
    ToolView { gates: tool.gates.update(gate, tool.gates[gate].insert(id, line)), ..tool }
}

/// Gates of which the first `count` hold the call `id` no longer.
pub open spec fn gates_without(
    gates: Seq<Map<Seq<char>, int>>,
    id: Seq<char>,
    count: int,
) -> Seq<Map<Seq<char>, int>> {
    Seq::new(
        gates.len(),
        |g: int|
            if g < count {
                gates[g].remove(id)
            } else {
                gates[g]
            },
    )
}

/// Whether a decision reached the call `id`, if it is held among these, and whether the call
/// took it. Where no such call is held, none took it.
pub open spec fn gate_decided(
    gate: Map<Seq<char>, int>,
    id: Seq<char>,
    allow: bool,
    accepted: bool,
) -> bool {
    if gate.contains_key(id) {
        decision_sent(gate[id], allow, accepted)
    } else {
        !accepted
    }
}

/// Whether a decision on the call `id` went to the gates of a tool up to the first `count`,
/// none of which accepted it but perhaps the last.
pub open spec fn gates_decided(
    gates: Seq<Map<Seq<char>, int>>,
    id: Seq<char>,
    allow: bool,
    count: int,
    accepted: bool,
) -> bool {
    &&& 0 <= count <= gates.len()
    &&& accepted ==> count > 0
    &&& forall|g: int|
        0 <= g < count ==> gate_decided(
            #[trigger] gates[g],
            id,
            allow,
            accepted && g == count - 1,
        )
}

/// Whether a tool has become another by a decision on the call `id`: the gates are asked in
/// order until one accepts it, and those that were asked hold the call no longer.
pub open spec fn call_decided(
    before: ToolView,
    after: ToolView,
    id: Seq<char>,
    allow: bool,
    accepted: bool,
) -> bool {
    exists|count: int|
        {
            &&& #[trigger] gates_decided(before.gates, id, allow, count, accepted)
            &&& !accepted ==> count == before.gates.len()
            &&& after == (ToolView { gates: gates_without(before.gates, id, count), ..before })
        }
}

/// Whether `result` is one text with `details` and `terminate`.
pub open spec fn is_reply(
    result: ToolResult,
    text: Seq<char>,
    details: JsonView,
    terminate: bool,
) -> bool {
    &&& result.model_content@.len() == 1
    &&& result.model_content@[0] matches DataBlock::Text { text: found } && found@ == text
    &&& json_contents(result.details) == details
    &&& result.terminate == terminate
}

/// Whether `failure` has this code and this message.
pub open spec fn is_failure(failure: ToolFailure, code: Seq<char>, message: Seq<char>) -> bool {
    failure.code@ == code && failure.model_message@ == message
}

/// The text of a reply: its `text` field, or the whole reply where it has no such text.
pub open spec fn reply_text(reply: JsonView, raw: Seq<char>) -> Seq<char> {
    match json_text_field(reply, "text"@) {
        Some(text) => text,
        None => raw,
    }
}

/// The details of a reply: its `details` field, or `otherwise` where it has none.
pub open spec fn reply_details(reply: JsonView, otherwise: JsonView) -> JsonView {
    match json_field(reply, "details"@) {
        Some(details) => details,
        None => otherwise,
    }
}

/// Whether a reply ends the run: its `terminate` field, where that is a truth value.
pub open spec fn reply_terminate(reply: JsonView) -> bool {
    json_field(reply, "terminate"@) == Some(JsonView::Bool(true))
}

/// Reads a reply that was parsed from `raw`, with `details` where it has none of its own.
fn read_reply(reply: &serde_json::Value, raw: &str, otherwise: serde_json::Value) -> (result:
    ToolResult)
    ensures
        is_reply(
            result,
            reply_text(json_contents(*reply), raw@),
            reply_details(json_contents(*reply), json_contents(otherwise)),
            reply_terminate(json_contents(*reply)),
        ),
{
    let text: String = match json_get(reply, "text") {
        Some(field) => match json_as_str(field) {
            Some(text) => text.to_owned(),
            None => raw.to_owned(),
        },
        None => raw.to_owned(),
    };
    let details: serde_json::Value = match json_get(reply, "details") {
        Some(field) => json_clone(field),
        None => otherwise,
    };
    let terminate: bool = match json_get(reply, "terminate") {
        Some(field) => match json_as_bool(field) {
            Some(flag) => flag,
            None => false,
        },
        None => false,
    };
    let mut model_content: Vec<DataBlock> = Vec::new();
    model_content.push(DataBlock::Text { text });
    ToolResult { model_content, details, terminate }
}

/// Reads the host's answer to a parked call out of the value that it was parsed to. An
/// answer without details has the null value for them.
pub fn pump_reply(reply: &serde_json::Value, result_json: &str) -> (result: ToolResult)
    ensures
        is_reply(
            result,
            reply_text(json_contents(*reply), result_json@),
            reply_details(json_contents(*reply), JsonView::Null),
            reply_terminate(json_contents(*reply)),
        ),
{
    read_reply(reply, result_json, json_null())
}

/// Reads what a callback returned out of the value that it was parsed to. A reply without
/// details is its own details.
pub fn callback_reply(reply: serde_json::Value, returned: &str) -> (result: ToolResult)
    ensures
        is_reply(
            result,
            reply_text(json_contents(reply), returned@),
            reply_details(json_contents(reply), json_contents(reply)),
            reply_terminate(json_contents(reply)),
        ),
{
    let whole = json_clone(&reply);
    read_reply(&reply, returned, whole)
}

/// Reads the host's answer to the parked call `call_id`.
pub fn parse_pump_result(call_id: &str, result_json: &str) -> (result: Result<
    ToolResult,
    ToolFailure,
>)
    ensures
        match json_parse(result_json@) {
            Ok(reply) => result matches Ok(result) && is_reply(
                result,
                reply_text(reply, result_json@),
                reply_details(reply, JsonView::Null),
                reply_terminate(reply),
            ),
            Err(reason) => result matches Err(failure) && is_failure(
                failure,
                "invalid_result"@,
                "resolveTool JSON parse failed: "@ + reason,
            ),
        },
{
    match parse_json(result_json) {
        Ok(reply) => Ok(pump_reply(&reply, result_json)),
        Err(reason) => Err(
            ToolFailure::new(
                "invalid_result",
                joined("resolveTool JSON parse failed: ", reason.as_str()),
            ),
        ),
    }
}

impl JsTool {
    /// What the model is told of the tool.
    pub closed spec fn identity(&self) -> ToolIdentity {
        self.info@
    }

    /// The handle of the host's callback.
    pub closed spec fn callback_handle(&self) -> u64 {
        self.callback
    }

    pub fn new(
        name: String,
        description: String,
        schema: serde_json::Value,
        callback: u64,
    ) -> (tool: JsTool)
        ensures
            tool.identity() == (ToolIdentity {
                name: name@,
                description: description@,
                schema: json_contents(schema),
            }),
            tool.callback_handle() == callback,
    {
        JsTool { info: Arc::new(ToolInfo { name, description, schema }), callback }
    }

    pub fn name(&self) -> (name: &str)
        ensures
            name@ == self.identity().name,
    {
        self.info.name.as_str()
    }

    pub fn description(&self) -> (description: &str)
        ensures
            description@ == self.identity().description,
    {
        self.info.description.as_str()
    }

    pub fn parameters_schema(&self) -> (schema: &serde_json::Value)
        ensures
            json_contents(*schema) == self.identity().schema,
    {
        &self.info.schema
    }

    pub fn callback(&self) -> (handle: u64)
        ensures
            handle == self.callback_handle(),
    {
        self.callback
    }

    /// The text that the callback is called with: the arguments as JSON.
    pub fn callback_input(args: &serde_json::Value) -> (text: String)
        ensures
            text@ == json_text(json_contents(*args)),
            json_plain(json_contents(*args), 127) ==> reads_as(text@, json_contents(*args)),
    {
        json_to_string(args)
    }

    /// What a call of the tool comes to once the callback has ended. A value that is not a
    /// text counts as the empty text.
    pub fn execute(outcome: CallbackOutcome) -> (result: Result<ToolResult, ToolFailure>)
        ensures
            match outcome {
                CallbackOutcome::CallFailed { reason } => result matches Err(failure) && is_failure(
                    failure,
                    "execution_error"@,
                    "JS callback failed: "@ + reason@,
                ),
                CallbackOutcome::Rejected { reason } => result matches Err(failure) && is_failure(
                    failure,
                    "execution_error"@,
                    "JS promise rejected: "@ + reason@,
                ),
                CallbackOutcome::Returned { text } => {
                    let returned = match text {
                        Some(text) => text@,
                        None => Seq::<char>::empty(),
                    };
                    match json_parse(returned) {
                        Ok(reply) => result matches Ok(result) && is_reply(
                            result,
                            reply_text(reply, returned),
                            reply_details(reply, reply),
                            reply_terminate(reply),
                        ),
                        Err(reason) => result matches Err(failure) && is_failure(
                            failure,
                            "invalid_result"@,
                            "ToolResult JSON parse failed: "@ + reason,
                        ),
                    }
                },
            },
    {
        match outcome {
            CallbackOutcome::CallFailed { reason } => Err(
                ToolFailure::new(
                    "execution_error",
                    joined("JS callback failed: ", reason.as_str()),
                ),
            ),
            CallbackOutcome::Rejected { reason } => Err(
                ToolFailure::new(
                    "execution_error",
                    joined("JS promise rejected: ", reason.as_str()),
                ),
            ),
            CallbackOutcome::Returned { text } => {
                let returned: String = match text {
                    Some(text) => text,
                    None => String::new(),
                };
                match parse_json(returned.as_str()) {
                    Ok(reply) => Ok(callback_reply(reply, returned.as_str())),
                    Err(reason) => Err(
                        ToolFailure::new(
                            "invalid_result",
                            joined("ToolResult JSON parse failed: ", reason.as_str()),
                        ),
                    ),
                }
            },
        }
    }
}

/// What the host is told after its answer to a parked call. `sent` is what became of the
/// answer, where a call was parked under the id.
pub fn resolve_outcome(tool_use_id: &str, sent: Option<Result<(), String>>) -> (outcome: Result<
    (),
    String,
>)
    ensures
        match sent {
            Some(Ok(_)) => outcome is Ok,
            Some(Err(reason)) => outcome matches Err(message) && message@ == "resolve failed: "@
                + reason@,
            None => outcome matches Err(message) && message@
                == "unknown or already-resolved tool_use_id '"@ + tool_use_id@ + "'"@,
        },
{
    match sent {
        Some(Ok(_)) => Ok(()),
        Some(Err(reason)) => Err(joined("resolve failed: ", reason.as_str())),
        None => Err(enclosed("unknown or already-resolved tool_use_id '", tool_use_id, "'")),
    }
}

impl PendingTool {
    /// What the model is told of the tool.
    pub closed spec fn identity(&self) -> ToolIdentity {
        self.info@
    }

    /// The channels of the calls that wait for an answer, by the calls' ids.
    pub closed spec fn waiting(&self) -> Map<Seq<char>, int> {
        reply_lines(self.pending@)
    }

    pub closed spec fn wf(&self) -> bool {
        self.pending.wf()
    }

    pub fn new(name: String, description: String, schema: serde_json::Value) -> (tool: PendingTool)
        ensures
            tool.wf(),
            tool.identity() == (ToolIdentity {
                name: name@,
                description: description@,
                schema: json_contents(schema),
            }),
            tool.waiting() == Map::<Seq<char>, int>::empty(),
    {
        let tool = PendingTool {
            info: Arc::new(ToolInfo { name, description, schema }),
            pending: Parked::new(),
        };
        assert(tool.waiting() =~= Map::<Seq<char>, int>::empty());
        tool
    }

    pub fn name(&self) -> (name: &str)
        ensures
            name@ == self.identity().name,
    {
        self.info.name.as_str()
    }

    pub fn description(&self) -> (description: &str)
        ensures
            description@ == self.identity().description,
    {
        self.info.description.as_str()
    }

    pub fn parameters_schema(&self) -> (schema: &serde_json::Value)
        ensures
            json_contents(*schema) == self.identity().schema,
    {
        &self.info.schema
    }

    /// Starts a call: parks it under its id, and returns the end at which the answer comes
    /// out. A call that was parked under the same id is dropped.
    pub fn execute(&mut self, tool_use_id: &str) -> (answer: mpsc::Receiver<String>)
        requires
            old(self).wf(),
        ensures
            final(self).wf(),
            final(self).identity() == old(self).identity(),
            final(self).waiting() == old(self).waiting().insert(tool_use_id@, answer_line(answer)),
    {
        let (sender, receiver): (mpsc::Sender<String>, mpsc::Receiver<String>) = reply_channel(1);
        self.pending.insert(tool_use_id, sender);
        assert(self.waiting() =~= old(self).waiting().insert(tool_use_id@, answer_line(receiver)));
        receiver
    }

    /// What a call comes to once its answer is there, or will never be.
    pub fn finish(call_id: &str, answer: Option<String>) -> (result: Result<
        ToolResult,
        ToolFailure,
    >)
        ensures
            match answer {
                Some(result_json) => match json_parse(result_json@) {
                    Ok(reply) => result matches Ok(result) && is_reply(
                        result,
                        reply_text(reply, result_json@),
                        reply_details(reply, JsonView::Null),
                        reply_terminate(reply),
                    ),
                    Err(reason) => result matches Err(failure) && is_failure(
                        failure,
                        "invalid_result"@,
                        "resolveTool JSON parse failed: "@ + reason,
                    ),
                },
                None => result matches Err(failure) && is_failure(
                    failure,
                    "pump_cancelled"@,
                    "tool call "@ + call_id@ + " was cancelled"@,
                ),
            },
    {
        match answer {
            Some(result_json) => parse_pump_result(call_id, result_json.as_str()),
            None => Err(
                ToolFailure::new(
                    "pump_cancelled",
                    enclosed("tool call ", call_id, " was cancelled"),
                ),
            ),
        }
    }

    /// Answers the call that is parked under the id. The call is parked no longer, whether
    /// or not the task that waits for it is still there to take the answer.
    pub fn resolve(&mut self, tool_use_id: &str, result_json: String) -> (outcome: Result<
        (),
        String,
    >)
        requires
            old(self).wf(),
        ensures
            final(self).wf(),
            final(self).identity() == old(self).identity(),
            final(self).waiting() == old(self).waiting().remove(tool_use_id@),
            !old(self).waiting().contains_key(tool_use_id@) ==> (outcome matches Err(message)
                && message@ == "unknown or already-resolved tool_use_id '"@ + tool_use_id@ + "'"@),
            old(self).waiting().contains_key(tool_use_id@) ==> reply_sent(
                old(self).waiting()[tool_use_id@],
                result_json@,
                outcome is Ok,
            ),
            old(self).waiting().contains_key(tool_use_id@) ==> (outcome matches Err(message) ==> {
                ||| message@ == "resolve failed: "@ + "send failed because channel is full"@
                ||| message@ == "resolve failed: "@ + "send failed because receiver is gone"@
            }),
    {
        let sent: Option<Result<(), String>> = match self.pending.take(tool_use_id) {
            Some(sender) => Some(send_reply(sender, result_json)),
            None => None,
        };
        assert(self.waiting() =~= old(self).waiting().remove(tool_use_id@));
        resolve_outcome(tool_use_id, sent)
    }
}

/// What the host is told after its decision on a call. `sent` is what became of the
/// decision, where a call was held under the id.
pub fn approve_outcome(tool_use_id: &str, sent: Option<Result<(), bool>>) -> (outcome: Result<
    (),
    String,
>)
    ensures
        match sent {
            Some(Ok(_)) => outcome is Ok,
            Some(Err(_)) => outcome matches Err(message) && message@
                == "approval receiver dropped for '"@ + tool_use_id@ + "'"@,
            None => outcome matches Err(message) && message@
                == "unknown or already-approved tool_use_id '"@ + tool_use_id@ + "'"@,
        },
{
    match sent {
        Some(Ok(_)) => Ok(()),
        Some(Err(_)) => Err(enclosed("approval receiver dropped for '", tool_use_id, "'")),
        None => Err(enclosed("unknown or already-approved tool_use_id '", tool_use_id, "'")),
    }
}

impl ApprovalGate {
    /// The channels of the calls that wait for a decision, by the calls' ids.
    pub closed spec fn waiting(&self) -> Map<Seq<char>, int> {
        decision_lines(self.pending@)
    }

    pub closed spec fn wf(&self) -> bool {
        self.pending.wf()
    }

    pub fn new() -> (gate: ApprovalGate)
        ensures
            gate.wf(),
            gate.waiting() == Map::<Seq<char>, int>::empty(),
    {
        let gate = ApprovalGate { pending: Parked::new() };
        assert(gate.waiting() =~= Map::<Seq<char>, int>::empty());
        gate
    }

    /// Holds a call under its id, and returns the end at which the decision comes out. A
    /// call that was held under the same id is dropped.
    pub fn on_call(&mut self, tool_use_id: &str) -> (decision: oneshot::Receiver<bool>)
        requires
            old(self).wf(),
        ensures
            final(self).wf(),
            final(self).waiting() == old(self).waiting().insert(
                tool_use_id@,
                verdict_line(decision),
            ),
    {
        let (sender, receiver): (oneshot::Sender<bool>, oneshot::Receiver<bool>) =
            decision_channel();
        self.pending.insert(tool_use_id, sender);
        assert(self.waiting() =~= old(self).waiting().insert(
            tool_use_id@,
            verdict_line(receiver),
        ));
        receiver
    }

    /// What becomes of a held call: the host's decision, or a denial where none will come.
    pub fn decide(answer: Option<bool>) -> (decision: BeforeToolCallDecision)
        ensures
            match answer {
                Some(true) => decision is Allow,
                Some(false) => decision matches BeforeToolCallDecision::Deny(failure) && is_failure(
                    failure,
                    "denied_by_host"@,
                    "The host denied this tool call."@,
                ),
                None => decision matches BeforeToolCallDecision::Deny(failure) && is_failure(
                    failure,
                    "denied_by_host"@,
                    "Approval gate dropped before a decision arrived."@,
                ),
            },
    {
        match answer {
            Some(allow) => if allow {
                BeforeToolCallDecision::Allow
            } else {
                BeforeToolCallDecision::Deny(
                    ToolFailure::new(
                        "denied_by_host",
                        "The host denied this tool call.".to_owned(),
                    ),
                )
            },
            None => BeforeToolCallDecision::Deny(
                ToolFailure::new(
                    "denied_by_host",
                    "Approval gate dropped before a decision arrived.".to_owned(),
                ),
            ),
        }
    }

    /// Gives the host's decision on the call that is held under the id. The call is held no
    /// longer, whether or not the task that waits for it is still there.
    pub fn approve(&mut self, tool_use_id: &str, allow: bool) -> (outcome: Result<(), String>)
        requires
            old(self).wf(),
        ensures
            final(self).wf(),
            final(self).waiting() == old(self).waiting().remove(tool_use_id@),
            !old(self).waiting().contains_key(tool_use_id@) ==> (outcome matches Err(message)
                && message@ == "unknown or already-approved tool_use_id '"@ + tool_use_id@ + "'"@),
            old(self).waiting().contains_key(tool_use_id@) ==> decision_sent(
                old(self).waiting()[tool_use_id@],
                allow,
                outcome is Ok,
            ),
            old(self).waiting().contains_key(tool_use_id@) ==> (outcome matches Err(message)
                ==> message@ == "approval receiver dropped for '"@ + tool_use_id@ + "'"@),
    {
        let sent: Option<Result<(), bool>> = match self.pending.take(tool_use_id) {
            Some(sender) => Some(send_decision(sender, allow)),
            None => None,
        };
        assert(self.waiting() =~= old(self).waiting().remove(tool_use_id@));
        approve_outcome(tool_use_id, sent)
    }
}

impl ToolKind {
    /// What the model is told of the tool.
    pub open spec fn identity(&self) -> ToolIdentity {
        match self {
            ToolKind::Callback(tool) => tool.identity(),
            ToolKind::Pump(tool) => tool.identity(),
        }
    }
}

impl View for ToolKind {
    type V = ToolKindView;

    open spec fn view(&self) -> ToolKindView {
        match self {
            ToolKind::Callback(tool) => ToolKindView::Callback(tool.callback_handle()),
            ToolKind::Pump(tool) => ToolKindView::Pump(tool.waiting()),
        }
    }
}

/// The calls that wait at each of a list of gates.
pub open spec fn gates_view(gates: Seq<ApprovalGate>) -> Seq<Map<Seq<char>, int>> {
    Seq::new(gates.len(), |i: int| gates[i].waiting())
}

impl View for AgentTool {
    type V = ToolView;

    open spec fn view(&self) -> ToolView {
        ToolView {
            identity: self.kind.identity(),
            kind: self.kind@,
            gates: gates_view(self.gates@),
        }
    }
}

impl AgentTool {
    pub open spec fn wf(&self) -> bool {
        &&& self.kind matches ToolKind::Pump(tool) ==> tool.wf()
        &&& forall|i: int| 0 <= i < self.gates@.len() ==> (#[trigger] self.gates@[i]).wf()
    }

    pub fn name(&self) -> (name: &str)
        ensures
            name@ == self@.identity.name,
    {
        match &self.kind {
            ToolKind::Callback(tool) => tool.name(),
            ToolKind::Pump(tool) => tool.name(),
        }
    }

    pub fn description(&self) -> (description: &str)
        ensures
            description@ == self@.identity.description,
    {
        match &self.kind {
            ToolKind::Callback(tool) => tool.description(),
            ToolKind::Pump(tool) => tool.description(),
        }
    }

    pub fn parameters_schema(&self) -> (schema: &serde_json::Value)
        ensures
            json_contents(*schema) == self@.identity.schema,
    {
        match &self.kind {
            ToolKind::Callback(tool) => tool.parameters_schema(),
            ToolKind::Pump(tool) => tool.parameters_schema(),
        }
    }

    /// Starts a call of a placeholder, and returns the end at which the answer comes out. A
    /// callback is not started here.
    pub fn execute(&mut self, tool_use_id: &str) -> (answer: Option<mpsc::Receiver<String>>)
        requires
            old(self).wf(),
        ensures
            final(self).wf(),
            match answer {
                Some(answer) => final(self)@ == with_call(
                    old(self)@,
                    tool_use_id@,
                    answer_line(answer),
                ) && old(self)@.kind is Pump,
                None => final(self)@ == old(self)@ && old(self)@.kind is Callback,
            },
    {
        match &mut self.kind {
            ToolKind::Callback(_) => None,
            ToolKind::Pump(tool) => Some(tool.execute(tool_use_id)),
        }
    }

    /// Answers the call of a placeholder that is parked under the id.
    pub fn resolve(&mut self, tool_use_id: &str, result_json: String) -> (accepted: bool)
        requires
            old(self).wf(),
        ensures
            final(self).wf(),
            final(self)@ == without_call(old(self)@, tool_use_id@),
            call_answered(
                waiting_calls(old(self)@),
                tool_use_id@,
                result_json@,
                accepted,
            ),
    {
        match &mut self.kind {
            ToolKind::Callback(_) => false,
            ToolKind::Pump(tool) => tool.resolve(tool_use_id, result_json).is_ok(),
        }
    }

    /// Holds a call at one of the gates, and returns the end at which the decision comes out.
    pub fn hold(&mut self, gate: usize, tool_use_id: &str) -> (decision: Option<
        oneshot::Receiver<bool>,
    >)
        requires
            old(self).wf(),
        ensures
            final(self).wf(),
            match decision {
                Some(decision) => gate < old(self)@.gates.len() && final(self)@ == with_held_call(
                    old(self)@,
                    gate as int,
                    tool_use_id@,
                    verdict_line(decision),
                ),
                None => gate >= old(self)@.gates.len() && final(self)@ == old(self)@,
            },
    {
        if gate < self.gates.len() {
            let decision = self.gates[gate].on_call(tool_use_id);
            assert(self@.gates =~= with_held_call(
                old(self)@,
                gate as int,
                tool_use_id@,
                verdict_line(decision),
            ).gates);
            Some(decision)
        } else {
            None
        }
    }

    /// Gives the host's decision on the call that is held under the id, to the first gate
    /// where the task that waits for it is still there.
    pub fn approve(&mut self, tool_use_id: &str, allow: bool) -> (accepted: bool)
        requires
            old(self).wf(),
        ensures
            final(self).wf(),
            call_decided(old(self)@, final(self)@, tool_use_id@, allow, accepted),
    {
        let mut g: usize = 0;
        assert(self@.gates =~= gates_without(old(self)@.gates, tool_use_id@, 0));
        while g < self.gates.len()
            invariant
                self.wf(),
                g <= self.gates@.len(),
                self.gates@.len() == old(self)@.gates.len(),
                self.kind == old(self).kind,
                self@.gates == gates_without(old(self)@.gates, tool_use_id@, g as int),
                forall|i: int|
                    0 <= i < g ==> gate_decided(
                        #[trigger] old(self)@.gates[i],
                        tool_use_id@,
                        allow,
                        false,
                    ),
            decreases self.gates@.len() - g,
        {
            let ghost before = self@.gates;
            assert(before[g as int] == old(self)@.gates[g as int]);
            let accepted: bool = self.gates[g].approve(tool_use_id, allow).is_ok();
            proof {
                let gates = old(self)@.gates;
                assert(self@.gates =~= before.update(
                    g as int,
                    before[g as int].remove(tool_use_id@),
                ));
                assert forall|i: int| 0 <= i < gates.len() implies #[trigger] self@.gates[i]
                    == gates_without(gates, tool_use_id@, g + 1)[i] by {
                    assert(before[i] == gates_without(gates, tool_use_id@, g as int)[i]);
                }
                assert(self@.gates =~= gates_without(gates, tool_use_id@, g + 1));
            }
            if accepted {
                assert(gates_decided(old(self)@.gates, tool_use_id@, allow, g + 1, true));
                return true;
            }
            g += 1;
        }
        assert(gates_decided(old(self)@.gates, tool_use_id@, allow, g as int, false));
        false
    }

    /// The description of the tool, shared.
    pub fn info(&self) -> (info: Arc<ToolInfo>)
        ensures
            info@ == self@.identity,
    {
        match &self.kind {
            ToolKind::Callback(tool) => tool.info.clone(),
            ToolKind::Pump(tool) => tool.info.clone(),
        }
    }
}

/// Puts an approval gate in front of a tool. The tool keeps its name, its description and
/// its schema.
pub fn with_approval(inner: AgentTool, gate: ApprovalGate) -> (tool: AgentTool)
    requires
        inner.wf(),
        gate.wf(),
    ensures
        tool.wf(),
        tool@ == (ToolView { gates: inner@.gates.push(gate.waiting()), ..inner@ }),
{
    let mut tool = inner;
    tool.gates.push(gate);
    assert(tool@.gates =~= inner@.gates.push(gate.waiting()));
    tool
}

} // verus!
