//! What each call of an agent does with what it is given, and what it leaves alone.

use std::sync::Arc;

use vstd::prelude::*;

use crate::agent::{
    after_event, after_taking, answered, approved, client_of, created, deps_of, finished, imported,
    new_tool, prompted, pumps_answered, queued, resolved, starts_run, tools_decided, waiting_at,
    with_history, with_tool, with_tool_at, AgentView, Approval, RunStart,
};
use crate::channels::{decision_sent, reply_sent};
use crate::config::{tools_view, AgentOpts, ClientSpec, ToolExecutionMode};
use crate::events::{AgentEvent, ToolFailure};
use crate::json::json_contents;
use crate::laws::run_through;
use crate::messages::{content_texts, AgentMessage, TokenUsage};
use crate::run::RunView;
use crate::session::EntryView;
use crate::tools::{
    call_answered, call_decided, gate_decided, gates_decided, gates_without, is_failure,
    waiting_calls, with_call, with_held_call, AgentTool, ToolIdentity, ToolInfo, ToolKind,
    ToolKindView, ToolView,
};

verus! {

/// Whether the agent loop is started with what the options of an agent set: the system prompt,
/// and each of the settings.
pub open spec fn runs_with_options(start: RunStart, opts: AgentOpts) -> bool {
    &&& start.context.system_prompt == opts.system_prompt
    &&& start.config.model == opts.model
    &&& start.config.max_tokens == opts.max_tokens
    &&& start.config.temperature == opts.temperature
    &&& start.config.thinking_level == opts.thinking_level
    &&& start.config.final_answer_mode == opts.final_answer_mode
    &&& start.config.stream_idle_timeout_ms == Some(opts.stream_idle_timeout_ms)
    &&& start.config.default_execution_mode == ToolExecutionMode::Parallel
    &&& start.config.response_format is Some == opts.response_format is Some
    &&& opts.response_format is Some ==> *start.config.response_format->0
        == opts.response_format->0
    &&& start.run@.max_turns == opts.max_turns
    &&& start.run@.turns_left == opts.max_turns
}

/// Every run that an agent starts in its life gets the system prompt and the settings that its
/// options set, whatever the history is and whatever was done to the agent since it was made.
pub proof fn every_run_gets_the_options(
    opts: AgentOpts,
    client: ClientSpec,
    made: AgentView,
    later: AgentView,
    start: RunStart,
    text: Seq<char>,
)
    requires
        deps_of(made.deps, client, opts),
        later.deps == made.deps,
        starts_run(start, later, text),
    ensures
        runs_with_options(start, opts),
{
}

/// No call changes what stays the same over the life of an agent.
pub proof fn settings_never_change(
    agent: AgentView,
    request: int,
    history: Seq<Arc<AgentMessage>>,
    run: RunView,
    event: AgentEvent,
    line: Seq<char>,
    tool: ToolView,
    index: int,
    id: Seq<char>,
    count: int,
)
    ensures
        prompted(agent, request).deps == agent.deps,
        finished(agent, run).deps == agent.deps,
        after_event(agent, run, event).deps == agent.deps,
        after_taking(agent, run, event).deps == agent.deps,
        with_history(agent, history).deps == agent.deps,
        queued(agent, line).deps == agent.deps,
        with_tool(agent, tool).deps == agent.deps,
        with_tool_at(agent, index, tool).deps == agent.deps,
        answered(agent, id, count).deps == agent.deps,
        forall|after: AgentView, allow: bool, accepted: bool| #[trigger]
            approved(agent, after, id, allow, accepted) ==> after.deps == agent.deps,
        forall|after: AgentView, text: Seq<char>, accepted: bool| #[trigger]
            resolved(agent, after, id, text, accepted) ==> after.deps == agent.deps,
        forall|after: AgentView, read: Result<Seq<EntryView>, Seq<char>>, outcome: Result<
            (),
            String,
        >| #[trigger]
            imported(agent, after, read, outcome) ==> after.deps == agent.deps,
{
}

/// Two prompts of an agent, with a whole run and an import between them, both get the system
/// prompt and the settings that the options set.
pub proof fn prompts_share_the_options(
    opts: AgentOpts,
    client: ClientSpec,
    agent: AgentView,
    first: RunStart,
    first_text: Seq<char>,
    request: int,
    events: Seq<AgentEvent>,
    history: Seq<Arc<AgentMessage>>,
    second: RunStart,
    second_text: Seq<char>,
)
    requires
        deps_of(agent.deps, client, opts),
        starts_run(first, agent, first_text),
        ({
            let (later, run) = run_through(prompted(agent, request), first.run@, events);
            ||| starts_run(second, finished(later, run), second_text)
            ||| starts_run(second, with_history(finished(later, run), history), second_text)
        }),
    ensures
        runs_with_options(first, opts),
        runs_with_options(second, opts),
        second.context.system_prompt == first.context.system_prompt,
{
    run_keeps_the_settings(prompted(agent, request), first.run@, events);
}

/// The events of a run leave the settings of the agent alone.
proof fn run_keeps_the_settings(agent: AgentView, run: RunView, events: Seq<AgentEvent>)
    ensures
        run_through(agent, run, events).0.deps == agent.deps,
    decreases events.len(),
{
    if events.len() > 0 {
        run_keeps_the_settings(agent, run, events.drop_last());
    }
}

/// A run gets everything that was said before, unchanged and in order, and then the question:
/// one message of the user with the text of the prompt and nothing else.
pub proof fn run_gets_the_conversation(start: RunStart, agent: AgentView, text: Seq<char>)
    requires
        starts_run(start, agent, text),
    ensures
        start.context.messages@.len() == agent.history.len() + 1,
        forall|i: int|
            0 <= i < agent.history.len() ==> #[trigger] start.context.messages@[i]
                == agent.history[i],
        start.context.messages@.last() == start.run@.user,
        *start.run@.user matches AgentMessage::User(m) && m.content@.len() == 1 && content_texts(
            m.content@,
        ) == seq![text] && m.origin is None,
        !start.run@.failed,
        !start.run@.ended,
        start.run@.new_messages.len() == 0,
{
    reveal_with_fuel(content_texts, 2);
    if let AgentMessage::User(m) = *start.run@.user {
        assert(m.content@.drop_last() =~= Seq::empty());
        assert(content_texts(m.content@) =~= seq![text]);
    }
}

/// A run gets every tool of the agent, each in its place: what the model is told of it, its
/// callback where it has one, and as many gates as it has.
pub proof fn run_gets_every_tool(start: RunStart, agent: AgentView, text: Seq<char>, i: int)
    requires
        starts_run(start, agent, text),
        0 <= i < agent.tools.len(),
    ensures
        start.config.tools@.len() == agent.tools.len(),
        start.config.tools@[i].index == i,
        start.config.tools@[i].info.name@ == agent.tools[i].identity.name,
        start.config.tools@[i].info.description@ == agent.tools[i].identity.description,
        json_contents(start.config.tools@[i].info.schema) == agent.tools[i].identity.schema,
        agent.tools[i].kind matches ToolKindView::Callback(callback)
            ==> start.config.tools@[i].callback == Some(callback),
        agent.tools[i].kind is Pump ==> start.config.tools@[i].callback is None,
        start.config.tools@[i].gates == agent.tools[i].gates.len(),
{
}

/// A prompt that is accepted leaves alone what waits for the host, the history, the tools and
/// what the agent has cost.
pub proof fn prompt_leaves_the_rest(agent: AgentView, request: int)
    ensures
        prompted(agent, request).running,
        prompted(agent, request).queue == agent.queue,
        prompted(agent, request).history == agent.history,
        prompted(agent, request).tools == agent.tools,
        prompted(agent, request).pumps == agent.pumps,
        prompted(agent, request).cost == agent.cost,
        prompted(agent, request).generation != agent.generation,
{
}

/// The end of a run leaves alone what waits for the host, the tools and what the agent has
/// cost.
pub proof fn end_leaves_the_rest(agent: AgentView, run: RunView)
    ensures
        !finished(agent, run).running,
        finished(agent, run).queue == agent.queue,
        finished(agent, run).tools == agent.tools,
        finished(agent, run).pumps == agent.pumps,
        finished(agent, run).cost == agent.cost,
        finished(agent, run).generation == agent.generation,
        finished(agent, run).aborted == agent.aborted,
{
}

/// An import that succeeds replaces the history and leaves the rest alone, and one that is
/// refused leaves everything alone.
pub proof fn import_leaves_the_rest(
    before: AgentView,
    after: AgentView,
    read: Result<Seq<EntryView>, Seq<char>>,
    outcome: Result<(), String>,
)
    requires
        imported(before, after, read, outcome),
    ensures
        outcome is Ok == read is Ok,
        after.queue == before.queue,
        after.running == before.running,
        after.aborted == before.aborted,
        after.tools == before.tools,
        after.pumps == before.pumps,
        after.cost == before.cost,
        read is Ok ==> after.generation != before.generation,
        read is Err ==> after == before,
        read matches Err(reason) ==> outcome matches Err(message) && message@ == reason,
{
}

/// An agent starts idle and empty.
pub proof fn agent_starts_empty(agent: AgentView)
    requires
        created(agent),
    ensures
        agent.queue.len() == 0,
        !agent.running,
        agent.history.len() == 0,
        !agent.aborted,
        agent.tools.len() == 0,
        agent.pumps.len() == 0,
        agent.cost.input_tokens == 0,
        agent.cost.output_tokens == 0,
        agent.cost.cache_read_tokens == 0,
        agent.cost.cache_write_tokens == 0,
        agent.cost.reasoning_tokens == 0,
        agent.cost.provider_calls == 0,
        agent.cost.counted == Set::<Seq<char>>::empty(),
{
}

/// A tool is registered as it is described: it joins the tools at the end, calls its callback
/// where it has one and otherwise waits for answers, none of its calls waits yet, and it has a
/// gate exactly where the host decides on its calls. Nothing else changes.
pub proof fn tool_is_registered_as_described(
    agent: AgentView,
    identity: ToolIdentity,
    callback: Option<u64>,
    approval: Approval,
)
    ensures
        ({
            let tool = new_tool(identity, callback, approval);
            let after = with_tool(agent, tool);
            &&& after.tools.len() == agent.tools.len() + 1
            &&& forall|i: int|
                0 <= i < agent.tools.len() ==> #[trigger] after.tools[i] == agent.tools[i]
            &&& after.tools.last() == tool
            &&& tool.identity == identity
            &&& callback matches Some(handle) ==> tool.kind == ToolKindView::Callback(handle)
                && after.pumps == agent.pumps
            &&& callback is None ==> tool.kind is Pump && waiting_calls(tool) == Map::<
                Seq<char>,
                int,
            >::empty()
            &&& approval is Auto ==> tool.gates.len() == 0
            &&& approval is Manual ==> tool.gates.len() == 1 && tool.gates[0] == Map::<
                Seq<char>,
                int,
            >::empty()
            &&& after.queue == agent.queue
            &&& after.running == agent.running
            &&& after.history == agent.history
            &&& after.generation == agent.generation
            &&& after.aborted == agent.aborted
            &&& after.cost == agent.cost
        }),
{
}

/// A placeholder that is registered is one that answers are routed to, in place of the one of
/// the same name where there is one; every other route stays.
pub proof fn placeholder_is_routed_to(agent: AgentView, tool: ToolView)
    requires
        agent.wf(),
        tool.kind is Pump,
    ensures
        with_tool(agent, tool).pumps.contains(agent.tools.len() as int),
        forall|i: int|
            0 <= i < agent.pumps.len() && agent.tools[agent.pumps[i]].identity.name
                != tool.identity.name ==> with_tool(agent, tool).pumps.contains(
                #[trigger] agent.pumps[i],
            ),
        forall|i: int|
            0 <= i < agent.pumps.len() && agent.tools[agent.pumps[i]].identity.name
                == tool.identity.name ==> !with_tool(agent, tool).pumps.contains(
                #[trigger] agent.pumps[i],
            ),
        with_tool(agent, tool).wf(),
{
    let index = agent.tools.len() as int;
    let after = with_tool(agent, tool).pumps;
    let name = tool.identity.name;
    let known = exists|i: int|
        0 <= i < agent.pumps.len() && agent.tools[#[trigger] agent.pumps[i]].identity.name == name;
    let place = if known {
        choose|i: int|
            0 <= i < agent.pumps.len() && agent.tools[#[trigger] agent.pumps[i]].identity.name
                == name
    } else {
        agent.pumps.len() as int
    };
    assert(after[place] == index);
    assert forall|i: int|
        0 <= i < agent.pumps.len() && agent.tools[agent.pumps[i]].identity.name
            != name implies after.contains(#[trigger] agent.pumps[i]) by {
        assert(after[i] == agent.pumps[i]);
    }
    assert forall|i: int|
        0 <= i < agent.pumps.len() && agent.tools[agent.pumps[i]].identity.name
            == name implies !after.contains(#[trigger] agent.pumps[i]) by {
        if after.contains(agent.pumps[i]) {
            let k = choose|k: int| 0 <= k < after.len() && after[k] == agent.pumps[i];
            if k != place {
                assert(agent.pumps[k] == after[k]);
            }
        }
    }
}

/// A call that is started waits under its id, on the channel at whose end the answer comes
/// out; one that was there under the same id does not wait any longer. Other calls, other
/// tools and the gates are left alone.
pub proof fn started_call_waits(
    agent: AgentView,
    index: int,
    id: Seq<char>,
    line: int,
    other: Seq<char>,
    tool: int,
)
    requires
        0 <= index < agent.tools.len(),
        0 <= tool < agent.tools.len(),
        agent.tools[index].kind is Pump,
    ensures
        ({
            let after = with_tool_at(agent, index, with_call(agent.tools[index], id, line));
            let waiting = waiting_calls(after.tools[index]);
            &&& waiting.contains_key(id) && waiting[id] == line
            &&& other != id ==> waiting.contains_key(other) == waiting_calls(
                agent.tools[index],
            ).contains_key(other)
            &&& other != id && waiting.contains_key(other) ==> waiting[other] == waiting_calls(
                agent.tools[index],
            )[other]
            &&& after.tools[index].kind is Pump
            &&& after.tools[index].identity == agent.tools[index].identity
            &&& after.tools[index].gates == agent.tools[index].gates
            &&& tool != index ==> after.tools[tool] == agent.tools[tool]
            &&& after.tools.len() == agent.tools.len()
            &&& after.pumps == agent.pumps
            &&& after.queue == agent.queue
            &&& after.history == agent.history
            &&& after.running == agent.running
            &&& after.cost == agent.cost
        }),
{
}

/// A call that is held waits at its gate under its id, on the channel at whose end the decision
/// comes out. Other calls, other gates, other tools and the calls that wait for an answer are
/// left alone.
pub proof fn held_call_waits(
    agent: AgentView,
    index: int,
    gate: int,
    id: Seq<char>,
    line: int,
    other: Seq<char>,
    tool: int,
    beside: int,
)
    requires
        0 <= index < agent.tools.len(),
        0 <= tool < agent.tools.len(),
        0 <= gate < agent.tools[index].gates.len(),
        0 <= beside < agent.tools[index].gates.len(),
    ensures
        ({
            let after = with_tool_at(
                agent,
                index,
                with_held_call(agent.tools[index], gate, id, line),
            );
            let held = after.tools[index].gates[gate];
            let before = agent.tools[index].gates[gate];
            &&& held.contains_key(id) && held[id] == line
            &&& other != id ==> held.contains_key(other) == before.contains_key(other)
            &&& other != id && held.contains_key(other) ==> held[other] == before[other]
            &&& after.tools[index].gates.len() == agent.tools[index].gates.len()
            &&& beside != gate ==> after.tools[index].gates[beside]
                == agent.tools[index].gates[beside]
            &&& after.tools[index].kind == agent.tools[index].kind
            &&& after.tools[index].identity == agent.tools[index].identity
            &&& tool != index ==> after.tools[tool] == agent.tools[tool]
            &&& after.tools.len() == agent.tools.len()
            &&& after.pumps == agent.pumps
            &&& after.queue == agent.queue
            &&& after.history == agent.history
            &&& after.running == agent.running
            &&& after.cost == agent.cost
        }),
{
}

/// An answer that is accepted was handed, as the host gave it, to a call that waited under the
/// id. One that is refused was handed to every such call, and was refused by it. Nothing but
/// the calls changes.
pub proof fn answer_reaches_the_call(
    before: AgentView,
    after: AgentView,
    id: Seq<char>,
    text: Seq<char>,
    accepted: bool,
)
    ensures
        resolved(before, after, id, text, accepted) ==> {
            &&& accepted ==> exists|i: int|
                0 <= i < before.pumps.len() && (#[trigger] waiting_at(before, i)).contains_key(id)
                    && reply_sent(waiting_at(before, i)[id], text, true)
            &&& !accepted ==> forall|i: int|
                0 <= i < before.pumps.len() && (#[trigger] waiting_at(before, i)).contains_key(id)
                    ==> reply_sent(waiting_at(before, i)[id], text, false)
            &&& after.queue == before.queue
            &&& after.history == before.history
            &&& after.running == before.running
            &&& after.generation == before.generation
            &&& after.aborted == before.aborted
            &&& after.cost == before.cost
            &&& after.pumps == before.pumps
            &&& after.tools.len() == before.tools.len()
        },
{
    if resolved(before, after, id, text, accepted) {
        let count = choose|count: int|
            {
                &&& #[trigger] pumps_answered(before, id, text, count, accepted)
                &&& !accepted ==> count == before.pumps.len()
                &&& after == answered(before, id, count)
            };
        if accepted {
            assert(call_answered(waiting_at(before, count - 1), id, text, true));
            assert(waiting_at(before, count - 1).contains_key(id));
        }
    }
}

/// A decision that is accepted was handed, as the host made it, to a call that was held under
/// the id, which is held there no longer. One that is refused was handed to every such call,
/// and was refused by it. Nothing but the calls at the gates changes.
pub proof fn decision_reaches_the_call(
    before: AgentView,
    after: AgentView,
    id: Seq<char>,
    allow: bool,
    accepted: bool,
)
    ensures
        approved(before, after, id, allow, accepted) ==> {
            &&& accepted ==> exists|t: int, g: int|
                0 <= t < before.tools.len() && 0 <= g < before.tools[t].gates.len() && (
                #[trigger] before.tools[t].gates[g]).contains_key(id) && decision_sent(
                    before.tools[t].gates[g][id],
                    allow,
                    true,
                ) && !after.tools[t].gates[g].contains_key(id)
            &&& !accepted ==> forall|t: int, g: int|
                0 <= t < before.tools.len() && 0 <= g < before.tools[t].gates.len() && (
                #[trigger] before.tools[t].gates[g]).contains_key(id) ==> decision_sent(
                    before.tools[t].gates[g][id],
                    allow,
                    false,
                ) && !after.tools[t].gates[g].contains_key(id)
            &&& after.queue == before.queue
            &&& after.history == before.history
            &&& after.running == before.running
            &&& after.generation == before.generation
            &&& after.aborted == before.aborted
            &&& after.cost == before.cost
            &&& after.pumps == before.pumps
            &&& after.tools.len() == before.tools.len()
        },
{
    if approved(before, after, id, allow, accepted) {
        let count = choose|count: int|
            #[trigger] tools_decided(before.tools, after.tools, id, allow, count, accepted)
                && (!accepted ==> count == before.tools.len());
        if accepted {
            let last = count - 1;
            assert(call_decided(before.tools[last], after.tools[last], id, allow, true));
            let gates = choose|gates: int|
                {
                    &&& #[trigger] gates_decided(before.tools[last].gates, id, allow, gates, true)
                    &&& after.tools[last] == (ToolView {
                        gates: gates_without(before.tools[last].gates, id, gates),
                        ..before.tools[last]
                    })
                };
            assert(gate_decided(before.tools[last].gates[gates - 1], id, allow, true));
            assert(before.tools[last].gates[gates - 1].contains_key(id));
        } else {
            assert forall|t: int, g: int|
                0 <= t < before.tools.len() && 0 <= g < before.tools[t].gates.len() && (
                #[trigger] before.tools[t].gates[g]).contains_key(id) implies decision_sent(
                before.tools[t].gates[g][id],
                allow,
                false,
            ) && !after.tools[t].gates[g].contains_key(id) by {
                assert(call_decided(before.tools[t], after.tools[t], id, allow, false));
                let gates = before.tools[t].gates;
                assert(gates_decided(gates, id, allow, gates.len() as int, false));
                assert(gate_decided(gates[g], id, allow, false));
            }
        }
    }
}

/// A tool is seen as it is: what the model is told of it, what it is, the calls that wait for
/// an answer, and the calls that wait at each of its gates.
pub proof fn tool_is_seen_as_it_is(tool: AgentTool, g: int)
    ensures
        tool.kind matches ToolKind::Callback(inner) ==> tool@.kind == ToolKindView::Callback(
            inner.callback_handle(),
        ) && tool@.identity == inner.identity(),
        tool.kind matches ToolKind::Pump(inner) ==> tool@.kind is Pump && waiting_calls(tool@)
            == inner.waiting() && tool@.identity == inner.identity(),
        tool@.gates.len() == tool.gates@.len(),
        0 <= g < tool.gates@.len() ==> tool@.gates[g] == tool.gates@[g].waiting(),
{
}

/// The tools of an agent are seen one by one, in order.
pub proof fn tools_are_seen_one_by_one(tools: Seq<AgentTool>, i: int)
    ensures
        tools_view(tools).len() == tools.len(),
        0 <= i < tools.len() ==> tools_view(tools)[i] == tools[i]@,
{
}

/// What the model is told of a tool is its name, its description and its schema.
pub proof fn info_is_seen_as_it_is(info: ToolInfo)
    ensures
        info@.name == info.name@,
        info@.description == info.description@,
        info@.schema == json_contents(info.schema),
{
}

/// A failure has the code and the message that it is said to have.
pub proof fn failure_is_as_said(failure: ToolFailure, code: Seq<char>, message: Seq<char>)
    ensures
        is_failure(failure, code, message) <==> failure.code@ == code && failure.model_message@
            == message,
        failure.display() == failure.code@ + ": "@ + failure.model_message@,
{
}

/// The agent talks to the provider that the options name: the scripted one with the script that
/// they give, or none, and the other one with their key and address.
pub proof fn provider_is_the_one_named(client: ClientSpec, opts: AgentOpts)
    requires
        client_of(client, opts),
    ensures
        opts.provider@ == "mock"@ || opts.provider@ == "openai"@,
        opts.provider@ == "mock"@ ==> {
            &&& client matches ClientSpec::Mock { script }
            &&& opts.mock_script is Some ==> script@ == opts.mock_script->0@
            &&& opts.mock_script is None ==> script@.len() == 0
        },
        opts.provider@ == "openai"@ ==> {
            &&& client matches ClientSpec::OpenAi { api_key, base_url }
            &&& api_key@ == opts.api_key@
            &&& base_url is Some == opts.base_url is Some
            &&& opts.base_url is Some ==> base_url->0@ == opts.base_url->0@
        },
{
    reveal_strlit("mock");
    reveal_strlit("openai");
    assert("mock"@.len() == 4);
    assert("openai"@.len() == 6);
}

/// The usage that a message reports, with the id of the message.
pub struct ReportedUsage {
    pub id: Seq<char>,
    pub usage: TokenUsage,
}

/// The usage that an event reports, if it ends a message that reports one.
pub open spec fn usage_in(event: AgentEvent) -> Option<ReportedUsage> {
    if event is MessageEnd && event->MessageEnd_message.usage is Some {
        Some(
            ReportedUsage {
                id: event->MessageEnd_message_id@,
                usage: event->MessageEnd_message.usage->0,
            },
        )
    } else {
        None
    }
}

/// The messages whose usage is known once some were before and these events came.
pub open spec fn known_after(events: Seq<AgentEvent>, known: Set<Seq<char>>) -> Set<Seq<char>>
    decreases events.len(),
{
    if events.len() == 0 {
        known
    } else {
        let before = known_after(events.drop_last(), known);
        if usage_in(events.last()) is Some {
            before.insert(usage_in(events.last()).unwrap().id)
        } else {
            before
        }
    }
}

/// The sum of a quantity over the usages that events report, each message once, and those
/// that are known already not again.
pub open spec fn reported(
    events: Seq<AgentEvent>,
    known: Set<Seq<char>>,
    quantity: spec_fn(TokenUsage) -> nat,
) -> nat
    decreases events.len(),
{
    if events.len() == 0 {
        0
    } else {
        let before = reported(events.drop_last(), known, quantity);
        let last = usage_in(events.last());
        if last is Some && !known_after(events.drop_last(), known).contains(last.unwrap().id) {
            before + quantity(last.unwrap().usage)
        } else {
            before
        }
    }
}

/// A number, or the largest that `u64` can hold.
pub open spec fn at_most(n: int) -> int {
    if n > u64::MAX {
        u64::MAX as int
    } else {
        n
    }
}

/// The events of a run add to the cost what their messages report, each message once and
/// whatever else it is: each kind of tokens to its own sum, and one call for each message. A
/// sum that `u64` cannot hold stays at the largest number that it can.
pub proof fn cost_adds_up_what_is_reported(agent: AgentView, run: RunView, events: Seq<AgentEvent>)
    ensures
        ({
            let cost = run_through(agent, run, events).0.cost;
            let known = agent.cost.counted;
            &&& cost.counted == known_after(events, known)
            &&& cost.input_tokens == at_most(
                agent.cost.input_tokens + reported(
                    events,
                    known,
                    |u: TokenUsage| u.input_tokens as nat,
                ),
            )
            &&& cost.output_tokens == at_most(
                agent.cost.output_tokens + reported(
                    events,
                    known,
                    |u: TokenUsage| u.output_tokens as nat,
                ),
            )
            &&& cost.cache_read_tokens == at_most(
                agent.cost.cache_read_tokens + reported(
                    events,
                    known,
                    |u: TokenUsage| u.cache_read_tokens as nat,
                ),
            )
            &&& cost.cache_write_tokens == at_most(
                agent.cost.cache_write_tokens + reported(
                    events,
                    known,
                    |u: TokenUsage| u.cache_write_tokens as nat,
                ),
            )
            &&& cost.reasoning_tokens == at_most(
                agent.cost.reasoning_tokens + reported(
                    events,
                    known,
                    |u: TokenUsage| u.reasoning_tokens as nat,
                ),
            )
            &&& cost.provider_calls == at_most(
                agent.cost.provider_calls + reported(events, known, |u: TokenUsage| 1nat),
            )
        }),
    decreases events.len(),
{
    if events.len() > 0 {
        cost_adds_up_what_is_reported(agent, run, events.drop_last());
        if let Some(last) = usage_in(events.last()) {
            if known_after(events.drop_last(), agent.cost.counted).contains(last.id) {
                assert(known_after(events, agent.cost.counted) =~= known_after(
                    events.drop_last(),
                    agent.cost.counted,
                ));
            }
        }
    }
}

} // verus!
