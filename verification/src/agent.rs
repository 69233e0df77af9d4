//! The agent that a host drives.
//!
//! The host starts a run with a prompt and hands in each event of the agent loop; the events
//! queue up as JSON lines until the host polls them. What was said in a run joins the history
//! when the run has ended well, so that the next prompt carries it.

use std::sync::Arc;

use futures::channel::{mpsc, oneshot};
use vstd::prelude::*;

use crate::channels::{
    answer_line, is_stopped, stop_called, stop_request, verdict_line, StopSwitch,
};
use crate::config::{
    build_config, is_config, tools_view, AgentDeps, AgentOpts, ClientSpec, LoopConfig, MockSpec,
    ResponseFormat,
};
use crate::cost::{cost_after, cost_view, no_cost, CostState, CostView};
use crate::events::{event_to_json, event_view, AgentEvent};
use crate::json::{
    json_as_str, json_contents, json_field, json_get, json_object, json_parse, json_set,
    json_string, json_text, json_to_string, parse_json, reads_as, JsonView,
};
use crate::messages::{now, AgentMessage, ContentBlock, Timestamp, UserMessage};
use crate::run::{exceeds_turns, is_completed, run_after, run_started, ActiveRun, RunView};
use crate::session::{
    decode_session, is_history_of, is_text, read_session, read_session_text, restore_entries,
    session_view, write_session, EntryView, SessionEntry,
};
use crate::text::{decimal, decimal_text, enclosed, is_line, joined, same_text, text_seq};
use crate::tools::{
    call_answered, call_decided, waiting_calls, with_approval, with_call, with_held_call,
    without_call, AgentTool, ApprovalGate, JsTool, PendingTool, ToolIdentity, ToolKind,
    ToolKindView, ToolView,
};

verus! {

/// Whether the host decides on each call of a tool.
#[derive(Clone, Copy, PartialEq, Eq, Structural)]
pub enum Approval {
    Auto,
    Manual,
}

pub(crate) struct AgentState {
    queue: Vec<String>,
    abort: StopSwitch,
    tools: Vec<AgentTool>,
    pumps: Vec<usize>,
    running: bool,
    history: Vec<Arc<AgentMessage>>,
    generation: u64,
    cost: CostState,
}

/// An agent: its tools, its history and the events that wait for the host.
pub struct EmbeddedAgent {
    state: AgentState,
    deps: AgentDeps,
}

/// What the agent loop is to talk about.
pub struct AgentContext {
    pub system_prompt: Option<String>,
    pub messages: Vec<Arc<AgentMessage>>,
}

/// What the agent loop is to be started with.
pub struct RunStart {
    pub run: ActiveRun,
    pub context: AgentContext,
    pub config: LoopConfig,
}

/// An agent, as plain values.
#[verifier::ext_equal]
pub struct AgentView {
    /// The lines that wait for the host, in order.
    pub queue: Seq<Seq<char>>,
    /// Whether a run is under way.
    pub running: bool,
    pub history: Seq<Arc<AgentMessage>>,
    /// Changes whenever the history is taken up by a prompt or replaced.
    pub generation: u64,
    /// The request to stop that the last run listens to.
    pub request: int,
    /// Whether the agent has made that request.
    pub aborted: bool,
    pub tools: Seq<ToolView>,
    /// The placeholders that answers are routed to, by their places among the tools.
    pub pumps: Seq<int>,
    pub cost: CostView,
    pub deps: AgentDeps,
}

impl AgentView {
    /// Answers are routed to placeholders, and to one under each name.
    pub open spec fn wf(self) -> bool {
        &&& forall|i: int|
            0 <= i < self.pumps.len() ==> 0 <= #[trigger] self.pumps[i] < self.tools.len()
                && self.tools[self.pumps[i]].kind is Pump
        &&& forall|i: int, j: int|
            #![trigger self.pumps[i], self.pumps[j]]
            0 <= i < j < self.pumps.len() ==> self.tools[self.pumps[i]].identity.name
                != self.tools[self.pumps[j]].identity.name
    }
}

/// An error that the agent itself reports.
pub open spec fn error_view(message: Seq<char>, error_type: Seq<char>) -> JsonView {
    JsonView::Object(
        map![
            "type"@ => JsonView::Text("error"@),
            "message"@ => JsonView::Text(message),
            "error_type"@ => JsonView::Text(error_type),
        ],
    )
}

/// The line that answers a prompt while a run is under way.
pub open spec fn busy_line() -> Seq<char> {
    json_text(error_view("prompt() called while a run is in flight"@, "busy"@))
}

/// The line that reports a run with too many turns.
pub open spec fn limit_line(max_turns: u32) -> Seq<char> {
    json_text(
        error_view(
            "max_turns ("@ + decimal(max_turns as nat) + ") exceeded; aborting"@,
            "resource_limit"@,
        ),
    )
}

/// An agent with one more line for the host.
pub open spec fn queued(agent: AgentView, line: Seq<char>) -> AgentView {
    AgentView { queue: agent.queue.push(line), ..agent }
}

/// A new agent.
pub open spec fn created(agent: AgentView) -> bool {
    &&& agent.queue == Seq::<Seq<char>>::empty()
    &&& !agent.running
    &&& agent.history == Seq::<Arc<AgentMessage>>::empty()
    &&& agent.generation == 0
    &&& !agent.aborted
    &&& agent.tools == Seq::<ToolView>::empty()
    &&& agent.pumps == Seq::<int>::empty()
    &&& agent.cost == no_cost()
}

/// Whether `deps` holds what the options set, with this provider.
pub open spec fn deps_of(deps: AgentDeps, client: ClientSpec, opts: AgentOpts) -> bool {
    &&& deps.client == client
    &&& deps.model == opts.model
    &&& deps.max_tokens == opts.max_tokens
    &&& deps.temperature == opts.temperature
    &&& deps.system_prompt == opts.system_prompt
    &&& deps.max_turns == opts.max_turns
    &&& match opts.response_format {
        Some(format) => deps.response_format matches Some(shared) && *shared == format,
        None => deps.response_format is None,
    }
    &&& deps.final_answer_mode == opts.final_answer_mode
    &&& deps.thinking_level == opts.thinking_level
    &&& deps.stream_idle_timeout_ms == opts.stream_idle_timeout_ms
}

/// Whether `client` is the provider that the options name, if they name one.
pub open spec fn client_of(client: ClientSpec, opts: AgentOpts) -> bool {
    if opts.provider@ == "mock"@ {
        client matches ClientSpec::Mock { script } && match opts.mock_script {
            Some(given) => script == given,
            None => script@ == Seq::<MockSpec>::empty(),
        }
    } else {
        opts.provider@ == "openai"@ && client == (ClientSpec::OpenAi {
            api_key: opts.api_key,
            base_url: opts.base_url,
        })
    }
}

/// Whether `message` is what the user says with a prompt.
pub open spec fn is_question(message: AgentMessage, text: Seq<char>) -> bool {
    &&& message matches AgentMessage::User(m)
    &&& is_text(m.content@, text)
    &&& m.origin is None
}

/// The generation of a history that takes the place of one. After the largest number the
/// count starts again.
pub open spec fn next_generation(generation: u64) -> u64 {
    if generation == u64::MAX {
        0
    } else {
        (generation + 1) as u64
    }
}

/// An agent that has started a run, which listens to `request` and was not told to stop.
pub open spec fn prompted(agent: AgentView, request: int) -> AgentView {
    AgentView {
        running: true,
        generation: next_generation(agent.generation),
        request,
        aborted: false,
        ..agent
    }
}

/// Whether `start` starts the run of a prompt: the agent loop gets the history and the user's
/// question, and the settings and tools of the agent. It listens to a request to stop of its
/// own, later than that of the run before, which was not made through its token.
pub open spec fn starts_run(start: RunStart, agent: AgentView, text: Seq<char>) -> bool {
    &&& is_question(*start.run@.user, text)
    &&& start.run@ == run_started(
        start.run@.user,
        next_generation(agent.generation),
        agent.deps.max_turns,
    )
    &&& start.context.system_prompt == agent.deps.system_prompt
    &&& start.context.messages@ == agent.history.push(start.run@.user)
    &&& stop_request(start.config.abort) > agent.request
    &&& !stop_called(start.config.abort)
    &&& is_config(
        start.config,
        agent.deps,
        agent.tools,
        stop_request(start.config.abort),
        false,
    )
}

/// An agent after an event of the run: a turn too many is reported and stops the run, a
/// complete message is counted, and the event queues up for the host.
pub open spec fn after_event(agent: AgentView, run: RunView, event: AgentEvent) -> AgentView {
    let guarded = if exceeds_turns(run, event) {
        AgentView { aborted: true, ..queued(agent, limit_line(run.max_turns)) }
    } else {
        agent
    };
    let cost = match event {
        AgentEvent::MessageEnd { message_id, message } => cost_after(
            agent.cost,
            message_id@,
            message.usage,
        ),
        _ => agent.cost,
    };
    queued(AgentView { cost, ..guarded }, json_text(event_view(event)))
}

/// An agent after the end of a run: what was said joins the history, unless the run failed or
/// the history was taken up or replaced since.
pub open spec fn finished(agent: AgentView, run: RunView) -> AgentView {
    AgentView {
        running: false,
        history: if is_completed(run) && agent.generation == run.generation {
            agent.history.push(run.user) + run.new_messages
        } else {
            agent.history
        },
        ..agent
    }
}

/// An agent after an event that was taken in: the end of the agent loop ends the run too.
pub open spec fn after_taking(agent: AgentView, run: RunView, event: AgentEvent) -> AgentView {
    if event is AgentEnd {
        finished(after_event(agent, run, event), run_after(run, event))
    } else {
        after_event(agent, run, event)
    }
}

/// An agent with another history.
pub open spec fn with_history(agent: AgentView, history: Seq<Arc<AgentMessage>>) -> AgentView {
    AgentView { history, generation: next_generation(agent.generation), ..agent }
}

/// Whether an agent has become another by the import of a session that was read or refused.
pub open spec fn imported(
    before: AgentView,
    after: AgentView,
    read: Result<Seq<EntryView>, Seq<char>>,
    outcome: Result<(), String>,
) -> bool {
    match read {
        Ok(entries) => outcome is Ok && is_history_of(after.history, entries) && after
            == with_history(before, after.history),
        Err(reason) => outcome matches Err(message) && message@ == reason && after == before,
    }
}

/// The placeholders that answers are routed to once one with this name joins the tools: it
/// takes the place of one with the same name.
pub open spec fn pumps_with(agent: AgentView, name: Seq<char>) -> Seq<int> {
    if exists|i: int|
        0 <= i < agent.pumps.len() && agent.tools[#[trigger] agent.pumps[i]].identity.name == name {
        let place = choose|i: int|
            0 <= i < agent.pumps.len() && agent.tools[#[trigger] agent.pumps[i]].identity.name
                == name;
        agent.pumps.update(place, agent.tools.len() as int)
    } else {
        agent.pumps.push(agent.tools.len() as int)
    }
}

/// An agent with one more tool.
pub open spec fn with_tool(agent: AgentView, tool: ToolView) -> AgentView {
    AgentView {
        tools: agent.tools.push(tool),
        pumps: if tool.kind is Pump {
            pumps_with(agent, tool.identity.name)
        } else {
            agent.pumps
        },
        ..agent
    }
}

/// The tool that a registration makes.
pub open spec fn new_tool(
    identity: ToolIdentity,
    callback: Option<u64>,
    approval: Approval,
) -> ToolView {
    ToolView {
        identity,
        kind: match callback {
            Some(callback) => ToolKindView::Callback(callback),
            None => ToolKindView::Pump(Map::empty()),
        },
        gates: match approval {
            Approval::Auto => Seq::empty(),
            Approval::Manual => seq![Map::empty()],
        },
    }
}

/// What the options of a tool say of its approval, or why they are refused.
pub open spec fn approval_of(options: JsonView) -> Result<Approval, Seq<char>> {
    match json_field(options, "approval"@) {
        None => Ok(Approval::Auto),
        Some(approval) => if approval == JsonView::Text("auto"@) {
            Ok(Approval::Auto)
        } else if approval == JsonView::Text("manual"@) {
            Ok(Approval::Manual)
        } else {
            Err("approval must be 'auto' or 'manual'"@)
        },
    }
}

/// What a registration is made of, once its schema and its options are read, or why it is
/// refused.
pub open spec fn read_registration(
    schema: Result<JsonView, Seq<char>>,
    options: Result<JsonView, Seq<char>>,
) -> Result<(JsonView, Approval), Seq<char>> {
    match schema {
        Err(reason) => Err("invalid tool schema: "@ + reason),
        Ok(schema) => match options {
            Err(reason) => Err("invalid tool options: "@ + reason),
            Ok(options) => match approval_of(options) {
                Err(reason) => Err("invalid tool options: "@ + reason),
                Ok(approval) => Ok((schema, approval)),
            },
        },
    }
}

/// The channels of the calls that wait for an answer at a placeholder that answers are routed
/// to, by the calls' ids.
pub open spec fn waiting_at(agent: AgentView, pump: int) -> Map<Seq<char>, int> {
    waiting_calls(agent.tools[agent.pumps[pump]])
}

/// An agent of which the first `count` placeholders that answers are routed to have no call
/// `id` any longer.
pub open spec fn answered(agent: AgentView, id: Seq<char>, count: int) -> AgentView {
    AgentView {
        tools: Seq::new(
            agent.tools.len(),
            |t: int|
                if exists|i: int| 0 <= i < count && #[trigger] agent.pumps[i] == t {
                    without_call(agent.tools[t], id)
                } else {
                    agent.tools[t]
                },
        ),
        ..agent
    }
}

/// Whether an answer to the call `id` went to the first `count` placeholders, none of which
/// accepted it but perhaps the last.
pub open spec fn pumps_answered(
    agent: AgentView,
    id: Seq<char>,
    text: Seq<char>,
    count: int,
    accepted: bool,
) -> bool {
    &&& 0 <= count <= agent.pumps.len()
    &&& accepted ==> count > 0
    &&& forall|i: int|
        0 <= i < count ==> call_answered(
            #[trigger] waiting_at(agent, i),
            id,
            text,
            accepted && i == count - 1,
        )
}

/// Whether an agent has become another by an answer to the call `id`: the placeholders are
/// asked in order until one accepts it, and those that were asked have the call no longer.
pub open spec fn resolved(
    before: AgentView,
    after: AgentView,
    id: Seq<char>,
    text: Seq<char>,
    accepted: bool,
) -> bool {
    exists|count: int|
        {
            &&& #[trigger] pumps_answered(before, id, text, count, accepted)
            &&& !accepted ==> count == before.pumps.len()
            &&& after == answered(before, id, count)
        }
}

/// Whether the tools of an agent have become others by a decision on the call `id`, with the
/// first `count` of them asked, none of which accepted it but perhaps the last.
pub open spec fn tools_decided(
    before: Seq<ToolView>,
    after: Seq<ToolView>,
    id: Seq<char>,
    allow: bool,
    count: int,
    accepted: bool,
) -> bool {
    &&& after.len() == before.len()
    &&& 0 <= count <= before.len()
    &&& accepted ==> count > 0
    &&& forall|t: int|
        0 <= t < count ==> call_decided(
            before[t],
            #[trigger] after[t],
            id,
            allow,
            accepted && t == count - 1,
        )
    &&& forall|t: int| count <= t < before.len() ==> #[trigger] after[t] == before[t]
}

/// Whether an agent has become another by a decision on the call `id`: the gates of the tools
/// are asked in order until one accepts it.
pub open spec fn approved(
    before: AgentView,
    after: AgentView,
    id: Seq<char>,
    allow: bool,
    accepted: bool,
) -> bool {
    exists|count: int|
        {
            &&& #[trigger] tools_decided(before.tools, after.tools, id, allow, count, accepted)
            &&& !accepted ==> count == before.tools.len()
            &&& after == (AgentView { tools: after.tools, ..before })
        }
}

/// An agent with another tool in the place of one.
pub open spec fn with_tool_at(agent: AgentView, index: int, tool: ToolView) -> AgentView {
    AgentView { tools: agent.tools.update(index, tool), ..agent }
}

/// Writes an error of the agent itself as one line of JSON.
fn error_line(message: String, error_type: &str) -> (line: String)
    ensures
        line@ == json_text(error_view(message@, error_type@)),
        is_line(line@),
{
    let mut value = json_object();
    json_set(&mut value, "type", json_string("error".to_owned()));
    json_set(&mut value, "message", json_string(message));
    json_set(&mut value, "error_type", json_string(error_type.to_owned()));
    json_to_string(&value)
}

/// Reads what the options of a tool say of its approval.
pub fn read_approval(options: &serde_json::Value) -> (approval: Result<Approval, String>)
    ensures
        match approval {
            Ok(approval) => approval_of(json_contents(*options)) matches Ok(read) && read
                == approval,
            Err(message) => approval_of(json_contents(*options)) matches Err(reason) && reason
                == message@,
        },
{
    match json_get(options, "approval") {
        None => Ok(Approval::Auto),
        Some(field) => {
            if let Some(name) = json_as_str(field) {
                if same_text(name, "auto") {
                    return Ok(Approval::Auto);
                }
                if same_text(name, "manual") {
                    return Ok(Approval::Manual);
                }
            }
            Err("approval must be 'auto' or 'manual'".to_owned())
        },
    }
}

/// A list of the same messages.
fn shared_messages(messages: &Vec<Arc<AgentMessage>>) -> (copy: Vec<Arc<AgentMessage>>)
    ensures
        copy@ == messages@,
{
    let mut copy: Vec<Arc<AgentMessage>> = Vec::new();
    let mut i: usize = 0;
    while i < messages.len()
        invariant
            i <= messages@.len(),
            copy@ == messages@.take(i as int),
        decreases messages@.len() - i,
    {
        copy.push(messages[i].clone());
        assert(copy@ =~= messages@.take(i + 1));
        i += 1;
    }
    assert(messages@.take(i as int) =~= messages@);
    copy
}

impl View for EmbeddedAgent {
    type V = AgentView;

    closed spec fn view(&self) -> AgentView {
        AgentView {
            queue: text_seq(self.state.queue@),
            running: self.state.running,
            history: self.state.history@,
            generation: self.state.generation,
            request: self.state.abort.request(),
            aborted: self.state.abort.is_requested(),
            tools: tools_view(self.state.tools@),
            pumps: Seq::new(self.state.pumps@.len(), |i: int| self.state.pumps@[i] as int),
            cost: self.state.cost@,
            deps: self.deps,
        }
    }
}

impl AgentState {
    fn new() -> (state: AgentState)
        ensures
            state.queue@.len() == 0,
            !state.abort.is_requested(),
            state.tools@.len() == 0,
            state.pumps@.len() == 0,
            !state.running,
            state.history@.len() == 0,
            state.generation == 0,
            state.cost@ == no_cost(),
    {
        AgentState {
            queue: Vec::new(),
            abort: StopSwitch::new(),
            tools: Vec::new(),
            pumps: Vec::new(),
            running: false,
            history: Vec::new(),
            generation: 0,
            cost: CostState::new(),
        }
    }
}

impl EmbeddedAgent {
    /// What holds of every agent: answers are routed as [`AgentView::wf`] says, no id is
    /// parked twice at one place, and what waits for the host are single lines.
    pub closed spec fn wf(&self) -> bool {
        &&& self@.wf()
        &&& forall|i: int|
            0 <= i < self.state.tools@.len() ==> (#[trigger] self.state.tools@[i]).wf()
        &&& forall|i: int|
            0 <= i < self.state.queue@.len() ==> is_line((#[trigger] self.state.queue@[i])@)
    }

    /// The placeholders of a valid agent are routed to as its view says.
    pub proof fn wf_view(&self)
        requires
            self.wf(),
        ensures
            self@.wf(),
    {
    }

    /// An agent that has told its run to stop has made the request that the run listens to.
    pub proof fn aborted_is_stopped(&self)
        ensures
            self@.aborted ==> is_stopped(self@.request),
    {
        self.state.abort.requested_is_stopped();
    }

    fn new_with_client(client: ClientSpec, opts: AgentOpts) -> (agent: EmbeddedAgent)
        ensures
            agent.wf(),
            created(agent@),
            deps_of(agent@.deps, client, opts),
    {
        let response_format: Option<Arc<ResponseFormat>> = match opts.response_format {
            Some(format) => Some(Arc::new(format)),
            None => None,
        };
        let agent = EmbeddedAgent {
            state: AgentState::new(),
            deps: AgentDeps {
                client,
                model: opts.model,
                max_tokens: opts.max_tokens,
                temperature: opts.temperature,
                system_prompt: opts.system_prompt,
                max_turns: opts.max_turns,
                response_format,
                final_answer_mode: opts.final_answer_mode,
                thinking_level: opts.thinking_level,
                stream_idle_timeout_ms: opts.stream_idle_timeout_ms,
            },
        };
        assert(agent@.queue =~= Seq::empty());
        assert(agent@.history =~= Seq::empty());
        assert(agent@.tools =~= Seq::empty());
        assert(agent@.pumps =~= Seq::empty());
        agent
    }

    /// Makes an agent from its options.
    pub fn new(opts: AgentOpts) -> (agent: Result<EmbeddedAgent, String>)
        ensures
            match agent {
                Ok(agent) => agent.wf() && created(agent@) && client_of(agent@.deps.client, opts)
                    && deps_of(agent@.deps, agent@.deps.client, opts),
                Err(message) => opts.provider@ != "mock"@ && opts.provider@ != "openai"@ && message@
                    == "unknown provider '"@ + opts.provider@ + "' (expected 'openai' or 'mock')"@,
            },
    {
        let mut opts = opts;
        if same_text(opts.provider.as_str(), "mock") {
            let script: Vec<MockSpec> = match opts.mock_script.take() {
                Some(script) => script,
                None => Vec::new(),
            };
            Ok(Self::new_with_client(ClientSpec::Mock { script }, opts))
        } else if same_text(opts.provider.as_str(), "openai") {
            let api_key = opts.api_key.clone();
            let base_url: Option<String> = match &opts.base_url {
                Some(url) => Some(url.clone()),
                None => None,
            };
            Ok(Self::new_with_client(ClientSpec::OpenAi { api_key, base_url }, opts))
        } else {
            Err(
                enclosed(
                    "unknown provider '",
                    opts.provider.as_str(),
                    "' (expected 'openai' or 'mock')",
                ),
            )
        }
    }

    /// What was said so far.
    pub fn history(&self) -> (history: &Vec<Arc<AgentMessage>>)
        ensures
            history@ == self@.history,
    {
        &self.state.history
    }

    /// What stays the same over the life of the agent.
    pub fn deps(&self) -> (deps: &AgentDeps)
        ensures
            *deps == self@.deps,
    {
        &self.deps
    }

    /// Whether a run is under way.
    pub fn is_running(&self) -> (running: bool)
        ensures
            running == self@.running,
    {
        self.state.running
    }

    /// Takes the lines that wait for the host, in order.
    pub fn poll(&mut self) -> (lines: Vec<String>)
        requires
            old(self).wf(),
        ensures
            final(self).wf(),
            text_seq(lines@) == old(self)@.queue,
            forall|i: int| 0 <= i < lines@.len() ==> is_line((#[trigger] lines@[i])@),
            final(self)@ == (AgentView { queue: Seq::empty(), ..old(self)@ }),
    {
        let mut lines: Vec<String> = Vec::new();
        std::mem::swap(&mut self.state.queue, &mut lines);
        assert(self@.queue =~= Seq::empty());
        lines
    }

    /// Tells the run that is under way to stop. A run that is started later is not affected.
    pub fn cancel(&mut self)
        requires
            old(self).wf(),
        ensures
            final(self).wf(),
            final(self)@ == (AgentView { aborted: true, ..old(self)@ }),
    {
        self.state.abort.cancel();
    }

    /// Starts a run with what the user says at this moment. While another run is under way,
    /// the host gets an error instead.
    pub fn prompt(&mut self, text: String) -> (start: Option<RunStart>)
        requires
            old(self).wf(),
        ensures
            final(self).wf(),
            match start {
                Some(start) => {
                    &&& !old(self)@.running
                    &&& starts_run(start, old(self)@, text@)
                    &&& start.context.system_prompt == old(self)@.deps.system_prompt
                    &&& start.context.messages@ == old(self)@.history.push(start.run@.user)
                    &&& final(self)@ == prompted(old(self)@, stop_request(start.config.abort))
                },
                None => old(self)@.running && final(self)@ == queued(old(self)@, busy_line()),
            },
    {
        self.prompt_at(text, now())
    }

    /// Starts a run with what the user says at the given moment.
    pub fn prompt_at(&mut self, text: String, timestamp: Timestamp) -> (start: Option<RunStart>)
        requires
            old(self).wf(),
        ensures
            final(self).wf(),
            match start {
                Some(start) => {
                    &&& !old(self)@.running
                    &&& starts_run(start, old(self)@, text@)
                    &&& start.run@.user->User_0.timestamp == timestamp
                    &&& start.context.system_prompt == old(self)@.deps.system_prompt
                    &&& start.context.messages@ == old(self)@.history.push(start.run@.user)
                    &&& final(self)@ == prompted(old(self)@, stop_request(start.config.abort))
                },
                None => old(self)@.running && final(self)@ == queued(old(self)@, busy_line()),
            },
    {
        if self.state.running {
            let line = error_line("prompt() called while a run is in flight".to_owned(), "busy");
            self.push_line(line);
            return None;
        }
        let mut content: Vec<ContentBlock> = Vec::new();
        content.push(ContentBlock::Text { text });
        let user = Arc::new(
            AgentMessage::User(UserMessage { content, timestamp, origin: None }),
        );
        let mut messages = shared_messages(&self.state.history);
        messages.push(user.clone());
        self.state.generation = self.state.generation.wrapping_add(1);
        self.state.running = true;
        self.state.abort = self.state.abort.renewed();
        let system_prompt: Option<String> = match &self.deps.system_prompt {
            Some(prompt) => Some(prompt.clone()),
            None => None,
        };
        let config = build_config(&self.deps, &self.state.tools, self.state.abort.token());
        Some(
            RunStart {
                run: ActiveRun::new(user, self.state.generation, self.deps.max_turns),
                context: AgentContext { system_prompt, messages },
                config,
            },
        )
    }

    fn push_line(&mut self, line: String)
        requires
            old(self).wf(),
            is_line(line@),
        ensures
            final(self).wf(),
            final(self)@ == queued(old(self)@, line@),
    {
        self.state.queue.push(line);
        assert(self@.queue =~= old(self)@.queue.push(line@));
    }

    /// Takes in one event of a run. The last one ends the run with it, so that whoever polls
    /// its line finds the run over and the history written; otherwise the run is handed back.
    pub fn take_event(&mut self, run: ActiveRun, event: AgentEvent) -> (next: Option<ActiveRun>)
        requires
            old(self).wf(),
        ensures
            final(self).wf(),
            final(self)@ == after_taking(old(self)@, run@, event),
            final(self)@.queue.last() == json_text(event_view(event)),
            event is AgentEnd ==> !final(self)@.running,
            match next {
                Some(next) => !(event is AgentEnd) && next@ == run_after(run@, event),
                None => event is AgentEnd,
            },
    {
        let mut run = run;
        if self.on_event(&mut run, event) {
            self.finish_run(run);
            None
        } else {
            Some(run)
        }
    }

    /// Queues an event and lets the run take it in. Tells whether it was the last.
    fn on_event(&mut self, run: &mut ActiveRun, event: AgentEvent) -> (done: bool)
        requires
            old(self).wf(),
        ensures
            final(self).wf(),
            final(self)@ == after_event(old(self)@, old(run)@, event),
            final(run)@ == run_after(old(run)@, event),
            done == event is AgentEnd,
    {
        let exceeds: bool = match &event {
            AgentEvent::TurnStart { .. } => run.turns_left() == 0,
            _ => false,
        };
        if exceeds {
            let number = decimal_text(run.max_turns());
            let message = enclosed("max_turns (", number.as_str(), ") exceeded; aborting");
            self.push_line(error_line(message, "resource_limit"));
            self.cancel();
        }
        if let AgentEvent::MessageEnd { message_id, message } = &event {
            self.state.cost.record(message_id.as_str(), message.usage);
        }
        self.push_line(event_to_json(&event));
        let done: bool = match &event {
            AgentEvent::AgentEnd { .. } => true,
            _ => false,
        };
        run.advance(event);
        done
    }

    /// Ends a run, also one whose events stop before the last: what was said in it joins the
    /// history, unless it failed, never came to its end, or the history was taken up or
    /// replaced since.
    pub fn finish_run(&mut self, run: ActiveRun)
        requires
            old(self).wf(),
        ensures
            final(self).wf(),
            final(self)@ == finished(old(self)@, run@),
    {
        self.state.running = false;
        if self.state.generation == run.generation() {
            let ghost before = self.state.history@;
            if let Some(messages) = run.into_messages() {
                let mut more = messages;
                self.state.history.append(&mut more);
                assert(self.state.history@ =~= before.push(run@.user) + run@.new_messages);
            }
        }
    }

    /// Writes the history as a session.
    pub fn export_session(&self) -> (text: String)
        ensures
            text@ == json_text(session_view(self@.history)),
            reads_as(text@, session_view(self@.history)),
    {
        write_session(&self.state.history)
    }

    /// Replaces the history by that of a session. One that is refused changes nothing.
    pub fn import_session(&mut self, json: String) -> (outcome: Result<(), String>)
        requires
            old(self).wf(),
        ensures
            final(self).wf(),
            imported(old(self)@, final(self)@, read_session_text(json_parse(json@)), outcome),
    {
        match parse_json(json.as_str()) {
            Ok(session) => self.import_value(&session),
            Err(reason) => Err(joined("invalid session json: ", reason.as_str())),
        }
    }

    /// Replaces the history by that of a session, given as the value that it was parsed to.
    pub fn import_value(&mut self, session: &serde_json::Value) -> (outcome: Result<(), String>)
        requires
            old(self).wf(),
        ensures
            final(self).wf(),
            imported(old(self)@, final(self)@, read_session(json_contents(*session)), outcome),
    {
        let entries: Vec<SessionEntry> = match decode_session(session) {
            Ok(entries) => entries,
            Err(message) => {
                return Err(message);
            },
        };
        self.state.history = restore_entries(&entries);
        self.state.generation = self.state.generation.wrapping_add(1);
        Ok(())
    }

    /// Empties the history. A run that is under way goes on, and leaves no trace in it.
    pub fn clear_session(&mut self)
        requires
            old(self).wf(),
        ensures
            final(self).wf(),
            final(self)@ == with_history(old(self)@, Seq::empty()),
    {
        self.state.history = Vec::new();
        self.state.generation = self.state.generation.wrapping_add(1);
    }

    /// Writes the tokens that the agent has cost so far as JSON.
    pub fn cost_snapshot(&self) -> (text: String)
        ensures
            text@ == json_text(cost_view(self@.cost)),
            reads_as(text@, cost_view(self@.cost)),
    {
        self.state.cost.snapshot()
    }

    /// Makes a tool and adds it. With a callback the agent loop calls the tool, otherwise it
    /// is a placeholder, which takes the place of one with the same name where answers are
    /// routed.
    pub fn add_tool(
        &mut self,
        name: String,
        description: String,
        schema: serde_json::Value,
        callback: Option<u64>,
        approval: Approval,
    )
        requires
            old(self).wf(),
        ensures
            final(self).wf(),
            final(self)@ == with_tool(
                old(self)@,
                new_tool(
                    ToolIdentity {
                        name: name@,
                        description: description@,
                        schema: json_contents(schema),
                    },
                    callback,
                    approval,
                ),
            ),
    {
        let ghost identity = ToolIdentity {
            name: name@,
            description: description@,
            schema: json_contents(schema),
        };
        let ghost before = self@;
        let index: usize = self.state.tools.len();
        let kind: ToolKind = match callback {
            Some(callback) => ToolKind::Callback(
                JsTool::new(name, description, schema, callback),
            ),
            None => {
                self.route_to(name.as_str(), index);
                ToolKind::Pump(PendingTool::new(name, description, schema))
            },
        };
        let mut tool = AgentTool { kind, gates: Vec::new() };
        assert(tool@.gates =~= Seq::empty());
        if approval == Approval::Manual {
            tool = with_approval(tool, ApprovalGate::new());
            assert(tool@.gates =~= seq![Map::empty()]);
        }
        assert(tool@ == new_tool(identity, callback, approval));
        self.state.tools.push(tool);
        assert(self@.tools =~= before.tools.push(tool@));
    }

    /// Routes answers to the place `index` under this name, in place of where they went
    /// under it before.
    fn route_to(&mut self, name: &str, index: usize)
        requires
            old(self).wf(),
            index == old(self)@.tools.len(),
        ensures
            final(self)@ == (AgentView { pumps: pumps_with(old(self)@, name@), ..old(self)@ }),
            final(self).state.tools == old(self).state.tools,
            final(self).state.queue == old(self).state.queue,
            final(self).state.abort == old(self).state.abort,
    {
        let mut i: usize = 0;
        while i < self.state.pumps.len()
            invariant
                self == old(self),
                self.wf(),
                i <= self.state.pumps@.len(),
                index == self@.tools.len(),
                forall|j: int|
                    0 <= j < i ==> self@.tools[#[trigger] self@.pumps[j]].identity.name != name@,
            decreases self.state.pumps@.len() - i,
        {
            assert(self@.pumps[i as int] == self.state.pumps@[i as int]);
            let place: usize = self.state.pumps[i];
            assert(self@.tools[place as int] == self.state.tools@[place as int]@);
            if same_text(self.state.tools[place].name(), name) {
                self.state.pumps.set(i, index);
                assert(self@.pumps =~= old(self)@.pumps.update(i as int, index as int));
                return;
            }
            i += 1;
        }
        self.state.pumps.push(index);
        assert(self@.pumps =~= old(self)@.pumps.push(index as int));
    }

    /// Makes a tool from its description and adds it. Its calls need no approval.
    pub fn register_tool(
        &mut self,
        name: String,
        description: String,
        schema_json: String,
        callback: Option<u64>,
    ) -> (outcome: Result<(), String>)
        requires
            old(self).wf(),
        ensures
            final(self).wf(),
            match json_parse(schema_json@) {
                Ok(schema) => outcome is Ok && final(self)@ == with_tool(
                    old(self)@,
                    new_tool(
                        ToolIdentity { name: name@, description: description@, schema },
                        callback,
                        Approval::Auto,
                    ),
                ),
                Err(reason) => outcome matches Err(message) && message@ == "invalid tool schema: "@
                    + reason && final(self)@ == old(self)@,
            },
    {
        match parse_json(schema_json.as_str()) {
            Ok(schema) => {
                self.add_tool(name, description, schema, callback, Approval::Auto);
                Ok(())
            },
            Err(reason) => Err(joined("invalid tool schema: ", reason.as_str())),
        }
    }

    /// Makes a tool from its description and adds it. The options say whether the host
    /// decides on each of its calls.
    pub fn register_tool_with_options(
        &mut self,
        name: String,
        description: String,
        schema_json: String,
        callback: Option<u64>,
        options_json: String,
    ) -> (outcome: Result<(), String>)
        requires
            old(self).wf(),
        ensures
            final(self).wf(),
            match read_registration(json_parse(schema_json@), json_parse(options_json@)) {
                Ok((schema, approval)) => outcome is Ok && final(self)@ == with_tool(
                    old(self)@,
                    new_tool(
                        ToolIdentity { name: name@, description: description@, schema },
                        callback,
                        approval,
                    ),
                ),
                Err(reason) => outcome matches Err(message) && message@ == reason && final(self)@
                    == old(self)@,
            },
    {
        let schema: serde_json::Value = match parse_json(schema_json.as_str()) {
            Ok(schema) => schema,
            Err(reason) => {
                return Err(joined("invalid tool schema: ", reason.as_str()));
            },
        };
        let options: serde_json::Value = match parse_json(options_json.as_str()) {
            Ok(options) => options,
            Err(reason) => {
                return Err(joined("invalid tool options: ", reason.as_str()));
            },
        };
        match read_approval(&options) {
            Ok(approval) => {
                self.add_tool(name, description, schema, callback, approval);
                Ok(())
            },
            Err(reason) => Err(joined("invalid tool options: ", reason.as_str())),
        }
    }

    /// Starts a call of the placeholder at `index`, and returns the end at which the answer
    /// comes out. There is none where the place holds no placeholder.
    pub fn execute_tool(&mut self, index: usize, tool_use_id: &str) -> (answer: Option<
        mpsc::Receiver<String>,
    >)
        requires
            old(self).wf(),
        ensures
            final(self).wf(),
            match answer {
                Some(answer) => {
                    &&& index < old(self)@.tools.len()
                    &&& old(self)@.tools[index as int].kind is Pump
                    &&& final(self)@ == with_tool_at(
                        old(self)@,
                        index as int,
                        with_call(
                            old(self)@.tools[index as int],
                            tool_use_id@,
                            answer_line(answer),
                        ),
                    )
                },
                None => final(self)@ == old(self)@ && (index < old(self)@.tools.len()
                    ==> old(self)@.tools[index as int].kind is Callback),
            },
    {
        if index >= self.state.tools.len() {
            return None;
        }
        let answer = self.state.tools[index].execute(tool_use_id);
        assert(self@.tools =~= old(self)@.tools.update(
            index as int,
            self.state.tools@[index as int]@,
        ));
        assert(old(self)@.tools.update(index as int, old(self)@.tools[index as int])
            =~= old(self)@.tools);
        answer
    }

    /// Holds a call of the tool at `index` at one of its gates, and returns the end at which
    /// the decision comes out. There is none where the tool has no such gate.
    pub fn hold_call(&mut self, index: usize, gate: usize, tool_use_id: &str) -> (decision: Option<
        oneshot::Receiver<bool>,
    >)
        requires
            old(self).wf(),
        ensures
            final(self).wf(),
            match decision {
                Some(decision) => index < old(self)@.tools.len() && gate
                    < old(self)@.tools[index as int].gates.len() && final(self)@ == with_tool_at(
                    old(self)@,
                    index as int,
                    with_held_call(
                        old(self)@.tools[index as int],
                        gate as int,
                        tool_use_id@,
                        verdict_line(decision),
                    ),
                ),
                None => final(self)@ == old(self)@ && (index < old(self)@.tools.len() ==> gate
                    >= old(self)@.tools[index as int].gates.len()),
            },
    {
        if index >= self.state.tools.len() {
            return None;
        }
        let decision = self.state.tools[index].hold(gate, tool_use_id);
        assert(self@.tools =~= old(self)@.tools.update(
            index as int,
            self.state.tools@[index as int]@,
        ));
        assert(old(self)@.tools.update(index as int, old(self)@.tools[index as int])
            =~= old(self)@.tools);
        decision
    }

    /// Answers the call that waits under the id.
    pub fn resolve_tool(&mut self, tool_use_id: String, result_json: String) -> (outcome: Result<
        (),
        String,
    >)
        requires
            old(self).wf(),
        ensures
            final(self).wf(),
            resolved(old(self)@, final(self)@, tool_use_id@, result_json@, outcome is Ok),
            outcome matches Err(message) ==> message@
                == "resolve_tool: unknown or already-resolved tool_use_id '"@ + tool_use_id@ + "'"@,
    {
        let ghost before = self@;
        let id: &str = tool_use_id.as_str();
        let mut i: usize = 0;
        assert(self@.tools =~= answered(before, id@, 0).tools);
        while i < self.state.pumps.len()
            invariant
                self.wf(),
                before == old(self)@,
                before.wf(),
                i <= self@.pumps.len(),
                id@ == tool_use_id@,
                self@ == answered(before, id@, i as int),
                pumps_answered(before, id@, result_json@, i as int, false),
            decreases self.state.pumps@.len() - i,
        {
            let ghost asked = self@;
            assert(self@.pumps[i as int] == self.state.pumps@[i as int]);
            let place: usize = self.state.pumps[i];
            assert(asked.tools[place as int] == before.tools[place as int]);
            let accepted: bool = self.state.tools[place].resolve(id, result_json.clone());
            proof {
                assert(self@.tools =~= asked.tools.update(
                    place as int,
                    without_call(asked.tools[place as int], id@),
                ));
                assert forall|t: int| 0 <= t < before.tools.len() implies #[trigger] self@.tools[t]
                    == answered(before, id@, i + 1).tools[t] by {
                    assert(asked.tools[t] == answered(before, id@, i as int).tools[t]);
                    if t == place {
                        assert(before.pumps[i as int] == t);
                    }
                }
                assert(self@.tools =~= answered(before, id@, i + 1).tools);
                assert(call_answered(waiting_at(before, i as int), id@, result_json@, accepted));
                assert(pumps_answered(before, id@, result_json@, i + 1, accepted));
            }
            if accepted {
                return Ok(());
            }
            i += 1;
        }
        Err(
            enclosed(
                "resolve_tool: unknown or already-resolved tool_use_id '",
                tool_use_id.as_str(),
                "'",
            ),
        )
    }

    /// Gives the host's decision on the call that is held under the id.
    pub fn approve_tool_call(&mut self, tool_use_id: String, allow: bool) -> (outcome: Result<
        (),
        String,
    >)
        requires
            old(self).wf(),
        ensures
            final(self).wf(),
            approved(old(self)@, final(self)@, tool_use_id@, allow, outcome is Ok),
            outcome matches Err(message) ==> message@
                == "approve_tool_call: unknown or already-approved tool_use_id '"@ + tool_use_id@
                + "'"@,
    {
        let ghost before = self@;
        let mut i: usize = 0;
        while i < self.state.tools.len()
            invariant
                self.wf(),
                before == old(self)@,
                before.wf(),
                i <= self@.tools.len(),
                self.state.tools@.len() == before.tools.len(),
                self@ == (AgentView { tools: self@.tools, ..before }),
                tools_decided(before.tools, self@.tools, tool_use_id@, allow, i as int, false),
            decreases self.state.tools@.len() - i,
        {
            let ghost asked = self@;
            assert(asked.tools[i as int] == before.tools[i as int]);
            let accepted: bool = self.state.tools[i].approve(tool_use_id.as_str(), allow);
            proof {
                let tool = self.state.tools@[i as int]@;
                assert(self@.tools =~= asked.tools.update(i as int, tool));
                assert(call_decided(before.tools[i as int], tool, tool_use_id@, allow, accepted));
                assert(tools_decided(
                    before.tools,
                    self@.tools,
                    tool_use_id@,
                    allow,
                    i + 1,
                    accepted,
                ));
            }
            if accepted {
                return Ok(());
            }
            i += 1;
        }
        Err(
            enclosed(
                "approve_tool_call: unknown or already-approved tool_use_id '",
                tool_use_id.as_str(),
                "'",
            ),
        )
    }
}

} // verus!
