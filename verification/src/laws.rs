//! What holds of an agent over several calls.

use std::sync::Arc;

use vstd::prelude::*;

use crate::agent::{
    after_event, after_taking, answered, approved, finished, imported, limit_line, next_generation,
    prompted, pumps_answered, queued, resolved, starts_run, tools_decided, waiting_at, with_history,
    with_tool, with_tool_at, AgentView, EmbeddedAgent, RunStart,
};
use crate::channels::{is_stopped, stop_called, stop_request};
use crate::events::{event_view, messages_view, AgentEvent};
use crate::json::{json_parse, json_text, reads_as, JsonView};
use crate::messages::AgentMessage;
use crate::run::{run_after, run_started, RunView};
use crate::session::{
    entries_of, entries_view, is_restorable, read_session, read_session_text,
    restored_entries_are_written, session_of, session_round_trip, session_view, EntryView,
};
use crate::tools::{
    call_answered, call_decided, gate_decided, gates_decided, gates_without, waiting_calls,
    with_call, without_call, ToolView,
};

verus! {

/// An agent and its run after a number of events.
pub open spec fn run_through(
    agent: AgentView,
    run: RunView,
    events: Seq<AgentEvent>,
) -> (AgentView, RunView)
    decreases events.len(),
{
    if events.len() == 0 {
        (agent, run)
    } else {
        let (agent, run) = run_through(agent, run, events.drop_last());
        (after_event(agent, run, events.last()), run_after(run, events.last()))
    }
}

/// The number of turns that events start.
pub open spec fn turns_in(events: Seq<AgentEvent>) -> nat
    decreases events.len(),
{
    if events.len() == 0 {
        0
    } else {
        turns_in(events.drop_last()) + if events.last() is TurnStart {
            1nat
        } else {
            0nat
        }
    }
}

/// Whether an error is among events.
pub open spec fn has_error(events: Seq<AgentEvent>) -> bool {
    exists|i: int| 0 <= i < events.len() && #[trigger] events[i] is Error
}

/// Whether the end of the agent loop is among events.
pub open spec fn has_end(events: Seq<AgentEvent>) -> bool {
    exists|i: int| 0 <= i < events.len() && #[trigger] events[i] is AgentEnd
}

/// What was said in a run with these events.
pub open spec fn said_in(events: Seq<AgentEvent>) -> Seq<Arc<AgentMessage>>
    decreases events.len(),
{
    if events.len() == 0 {
        Seq::empty()
    } else {
        let before = said_in(events.drop_last());
        match events.last() {
            AgentEvent::AgentEnd { new_messages } => before + new_messages@,
            _ => before,
        }
    }
}

/// The last of some events is among them, and so are those before it.
proof fn last_event(events: Seq<AgentEvent>)
    requires
        events.len() > 0,
    ensures
        has_error(events) == (has_error(events.drop_last()) || events.last() is Error),
        has_end(events) == (has_end(events.drop_last()) || events.last() is AgentEnd),
{
    let before = events.drop_last();
    if has_error(before) {
        let i = choose|i: int| 0 <= i < before.len() && #[trigger] before[i] is Error;
        assert(events[i] is Error);
    }
    if has_end(before) {
        let i = choose|i: int| 0 <= i < before.len() && #[trigger] before[i] is AgentEnd;
        assert(events[i] is AgentEnd);
    }
    if has_error(events) && !(events.last() is Error) {
        let i = choose|i: int| 0 <= i < events.len() && #[trigger] events[i] is Error;
        assert(before[i] is Error);
    }
    if has_end(events) && !(events.last() is AgentEnd) {
        let i = choose|i: int| 0 <= i < events.len() && #[trigger] events[i] is AgentEnd;
        assert(before[i] is AgentEnd);
    }
}

/// Events add lines, count tokens and may stop the run; they leave the history, its
/// generation, the tools and the settings of the agent as they are.
pub proof fn events_leave_the_history(agent: AgentView, run: RunView, events: Seq<AgentEvent>)
    ensures
        run_through(agent, run, events).0 == (AgentView {
            queue: run_through(agent, run, events).0.queue,
            aborted: run_through(agent, run, events).0.aborted,
            cost: run_through(agent, run, events).0.cost,
            ..agent
        }),
        agent.aborted ==> run_through(agent, run, events).0.aborted,
    decreases events.len(),
{
    if events.len() > 0 {
        events_leave_the_history(agent, run, events.drop_last());
    }
}

/// What a run has come to after events: the turns that may still start, whether an error or
/// the end is among them, and what was said.
pub proof fn run_comes_to(agent: AgentView, run: RunView, events: Seq<AgentEvent>)
    ensures
        run_through(agent, run, events).1 == (RunView {
            turns_left: if turns_in(events) < run.turns_left {
                (run.turns_left - turns_in(events)) as nat
            } else {
                0
            },
            failed: run.failed || has_error(events),
            ended: run.ended || has_end(events),
            new_messages: run.new_messages + said_in(events),
            ..run
        }),
    decreases events.len(),
{
    if events.len() == 0 {
        assert(run.new_messages + said_in(events) =~= run.new_messages);
    } else {
        run_comes_to(agent, run, events.drop_last());
        last_event(events);
        let before = run_through(agent, run, events.drop_last()).1;
        if let AgentEvent::AgentEnd { new_messages } = events.last() {
            assert(before.new_messages + new_messages@ =~= run.new_messages + said_in(events));
        }
    }
}

/// The lines of events: one for each, in order, and directly before the line of each turn
/// beyond the first `turns_left` one that reports it.
pub open spec fn lines_in(
    events: Seq<AgentEvent>,
    turns_left: nat,
    max_turns: u32,
) -> Seq<Seq<char>>
    decreases events.len(),
{
    if events.len() == 0 {
        Seq::empty()
    } else {
        let before = lines_in(events.drop_last(), turns_left, max_turns);
        let line = json_text(event_view(events.last()));
        if events.last() is TurnStart && turns_in(events) > turns_left {
            before.push(limit_line(max_turns)).push(line)
        } else {
            before.push(line)
        }
    }
}

/// A run reaches the host event by event: the lines of its events follow those that wait
/// already, in order.
pub proof fn events_reach_the_host_in_order(
    agent: AgentView,
    run: RunView,
    events: Seq<AgentEvent>,
)
    ensures
        run_through(agent, run, events).0.queue == agent.queue + lines_in(
            events,
            run.turns_left,
            run.max_turns,
        ),
    decreases events.len(),
{
    let lines = lines_in(events, run.turns_left, run.max_turns);
    if events.len() == 0 {
        assert(agent.queue + lines =~= agent.queue);
    } else {
        let before = events.drop_last();
        events_reach_the_host_in_order(agent, run, before);
        run_comes_to(agent, run, before);
        assert(run_through(agent, run, events).0.queue =~= agent.queue + lines);
    }
}

/// The events of a run that keeps to its turns have one line each.
pub proof fn every_event_has_one_line(events: Seq<AgentEvent>, turns_left: nat, max_turns: u32)
    requires
        turns_in(events) <= turns_left,
    ensures
        lines_in(events, turns_left, max_turns) == Seq::new(
            events.len(),
            |i: int| json_text(event_view(events[i])),
        ),
    decreases events.len(),
{
    let lines = Seq::new(events.len(), |i: int| json_text(event_view(events[i])));
    if events.len() == 0 {
        assert(lines =~= Seq::empty());
    } else {
        let before = events.drop_last();
        every_event_has_one_line(before, turns_left, max_turns);
        let shorter = Seq::new(before.len(), |i: int| json_text(event_view(before[i])));
        assert(lines =~= shorter.push(json_text(event_view(events.last()))));
    }
}

/// The agent stops a run of its own accord exactly when it starts more turns than it may.
pub proof fn too_many_turns_stop_the_run(
    agent: AgentView,
    user: Arc<AgentMessage>,
    generation: u64,
    max_turns: u32,
    events: Seq<AgentEvent>,
)
    ensures
        run_through(agent, run_started(user, generation, max_turns), events).0.aborted == (
        agent.aborted || turns_in(events) > max_turns),
    decreases events.len(),
{
    if events.len() > 0 {
        let run = run_started(user, generation, max_turns);
        too_many_turns_stop_the_run(agent, user, generation, max_turns, events.drop_last());
        run_comes_to(agent, run, events.drop_last());
    }
}

/// A prompt of `user` as a run before its first event.
pub open spec fn run_of(agent: AgentView, user: Arc<AgentMessage>) -> RunView {
    run_started(user, next_generation(agent.generation), agent.deps.max_turns)
}

/// An agent after a whole run: a prompt, its events and its end.
pub open spec fn after_run(
    agent: AgentView,
    request: int,
    user: Arc<AgentMessage>,
    events: Seq<AgentEvent>,
) -> AgentView {
    let (later, run) = run_through(prompted(agent, request), run_of(agent, user), events);
    finished(later, run)
}

/// What a run adds to the history: the user's question and what was said, where it ended
/// without an error, and otherwise nothing.
pub open spec fn added_by(user: Arc<AgentMessage>, events: Seq<AgentEvent>) -> Seq<
    Arc<AgentMessage>,
> {
    if has_end(events) && !has_error(events) {
        seq![user] + said_in(events)
    } else {
        Seq::empty()
    }
}

/// Once a run has ended without an error, the history is what it was, then the user's
/// question, then what was said. After any other run the history is what it was: neither the
/// question of a failed run nor half of what it said stays.
pub proof fn run_joins_the_history(
    agent: AgentView,
    request: int,
    user: Arc<AgentMessage>,
    events: Seq<AgentEvent>,
)
    ensures
        !after_run(agent, request, user, events).running,
        after_run(agent, request, user, events).history == agent.history + added_by(user, events),
{
    let started = prompted(agent, request);
    events_leave_the_history(started, run_of(agent, user), events);
    run_comes_to(started, run_of(agent, user), events);
    assert(Seq::<Arc<AgentMessage>>::empty() + said_in(events) =~= said_in(events));
    assert(agent.history.push(user) + said_in(events) =~= agent.history + (seq![user] + said_in(
        events,
    )));
    assert(agent.history + Seq::<Arc<AgentMessage>>::empty() =~= agent.history);
}

/// A run, as what it is started with and what happens in it.
pub struct Conversation {
    pub request: int,
    pub user: Arc<AgentMessage>,
    pub events: Seq<AgentEvent>,
}

/// An agent after a number of runs, one after the other.
pub open spec fn after_runs(agent: AgentView, runs: Seq<Conversation>) -> AgentView
    decreases runs.len(),
{
    if runs.len() == 0 {
        agent
    } else {
        let last = runs.last();
        after_run(after_runs(agent, runs.drop_last()), last.request, last.user, last.events)
    }
}

/// What a number of runs add to the history.
pub open spec fn added_by_runs(runs: Seq<Conversation>) -> Seq<Arc<AgentMessage>>
    decreases runs.len(),
{
    if runs.len() == 0 {
        Seq::empty()
    } else {
        added_by_runs(runs.drop_last()) + added_by(runs.last().user, runs.last().events)
    }
}

/// Runs add up: after any number of them the history is what it was, and then what each run
/// adds, in order.
pub proof fn runs_add_up(agent: AgentView, runs: Seq<Conversation>)
    ensures
        after_runs(agent, runs).history == agent.history + added_by_runs(runs),
    decreases runs.len(),
{
    if runs.len() == 0 {
        assert(agent.history + added_by_runs(runs) =~= agent.history);
    } else {
        let last = runs.last();
        let before = after_runs(agent, runs.drop_last());
        runs_add_up(agent, runs.drop_last());
        run_joins_the_history(before, last.request, last.user, last.events);
        assert(before.history + added_by(last.user, last.events) =~= agent.history + added_by_runs(
            runs,
        ));
    }
}

/// An agent and its run after a number of events that were taken in.
pub open spec fn taken_through(
    agent: AgentView,
    run: RunView,
    events: Seq<AgentEvent>,
) -> (AgentView, RunView)
    decreases events.len(),
{
    if events.len() == 0 {
        (agent, run)
    } else {
        let (agent, run) = taken_through(agent, run, events.drop_last());
        (after_taking(agent, run, events.last()), run_after(run, events.last()))
    }
}

/// Up to the end of the agent loop, to take events in is no more than to queue them.
proof fn taking_before_the_end(agent: AgentView, run: RunView, events: Seq<AgentEvent>)
    requires
        !has_end(events),
    ensures
        taken_through(agent, run, events) == run_through(agent, run, events),
    decreases events.len(),
{
    if events.len() > 0 {
        last_event(events);
        taking_before_the_end(agent, run, events.drop_last());
    }
}

/// A run is under way from its prompt until the end of the agent loop was taken in, and is
/// over then: the call that queues the line of the end also writes the history.
pub proof fn run_is_under_way_up_to_its_end(
    agent: AgentView,
    request: int,
    user: Arc<AgentMessage>,
    events: Seq<AgentEvent>,
)
    ensures
        ({
            let taken = taken_through(prompted(agent, request), run_of(agent, user), events).0;
            &&& !has_end(events) ==> taken.running && taken.history == agent.history
            &&& events.len() > 0 && events.last() is AgentEnd && !has_end(events.drop_last()) ==> {
                &&& taken == after_run(agent, request, user, events)
                &&& !taken.running
                &&& taken.history == agent.history + added_by(user, events)
                &&& taken.queue.last() == json_text(event_view(events.last()))
            }
        }),
{
    let started = prompted(agent, request);
    let run = run_of(agent, user);
    if !has_end(events) {
        taking_before_the_end(started, run, events);
        events_leave_the_history(started, run, events);
    }
    if events.len() > 0 && events.last() is AgentEnd && !has_end(events.drop_last()) {
        taking_before_the_end(started, run, events.drop_last());
        run_joins_the_history(agent, request, user, events);
    }
}

/// Whether the same conversation is under way in two states of an agent.
pub open spec fn same_conversation(a: AgentView, b: AgentView) -> bool {
    &&& a.history == b.history
    &&& a.generation == b.generation
    &&& a.running == b.running
    &&& a.deps == b.deps
    &&& a.request == b.request
}

/// What the host does during a run leaves the conversation as it is: to poll, to cancel, to
/// prompt again, to register a tool, and to answer or decide on a call; so does a call that is
/// started or held, and so does an event other than the last.
pub proof fn other_calls_leave_the_conversation(
    agent: AgentView,
    line: Seq<char>,
    run: RunView,
    event: AgentEvent,
    tool: ToolView,
    index: int,
    id: Seq<char>,
    count: int,
)
    ensures
        same_conversation(agent, AgentView { queue: Seq::empty(), ..agent }),
        same_conversation(agent, AgentView { aborted: true, ..agent }),
        same_conversation(agent, queued(agent, line)),
        same_conversation(agent, with_tool(agent, tool)),
        same_conversation(agent, with_tool_at(agent, index, tool)),
        same_conversation(agent, answered(agent, id, count)),
        forall|after: AgentView, allow: bool, accepted: bool| #[trigger]
            approved(agent, after, id, allow, accepted) ==> same_conversation(agent, after),
        !(event is AgentEnd) ==> same_conversation(agent, after_taking(agent, run, event)),
{
}

/// A run joins the history as it does alone, whatever else the host does meanwhile, as long as
/// the same conversation is under way at its end.
pub proof fn run_joins_the_history_amid_other_calls(
    agent: AgentView,
    request: int,
    user: Arc<AgentMessage>,
    events: Seq<AgentEvent>,
    later: AgentView,
)
    requires
        same_conversation(prompted(agent, request), later),
    ensures
        ({
            let run = run_through(prompted(agent, request), run_of(agent, user), events).1;
            &&& later.running
            &&& !finished(later, run).running
            &&& finished(later, run).history == agent.history + added_by(user, events)
        }),
{
    run_joins_the_history(agent, request, user, events);
    events_leave_the_history(prompted(agent, request), run_of(agent, user), events);
}

/// Whoever sees the line of a run's end finds the run over: the call that queues the line ends
/// the run and writes the history, and nothing but a further prompt starts one again.
pub proof fn end_is_seen_after_the_run(
    agent: AgentView,
    run: RunView,
    event: AgentEvent,
    later: AgentView,
)
    requires
        event is AgentEnd,
        same_conversation(after_taking(agent, run, event), later),
    ensures
        after_taking(agent, run, event).queue == agent.queue.push(json_text(event_view(event))),
        !later.running,
        later.history == finished(agent, run_after(run, event)).history,
{
}

/// The next prompt carries the whole conversation: what the last one carried, what was said
/// since, and the new question.
pub proof fn next_prompt_carries_the_conversation(
    agent: AgentView,
    first: RunStart,
    first_text: Seq<char>,
    events: Seq<AgentEvent>,
    second: RunStart,
    second_text: Seq<char>,
)
    requires
        starts_run(first, agent, first_text),
        has_end(events),
        !has_error(events),
        starts_run(
            second,
            after_run(agent, stop_request(first.config.abort), first.run@.user, events),
            second_text,
        ),
    ensures
        second.context.messages@ == (first.context.messages@ + said_in(events)).push(
            second.run@.user,
        ),
        second.context.messages@.len() > first.context.messages@.len(),
{
    run_joins_the_history(agent, stop_request(first.config.abort), first.run@.user, events);
    assert(agent.history + added_by(first.run@.user, events) =~= first.context.messages@ + said_in(
        events,
    ));
}

/// A run whose history was cleared or replaced meanwhile leaves no trace in the new one,
/// whatever happens before it ends.
pub proof fn stale_run_is_discarded(
    agent: AgentView,
    run: RunView,
    before: Seq<AgentEvent>,
    history: Seq<Arc<AgentMessage>>,
    after: Seq<AgentEvent>,
)
    requires
        agent.generation == run.generation,
    ensures
        ({
            let (cleared, run) = run_through(agent, run, before);
            let (later, run) = run_through(with_history(cleared, history), run, after);
            let done = finished(later, run);
            &&& later.running == agent.running
            &&& done.history == history
            &&& !done.running
        }),
{
    events_leave_the_history(agent, run, before);
    run_comes_to(agent, run, before);
    let (cleared, run) = run_through(agent, run, before);
    events_leave_the_history(with_history(cleared, history), run, after);
    run_comes_to(with_history(cleared, history), run, after);
}

/// A run whose history was cleared or replaced meanwhile leaves no trace in the new one,
/// whatever else the host does meanwhile.
pub proof fn stale_run_is_discarded_amid_other_calls(
    agent: AgentView,
    run: RunView,
    history: Seq<Arc<AgentMessage>>,
    later: AgentView,
)
    requires
        agent.generation == run.generation,
        same_conversation(with_history(agent, history), later),
    ensures
        finished(later, run).history == history,
        !finished(later, run).running,
{
}

/// To clear or to replace the history neither interrupts a run nor forgets what it cost, nor
/// what the host has not seen yet, nor the tools.
pub proof fn new_history_keeps_the_rest(agent: AgentView, history: Seq<Arc<AgentMessage>>)
    ensures
        with_history(agent, history).running == agent.running,
        with_history(agent, history).request == agent.request,
        with_history(agent, history).aborted == agent.aborted,
        with_history(agent, history).queue == agent.queue,
        with_history(agent, history).cost == agent.cost,
        with_history(agent, history).tools == agent.tools,
        with_history(agent, history).pumps == agent.pumps,
        with_history(agent, history).deps == agent.deps,
{
}

/// The session of an agent whose history was cleared has no entries.
pub proof fn cleared_session_is_empty(agent: AgentView)
    ensures
        session_view(with_history(agent, Seq::empty()).history) == session_of(Seq::empty()),
{
    assert(messages_view(Seq::empty()) =~= Seq::empty());
    assert(entries_view(Seq::empty()) =~= Seq::empty());
}

/// After the import of any session that is not refused, the session that is exported holds
/// its entries, in order, and nothing of the history before. Every list of what the user and
/// the assistant said makes such a session.
pub proof fn import_then_export(
    session: JsonView,
    entries: Seq<EntryView>,
    before: AgentView,
    after: AgentView,
    outcome: Result<(), String>,
)
    requires
        read_session(session) == Ok::<Seq<EntryView>, Seq<char>>(entries),
        imported(before, after, read_session(session), outcome),
    ensures
        outcome is Ok,
        session_view(after.history) == session_of(entries),
        read_session(session_of(entries)) == Ok::<Seq<EntryView>, Seq<char>>(entries),
{
    restored_entries_are_written(after.history, entries);
}

/// What the user and the assistant said in an agent is what another has after it imports the
/// session, and to export it again gives the same text.
pub proof fn export_then_import(
    agent: AgentView,
    text: Seq<char>,
    other: AgentView,
    after: AgentView,
    outcome: Result<(), String>,
)
    requires
        is_restorable(agent.history),
    ensures
        reads_as(text, session_view(agent.history)) && imported(
            other,
            after,
            read_session_text(json_parse(text)),
            outcome,
        ) ==> {
            &&& outcome is Ok
            &&& entries_of(after.history) == entries_of(agent.history)
            &&& json_text(session_view(after.history)) == json_text(session_view(agent.history))
        },
{
    session_round_trip(agent.history, after.history);
}

/// A conversation between the user and the assistant stays one that a session can restore:
/// where the run says nothing else, the history after it can be exported and imported.
pub proof fn conversation_stays_restorable(
    agent: AgentView,
    start: RunStart,
    text: Seq<char>,
    events: Seq<AgentEvent>,
)
    requires
        starts_run(start, agent, text),
        is_restorable(agent.history),
        is_restorable(said_in(events)),
    ensures
        is_restorable(
            after_run(agent, stop_request(start.config.abort), start.run@.user, events).history,
        ),
{
    let request = stop_request(start.config.abort);
    run_joins_the_history(agent, request, start.run@.user, events);
    let history = after_run(agent, request, start.run@.user, events).history;
    let said = said_in(events);
    assert forall|i: int| 0 <= i < history.len() implies (*#[trigger] history[i] is User
        || *history[i] is Assistant) by {
        if i < agent.history.len() {
            assert(history[i] == agent.history[i]);
        } else if i > agent.history.len() {
            assert(history[i] == said[i - agent.history.len() - 1]);
        }
    }
}

/// A run is told to stop whenever its agent is while it is under way: the agent's request is
/// the one that the run listens to.
pub proof fn stop_reaches_the_run(before: AgentView, start: RunStart, later: &EmbeddedAgent)
    requires
        same_conversation(prompted(before, stop_request(start.config.abort)), later@),
        later@.aborted,
    ensures
        is_stopped(stop_request(start.config.abort)),
{
    later.aborted_is_stopped();
}

/// The run that is under way when the host cancels has its stop requested.
pub proof fn cancel_stops_the_run_under_way(
    before: AgentView,
    start: RunStart,
    at: AgentView,
    cancelled: &EmbeddedAgent,
)
    requires
        same_conversation(prompted(before, stop_request(start.config.abort)), at),
        cancelled@ == (AgentView { aborted: true, ..at }),
    ensures
        is_stopped(stop_request(start.config.abort)),
{
    stop_reaches_the_run(before, start, cancelled);
}

/// No call takes an agent back to an earlier request to stop: a prompt that is accepted brings
/// a later one, and every other call keeps the one that is there.
pub proof fn request_never_goes_back(
    agent: AgentView,
    start: RunStart,
    text: Seq<char>,
    history: Seq<Arc<AgentMessage>>,
    run: RunView,
    event: AgentEvent,
    line: Seq<char>,
    tool: ToolView,
    index: int,
    id: Seq<char>,
    count: int,
)
    ensures
        starts_run(start, agent, text) ==> prompted(
            agent,
            stop_request(start.config.abort),
        ).request > agent.request,
        finished(agent, run).request == agent.request,
        after_taking(agent, run, event).request == agent.request,
        with_history(agent, history).request == agent.request,
        queued(agent, line).request == agent.request,
        with_tool(agent, tool).request == agent.request,
        with_tool_at(agent, index, tool).request == agent.request,
        answered(agent, id, count).request == agent.request,
        forall|after: AgentView, allow: bool, accepted: bool| #[trigger]
            approved(agent, after, id, allow, accepted) ==> after.request == agent.request,
        forall|after: AgentView, read: Result<Seq<EntryView>, Seq<char>>, outcome: Result<
            (),
            String,
        >| #[trigger]
            imported(agent, after, read, outcome) ==> after.request == agent.request,
{
}

/// A stop touches the run that it is meant for and none that is started later: whatever was
/// done to a run, and whatever came since, a run that is started later listens to another
/// request to stop, and no stop was called through the token that it gets. That `later` comes
/// after the first run shows in its request, which never goes back.
pub proof fn later_run_listens_to_another_request(
    before: AgentView,
    first: RunStart,
    first_text: Seq<char>,
    later: AgentView,
    second: RunStart,
    second_text: Seq<char>,
)
    requires
        starts_run(first, before, first_text),
        later.request >= prompted(before, stop_request(first.config.abort)).request,
        starts_run(second, later, second_text),
    ensures
        stop_request(second.config.abort) != stop_request(first.config.abort),
        !stop_called(second.config.abort),
{
}

/// The run after one that was cancelled, or that was stopped for its turns, is not stopped with
/// it: it listens to another request, and no stop was called through its token.
pub proof fn cancel_leaves_the_next_run_alone(
    before: AgentView,
    first: RunStart,
    first_text: Seq<char>,
    at: AgentView,
    events: Seq<AgentEvent>,
    second: RunStart,
    second_text: Seq<char>,
)
    requires
        starts_run(first, before, first_text),
        same_conversation(prompted(before, stop_request(first.config.abort)), at),
        ({
            let cancelled = AgentView { aborted: true, ..at };
            let (later, run) = run_through(cancelled, first.run@, events);
            starts_run(second, finished(later, run), second_text)
        }),
    ensures
        stop_request(second.config.abort) != stop_request(first.config.abort),
        !stop_called(second.config.abort),
{
    let cancelled = AgentView { aborted: true, ..at };
    events_leave_the_history(cancelled, first.run@, events);
    let (later, run) = run_through(cancelled, first.run@, events);
    later_run_listens_to_another_request(
        before,
        first,
        first_text,
        finished(later, run),
        second,
        second_text,
    );
}

/// A run that an agent starts is told to stop by the agent of its own accord only where it
/// starts more turns than it may, whatever happened to the runs before it.
pub proof fn next_run_is_stopped_only_by_its_turns(
    agent: AgentView,
    request: int,
    user: Arc<AgentMessage>,
    events: Seq<AgentEvent>,
)
    ensures
        run_through(prompted(agent, request), run_of(agent, user), events).0.aborted == (turns_in(
            events,
        ) > agent.deps.max_turns),
{
    too_many_turns_stop_the_run(
        prompted(agent, request),
        user,
        next_generation(agent.generation),
        agent.deps.max_turns,
        events,
    );
}

/// A tool that has no call `id` is left as it is when the call is taken from it.
proof fn absent_call_is_not_missed(tool: ToolView, id: Seq<char>)
    requires
        !waiting_calls(tool).contains_key(id),
    ensures
        without_call(tool, id) == tool,
{
    assert(waiting_calls(tool).remove(id) =~= waiting_calls(tool));
}

/// What waits at a placeholder once an answer has gone to the first `count`: of those the
/// call is gone, and the others are as they were.
proof fn waiting_after_answer(agent: AgentView, id: Seq<char>, count: int, pump: int)
    requires
        agent.wf(),
        0 <= pump < agent.pumps.len(),
        0 <= count <= agent.pumps.len(),
    ensures
        waiting_at(answered(agent, id, count), pump) == if pump < count {
            waiting_at(agent, pump).remove(id)
        } else {
            waiting_at(agent, pump)
        },
{
    let place = agent.pumps[pump];
    if pump < count {
        assert(agent.pumps[pump] == place);
    }
    assert forall|i: int| 0 <= i < agent.pumps.len() && i != pump implies #[trigger] agent.pumps[i]
        != place by {
        if i < pump {
            assert(agent.tools[agent.pumps[i]].identity.name
                != agent.tools[agent.pumps[pump]].identity.name);
        } else {
            assert(agent.tools[agent.pumps[pump]].identity.name
                != agent.tools[agent.pumps[i]].identity.name);
        }
    }
}

/// An answer to a call that waits nowhere is refused, and changes nothing.
pub proof fn unknown_call_is_refused(
    before: AgentView,
    after: AgentView,
    id: Seq<char>,
    text: Seq<char>,
    accepted: bool,
)
    requires
        before.wf(),
        forall|i: int|
            0 <= i < before.pumps.len() ==> !(#[trigger] waiting_at(before, i)).contains_key(id),
    ensures
        resolved(before, after, id, text, accepted) ==> !accepted && after == before,
{
    if resolved(before, after, id, text, accepted) {
        let count = choose|count: int|
            {
                &&& #[trigger] pumps_answered(before, id, text, count, accepted)
                &&& !accepted ==> count == before.pumps.len()
                &&& after == answered(before, id, count)
            };
        if accepted {
            assert(call_answered(waiting_at(before, count - 1), id, text, true));
        }
        assert forall|t: int| 0 <= t < before.tools.len() implies #[trigger] after.tools[t]
            == before.tools[t] by {
            if exists|i: int| 0 <= i < count && #[trigger] before.pumps[i] == t {
                let i = choose|i: int| 0 <= i < count && #[trigger] before.pumps[i] == t;
                assert(!waiting_at(before, i).contains_key(id));
                absent_call_is_not_missed(before.tools[t], id);
            }
        }
        assert(after.tools =~= before.tools);
    }
}

/// A call that waits at one placeholder takes one answer: once one was given, whether it was
/// accepted or refused, another is refused and changes nothing.
pub proof fn call_takes_one_answer(
    before: AgentView,
    between: AgentView,
    after: AgentView,
    id: Seq<char>,
    text: Seq<char>,
    first: bool,
    again: Seq<char>,
    second: bool,
)
    requires
        before.wf(),
        forall|i: int, j: int|
            0 <= i < before.pumps.len() && 0 <= j < before.pumps.len() && (#[trigger] waiting_at(
                before,
                i,
            )).contains_key(id) && (#[trigger] waiting_at(before, j)).contains_key(id) ==> i == j,
    ensures
        resolved(before, between, id, text, first) && resolved(between, after, id, again, second)
            ==> !second && after == between,
{
    if resolved(before, between, id, text, first) && resolved(between, after, id, again, second) {
        let count = choose|count: int|
            {
                &&& #[trigger] pumps_answered(before, id, text, count, first)
                &&& !first ==> count == before.pumps.len()
                &&& between == answered(before, id, count)
            };
        if first {
            assert(call_answered(waiting_at(before, count - 1), id, text, true));
        }
        answered_is_wf(before, id, count);
        assert forall|i: int| 0 <= i < between.pumps.len() implies !(#[trigger] waiting_at(
            between,
            i,
        )).contains_key(id) by {
            waiting_after_answer(before, id, count, i);
            if i >= count {
                assert(waiting_at(before, count - 1).contains_key(id));
                assert(!waiting_at(before, i).contains_key(id));
            }
        }
        unknown_call_is_refused(between, after, id, again, second);
    }
}

/// Answers are routed as before once one was given.
proof fn answered_is_wf(agent: AgentView, id: Seq<char>, count: int)
    requires
        agent.wf(),
    ensures
        answered(agent, id, count).wf(),
{
    let after = answered(agent, id, count);
    assert forall|t: int| 0 <= t < agent.tools.len() implies {
        &&& (#[trigger] after.tools[t]).identity == agent.tools[t].identity
        &&& after.tools[t].kind is Pump == agent.tools[t].kind is Pump
    } by {}
}

/// An answer to one call leaves the other calls, and every call that waits for a decision,
/// where they are.
pub proof fn answer_leaves_other_calls(
    agent: AgentView,
    id: Seq<char>,
    count: int,
    tool: int,
    other: Seq<char>,
)
    requires
        0 <= tool < agent.tools.len(),
        other != id,
    ensures
        waiting_calls(answered(agent, id, count).tools[tool]).contains_key(other) == waiting_calls(
            agent.tools[tool],
        ).contains_key(other),
        waiting_calls(agent.tools[tool]).contains_key(other) ==> waiting_calls(
            answered(agent, id, count).tools[tool],
        )[other] == waiting_calls(agent.tools[tool])[other],
        answered(agent, id, count).tools[tool].gates == agent.tools[tool].gates,
        answered(agent, id, count).tools[tool].identity == agent.tools[tool].identity,
{
}

/// A decision on one call leaves the other calls at the gates, and every call that waits for
/// an answer, where they are.
pub proof fn decision_leaves_other_calls(
    before: AgentView,
    after: AgentView,
    id: Seq<char>,
    allow: bool,
    accepted: bool,
    tool: int,
    gate: int,
    other: Seq<char>,
)
    requires
        0 <= tool < before.tools.len(),
        0 <= gate < before.tools[tool].gates.len(),
        other != id,
    ensures
        approved(before, after, id, allow, accepted) ==> {
            &&& after.tools.len() == before.tools.len()
            &&& after.tools[tool].identity == before.tools[tool].identity
            &&& after.tools[tool].kind == before.tools[tool].kind
            &&& after.tools[tool].gates.len() == before.tools[tool].gates.len()
            &&& after.tools[tool].gates[gate].contains_key(other)
                == before.tools[tool].gates[gate].contains_key(other)
            &&& before.tools[tool].gates[gate].contains_key(other)
                ==> after.tools[tool].gates[gate][other] == before.tools[tool].gates[gate][other]
        },
{
    if approved(before, after, id, allow, accepted) {
        let count = choose|count: int|
            #[trigger] tools_decided(before.tools, after.tools, id, allow, count, accepted);
        if tool < count {
            assert(call_decided(
                before.tools[tool],
                after.tools[tool],
                id,
                allow,
                accepted && tool == count - 1,
            ));
        }
    }
}

/// A call that is held nowhere cannot be decided on, and trying to changes nothing.
pub proof fn unknown_decision_is_refused(
    before: AgentView,
    after: AgentView,
    id: Seq<char>,
    allow: bool,
    accepted: bool,
)
    requires
        forall|t: int, g: int|
            0 <= t < before.tools.len() && 0 <= g < before.tools[t].gates.len()
                ==> !(#[trigger] before.tools[t].gates[g]).contains_key(id),
    ensures
        approved(before, after, id, allow, accepted) ==> !accepted && after == before,
{
    if approved(before, after, id, allow, accepted) {
        let count = choose|count: int|
            #[trigger] tools_decided(before.tools, after.tools, id, allow, count, accepted)
                && (!accepted ==> count == before.tools.len());
        assert forall|t: int| 0 <= t < before.tools.len() implies #[trigger] after.tools[t]
            == before.tools[t] && (t < count ==> !(accepted && t == count - 1)) by {
            if t < count {
                tool_without_call_refuses(
                    before.tools[t],
                    after.tools[t],
                    id,
                    allow,
                    accepted && t == count - 1,
                );
            }
        }
        assert(after.tools =~= before.tools);
        if accepted {
            assert(after.tools[count - 1] == before.tools[count - 1]);
        }
    }
}

/// A tool at whose gates a call is not held takes no decision on it.
proof fn tool_without_call_refuses(
    before: ToolView,
    after: ToolView,
    id: Seq<char>,
    allow: bool,
    accepted: bool,
)
    requires
        forall|g: int|
            0 <= g < before.gates.len() ==> !(#[trigger] before.gates[g]).contains_key(id),
    ensures
        call_decided(before, after, id, allow, accepted) ==> !accepted && after == before,
{
    if call_decided(before, after, id, allow, accepted) {
        let count = choose|count: int|
            {
                &&& #[trigger] gates_decided(before.gates, id, allow, count, accepted)
                &&& !accepted ==> count == before.gates.len()
                &&& after == (ToolView {
                    gates: gates_without(before.gates, id, count),
                    ..before
                })
            };
        if accepted {
            assert(!before.gates[count - 1].contains_key(id));
        }
        assert forall|g: int| 0 <= g < before.gates.len() implies #[trigger] after.gates[g]
            == before.gates[g] by {
            assert(!before.gates[g].contains_key(id));
            assert(before.gates[g].remove(id) =~= before.gates[g]);
        }
        assert(after.gates =~= before.gates);
    }
}

/// A call that is held at one gate takes one decision: once one was given, whether it was
/// accepted or refused, another is refused and changes nothing.
pub proof fn call_takes_one_decision(
    before: AgentView,
    between: AgentView,
    after: AgentView,
    id: Seq<char>,
    allow: bool,
    first: bool,
    again: bool,
    second: bool,
)
    requires
        forall|t: int, g: int, u: int, h: int|
            0 <= t < before.tools.len() && 0 <= g < before.tools[t].gates.len() && 0 <= u
                < before.tools.len() && 0 <= h < before.tools[u].gates.len() && (
            #[trigger] before.tools[t].gates[g]).contains_key(id) && (
            #[trigger] before.tools[u].gates[h]).contains_key(id) ==> t == u && g == h,
    ensures
        approved(before, between, id, allow, first) && approved(between, after, id, again, second)
            ==> !second && after == between,
{
    if approved(before, between, id, allow, first) && approved(
        between,
        after,
        id,
        again,
        second,
    ) {
        if first {
            accepted_decision_leaves_no_call(before, between, id, allow);
        } else {
            refused_decision_leaves_no_call(before, between, id, allow);
        }
        unknown_decision_is_refused(between, after, id, again, second);
    }
}

/// A call that is held at one gate is held nowhere once a decision on it was accepted.
proof fn accepted_decision_leaves_no_call(
    before: AgentView,
    after: AgentView,
    id: Seq<char>,
    allow: bool,
)
    requires
        forall|t: int, g: int, u: int, h: int|
            0 <= t < before.tools.len() && 0 <= g < before.tools[t].gates.len() && 0 <= u
                < before.tools.len() && 0 <= h < before.tools[u].gates.len() && (
            #[trigger] before.tools[t].gates[g]).contains_key(id) && (
            #[trigger] before.tools[u].gates[h]).contains_key(id) ==> t == u && g == h,
    ensures
        approved(before, after, id, allow, true) ==> forall|t: int, g: int|
            0 <= t < after.tools.len() && 0 <= g < after.tools[t].gates.len() ==> !(
            #[trigger] after.tools[t].gates[g]).contains_key(id),
{
    if approved(before, after, id, allow, true) {
        let count = choose|count: int|
            #[trigger] tools_decided(before.tools, after.tools, id, allow, count, true);
        let last = count - 1;
        assert(call_decided(before.tools[last], after.tools[last], id, allow, true));
        let gates = choose|gates: int|
            {
                &&& #[trigger] gates_decided(before.tools[last].gates, id, allow, gates, true)
                &&& after.tools[last] == (ToolView {
                    gates: gates_without(before.tools[last].gates, id, gates),
                    ..before.tools[last]
                })
            };
        let holder = before.tools[last].gates[gates - 1];
        assert(gate_decided(holder, id, allow, true));
        assert(holder.contains_key(id));
        assert forall|t: int, g: int|
            0 <= t < after.tools.len() && 0 <= g < after.tools[t].gates.len() implies !(
        #[trigger] after.tools[t].gates[g]).contains_key(id) by {
            if t < last {
                assert(call_decided(before.tools[t], after.tools[t], id, allow, false));
            }
            if after.tools[t].gates[g].contains_key(id) {
                assert(before.tools[t].gates[g].contains_key(id));
                assert(before.tools[last].gates[gates - 1].contains_key(id));
            }
        }
    }
}

/// A call is held nowhere once every gate refused a decision on it.
proof fn refused_decision_leaves_no_call(
    before: AgentView,
    after: AgentView,
    id: Seq<char>,
    allow: bool,
)
    ensures
        approved(before, after, id, allow, false) ==> forall|t: int, g: int|
            0 <= t < after.tools.len() && 0 <= g < after.tools[t].gates.len() ==> !(
            #[trigger] after.tools[t].gates[g]).contains_key(id),
{
    if approved(before, after, id, allow, false) {
        assert(tools_decided(
            before.tools,
            after.tools,
            id,
            allow,
            before.tools.len() as int,
            false,
        ));
        assert forall|t: int, g: int|
            0 <= t < after.tools.len() && 0 <= g < after.tools[t].gates.len() implies !(
        #[trigger] after.tools[t].gates[g]).contains_key(id) by {
            assert(call_decided(before.tools[t], after.tools[t], id, allow, false));
        }
    }
}

/// Answers reach a placeholder as soon as it is registered: a call of it that is started can
/// be answered.
pub proof fn new_placeholder_can_be_answered(
    agent: AgentView,
    tool: ToolView,
    id: Seq<char>,
    line: int,
)
    requires
        agent.wf(),
        tool.kind is Pump,
    ensures
        ({
            let index = agent.tools.len() as int;
            let started = with_tool_at(
                with_tool(agent, tool),
                index,
                with_call(tool, id, line),
            );
            exists|i: int|
                0 <= i < started.pumps.len() && #[trigger] waiting_at(started, i)
                    == waiting_calls(tool).insert(id, line)
        }),
{
    let index = agent.tools.len() as int;
    let started = with_tool_at(with_tool(agent, tool), index, with_call(tool, id, line));
    let name = tool.identity.name;
    let place = if exists|i: int|
        0 <= i < agent.pumps.len() && agent.tools[#[trigger] agent.pumps[i]].identity.name == name {
        choose|i: int|
            0 <= i < agent.pumps.len() && agent.tools[#[trigger] agent.pumps[i]].identity.name
                == name
    } else {
        agent.pumps.len() as int
    };
    assert(started.pumps[place] == index);
    assert(waiting_at(started, place) == waiting_calls(tool).insert(id, line));
}

/// A registration leaves the tools that are there, and the routes to placeholders of other
/// names, as they are.
pub proof fn registration_keeps_other_tools(agent: AgentView, tool: ToolView, pump: int)
    requires
        agent.wf(),
        0 <= pump < agent.pumps.len(),
        agent.tools[agent.pumps[pump]].identity.name != tool.identity.name,
    ensures
        with_tool(agent, tool).tools.take(agent.tools.len() as int) == agent.tools,
        with_tool(agent, tool).pumps[pump] == agent.pumps[pump],
        waiting_at(with_tool(agent, tool), pump) == waiting_at(agent, pump),
{
    assert(with_tool(agent, tool).tools.take(agent.tools.len() as int) =~= agent.tools);
}

} // verus!
