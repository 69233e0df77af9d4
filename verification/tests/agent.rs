use std::sync::Arc;

use futures::executor::block_on;
use futures::StreamExt;
use senza_wasm::agent::{read_approval, Approval, EmbeddedAgent, RunStart};
use senza_wasm::config::{
    default_final_answer_mode, default_max_tokens, default_max_turns, default_provider,
    default_stream_idle_timeout_ms, default_thinking_level, AgentOpts, ClientSpec,
    FinalAnswerMode, MockSpec, ResponseFormat, ThinkingLevel, ToolExecutionMode,
};
use senza_wasm::events::{AgentError, AgentErrorKind, AgentEvent};
use senza_wasm::messages::{
    AgentMessage, AssistantMessage, AssistantMessageKind, ContentBlock, Timestamp, TokenUsage,
    ToolResultMessage,
};
use senza_wasm::run::ActiveRun;
use senza_wasm::tools::{ApprovalGate, BeforeToolCallDecision, PendingTool};

fn parse(json: &str) -> serde_json::Value {
    serde_json::from_str(json).unwrap()
}

fn opts(provider: &str) -> AgentOpts {
    AgentOpts {
        provider: provider.to_string(),
        api_key: String::new(),
        base_url: None,
        model: "m".to_string(),
        system_prompt: None,
        max_tokens: default_max_tokens(),
        max_turns: default_max_turns(),
        temperature: None,
        mock_script: None,
        response_format: None,
        final_answer_mode: default_final_answer_mode(),
        thinking_level: default_thinking_level(),
        stream_idle_timeout_ms: default_stream_idle_timeout_ms(),
    }
}

fn agent_with(opts: AgentOpts) -> EmbeddedAgent {
    EmbeddedAgent::new(opts).ok().unwrap()
}

fn mock_agent() -> EmbeddedAgent {
    agent_with(opts("mock"))
}

fn assistant(text: &str) -> AssistantMessage {
    AssistantMessage {
        kind: AssistantMessageKind::FinalAnswer,
        message_id: "m".to_string(),
        turn_id: "t".to_string(),
        content: vec![ContentBlock::Text { text: text.to_string() }],
        text: text.to_string(),
        timestamp: Timestamp { secs: 0, nanos: 0 },
        usage: None,
        origin: None,
    }
}

fn said(text: &str) -> Arc<AgentMessage> {
    Arc::new(AgentMessage::Assistant(assistant(text)))
}

fn end(texts: &[&str]) -> AgentEvent {
    AgentEvent::AgentEnd { new_messages: texts.iter().map(|t| said(t)).collect() }
}

fn failed() -> AgentEvent {
    AgentEvent::Error(AgentError {
        kind: AgentErrorKind::ProviderTyped,
        message: "rate limited".to_string(),
    })
}

fn begin(agent: &mut EmbeddedAgent, text: &str) -> RunStart {
    agent.prompt(text.to_string()).expect("the run starts")
}

/// Hands in events of a run before its end.
fn go_on(agent: &mut EmbeddedAgent, run: ActiveRun, events: Vec<AgentEvent>) -> ActiveRun {
    let mut run = run;
    for event in events {
        run = agent.take_event(run, event).expect("the run goes on");
    }
    run
}

/// Hands in the last event of a run.
fn finish(agent: &mut EmbeddedAgent, run: ActiveRun, event: AgentEvent) {
    assert!(agent.take_event(run, event).is_none());
}

/// Starts a run and hands in its events.
fn converse(agent: &mut EmbeddedAgent, text: &str, events: Vec<AgentEvent>) {
    let mut run = Some(begin(agent, text).run);
    for event in events {
        run = agent.take_event(run.expect("the run goes on"), event);
    }
    if let Some(run) = run {
        agent.finish_run(run);
    }
}

fn types(lines: &[String]) -> Vec<String> {
    lines.iter().map(|l| parse(l)["type"].as_str().unwrap().to_string()).collect()
}

fn text_of(message: &AgentMessage) -> String {
    match message {
        AgentMessage::User(m) => match &m.content[0] {
            ContentBlock::Text { text } => text.clone(),
            ContentBlock::Other => panic!("expected a text"),
        },
        AgentMessage::Assistant(m) => m.text.clone(),
        _ => panic!("expected the user or the assistant"),
    }
}

fn texts(messages: &[Arc<AgentMessage>]) -> Vec<String> {
    messages.iter().map(|m| text_of(m)).collect()
}

#[test]
fn session_export_import_roundtrip() {
    let mut agent = mock_agent();
    converse(&mut agent, "hello", vec![end(&["hi there"])]);

    let exported = agent.export_session();
    let v = parse(&exported);
    assert_eq!(v["v"], 1);
    let h = v["history"].as_array().expect("history array");
    assert_eq!(h.len(), 2, "user + assistant after one turn: {exported}");
    assert_eq!(h[0]["role"], "user");
    assert_eq!(h[0]["text"], "hello");
    assert_eq!(h[1]["role"], "assistant");
    assert_eq!(h[1]["text"], "hi there");

    let mut agent2 = mock_agent();
    agent2.import_session(exported.clone()).unwrap();
    assert_eq!(agent2.export_session(), exported, "roundtrip");
}

#[test]
fn session_import_rejects_bad_version() {
    let mut agent = mock_agent();
    let err = agent.import_session("{\"v\":99,\"history\":[]}".into()).unwrap_err();
    assert!(err.contains("unsupported session version"), "got: {err:?}");
}

#[test]
fn second_request_carries_first_turn_history() {
    let mut agent = mock_agent();
    let first = begin(&mut agent, "one");
    finish(&mut agent, first.run, end(&["a"]));
    let second = begin(&mut agent, "two");
    assert!(second.context.messages.len() > first.context.messages.len());
    assert_eq!(texts(&first.context.messages), ["one"]);
    assert_eq!(texts(&second.context.messages), ["one", "a", "two"]);
}

#[test]
fn max_turns_guard_aborts_with_resource_limit() {
    let mut agent = agent_with(AgentOpts { max_turns: 1, ..opts("mock") });
    agent
        .register_tool("e".into(), "d".into(), "{\"type\":\"object\"}".into(), Some(1))
        .unwrap();
    let start = begin(&mut agent, "go");
    let abort = start.config.abort;
    let events = vec![AgentEvent::AgentStart, AgentEvent::TurnStart { index: 0 }];
    let run = go_on(&mut agent, start.run, events);
    assert!(!abort.is_cancelled());
    let run = go_on(&mut agent, run, vec![AgentEvent::TurnStart { index: 1 }]);
    assert!(abort.is_cancelled());
    finish(&mut agent, run, end(&[]));

    let lines = agent.poll();
    assert_eq!(types(&lines), ["agent_start", "turn_start", "error", "turn_start", "agent_end"]);
    assert_eq!(
        parse(&lines[2]),
        parse(
            "{\"type\":\"error\",\"message\":\"max_turns (1) exceeded; aborting\",\
             \"error_type\":\"resource_limit\"}"
        )
    );
    assert!(!agent.is_running());
}

#[test]
fn turn_limit_is_written_in_full() {
    let mut agent = agent_with(AgentOpts { max_turns: 10, ..opts("mock") });
    let start = begin(&mut agent, "go");
    assert_eq!(start.run.turns_left(), 10);
    let turns = (0..11).map(|index| AgentEvent::TurnStart { index }).collect();
    let run = go_on(&mut agent, start.run, turns);
    assert_eq!(run.turns_left(), 0);
    let lines = agent.poll();
    assert_eq!(lines.len(), 12);
    assert_eq!(parse(&lines[10])["message"], "max_turns (10) exceeded; aborting");
    assert_eq!(parse(&lines[11])["index"], 10);
}

#[test]
fn unknown_provider_is_refused() {
    assert_eq!(
        EmbeddedAgent::new(opts("acme")).err().unwrap(),
        "unknown provider 'acme' (expected 'openai' or 'mock')"
    );
    assert_eq!(default_provider(), "openai");
    assert_eq!(default_max_tokens(), 4096);
    assert_eq!(default_max_turns(), 16);
    assert_eq!(default_stream_idle_timeout_ms(), 5000);
    assert!(default_final_answer_mode() == FinalAnswerMode::Heuristic);
    assert!(default_thinking_level() == ThinkingLevel::Off);
}

#[test]
fn options_become_the_settings_of_a_run() {
    let mut agent = agent_with(AgentOpts {
        api_key: "key".to_string(),
        base_url: Some("http://localhost".to_string()),
        model: "gpt".to_string(),
        system_prompt: Some("be kind".to_string()),
        max_tokens: 7,
        max_turns: 3,
        temperature: Some(0.5f32.to_bits()),
        response_format: Some(ResponseFormat::JsonSchema {
            name: "out".to_string(),
            schema: parse("{}"),
            strict: Some(true),
        }),
        final_answer_mode: FinalAnswerMode::RequiredTool,
        thinking_level: ThinkingLevel::Budget(1024),
        stream_idle_timeout_ms: 9,
        ..opts("openai")
    });
    match &agent.deps().client {
        ClientSpec::OpenAi { api_key, base_url } => {
            assert_eq!(api_key, "key");
            assert_eq!(base_url.as_deref(), Some("http://localhost"));
        }
        ClientSpec::Mock { .. } => panic!("expected the other provider"),
    }
    agent.register_tool("a".into(), "b".into(), "{\"x\":1}".into(), Some(5)).unwrap();
    agent
        .register_tool_with_options(
            "p".into(),
            "q".into(),
            "true".into(),
            None,
            "{\"approval\":\"manual\"}".into(),
        )
        .unwrap();
    let start = begin(&mut agent, "hi");
    assert_eq!(start.context.system_prompt.as_deref(), Some("be kind"));
    let config = start.config;
    assert_eq!(config.model, "gpt");
    assert_eq!(config.max_tokens, 7);
    assert_eq!(config.temperature.map(f32::from_bits), Some(0.5));
    assert!(config.thinking_level == ThinkingLevel::Budget(1024));
    assert!(config.default_execution_mode == ToolExecutionMode::Parallel);
    assert!(config.final_answer_mode == FinalAnswerMode::RequiredTool);
    assert_eq!(config.stream_idle_timeout_ms, Some(9));
    match config.response_format.as_deref() {
        Some(ResponseFormat::JsonSchema { name, schema, strict }) => {
            assert_eq!(name, "out");
            assert_eq!(schema, &parse("{}"));
            assert_eq!(*strict, Some(true));
        }
        _ => panic!("expected a schema"),
    }
    assert_eq!(config.tools.len(), 2);
    assert_eq!(config.tools[0].index, 0);
    assert_eq!(config.tools[0].info.name, "a");
    assert_eq!(config.tools[0].info.description, "b");
    assert_eq!(config.tools[0].info.schema, parse("{\"x\":1}"));
    assert_eq!(config.tools[0].callback, Some(5));
    assert_eq!(config.tools[0].gates, 0);
    assert_eq!(config.tools[1].index, 1);
    assert_eq!(config.tools[1].info.name, "p");
    assert_eq!(config.tools[1].callback, None);
    assert_eq!(config.tools[1].gates, 1);
}

#[test]
fn mock_script_is_kept_in_order() {
    let agent = agent_with(AgentOpts {
        mock_script: Some(vec![
            MockSpec::Text { text: "first".into(), usage: None },
            MockSpec::RateLimitError,
        ]),
        ..opts("mock")
    });
    match &agent.deps().client {
        ClientSpec::Mock { script } => {
            assert_eq!(script.len(), 2);
            assert!(matches!(&script[0], MockSpec::Text { text, .. } if text == "first"));
            assert!(matches!(&script[1], MockSpec::RateLimitError));
        }
        ClientSpec::OpenAi { .. } => panic!("expected the scripted provider"),
    }
}

#[test]
fn prompt_while_running_queues_a_busy_error() {
    let mut agent = mock_agent();
    let start = begin(&mut agent, "one");
    assert!(agent.is_running());
    assert!(agent.prompt("two".to_string()).is_none());
    let lines = agent.poll();
    assert_eq!(lines.len(), 1);
    assert_eq!(
        parse(&lines[0]),
        parse(
            "{\"type\":\"error\",\"message\":\"prompt() called while a run is in flight\",\
             \"error_type\":\"busy\"}"
        )
    );
    agent.finish_run(start.run);
    assert!(!agent.is_running());
}

#[test]
fn failed_run_leaves_no_trace() {
    let mut agent = mock_agent();
    converse(&mut agent, "one", vec![end(&["a"])]);
    converse(&mut agent, "two", vec![failed(), end(&["half"])]);
    assert_eq!(texts(agent.history()), ["one", "a"]);
    assert_eq!(types(&agent.poll()), ["agent_end", "error", "agent_end"]);
    converse(&mut agent, "three", vec![end(&["c"])]);
    assert_eq!(texts(agent.history()), ["one", "a", "three", "c"]);
}

#[test]
fn run_that_never_ended_leaves_no_trace() {
    let mut agent = mock_agent();
    converse(&mut agent, "one", vec![AgentEvent::AgentStart]);
    assert!(!agent.is_running());
    assert_eq!(agent.history().len(), 0);
}

#[test]
fn other_calls_do_not_disturb_the_run() {
    let mut agent = mock_agent();
    agent.register_tool("ask".into(), "d".into(), "{}".into(), None).unwrap();
    let start = begin(&mut agent, "one");
    let run = go_on(&mut agent, start.run, vec![AgentEvent::AgentStart]);
    assert_eq!(agent.poll().len(), 1);
    assert!(agent.prompt("busy".to_string()).is_none());
    let mut answer = agent.execute_tool(0, "t").expect("a placeholder");
    agent.register_tool("late".into(), "d".into(), "{}".into(), Some(1)).unwrap();
    assert!(agent.resolve_tool("other".into(), "{}".into()).is_err());
    assert!(agent.approve_tool_call("t".into(), true).is_err());
    agent.resolve_tool("t".into(), "x".into()).unwrap();
    assert_eq!(block_on(answer.next()).as_deref(), Some("x"));
    agent.cancel();
    finish(&mut agent, run, end(&["a"]));
    assert_eq!(texts(agent.history()), ["one", "a"]);
}

#[test]
fn registration_keeps_other_routes() {
    let mut agent = mock_agent();
    agent.register_tool("a".into(), "d".into(), "{}".into(), None).unwrap();
    let mut answer = agent.execute_tool(0, "t").expect("a placeholder");
    agent.register_tool("b".into(), "d".into(), "{}".into(), None).unwrap();
    agent.register_tool("b".into(), "d".into(), "{}".into(), None).unwrap();
    agent.register_tool("a".into(), "d".into(), "{}".into(), Some(2)).unwrap();
    agent.resolve_tool("t".into(), "x".into()).unwrap();
    assert_eq!(block_on(answer.next()).as_deref(), Some("x"));
}

#[test]
fn clearing_discards_the_run_under_way() {
    let mut agent = mock_agent();
    converse(&mut agent, "one", vec![end(&["a"])]);
    let start = begin(&mut agent, "two");
    agent.clear_session();
    assert!(agent.is_running());
    finish(&mut agent, start.run, end(&["b"]));
    assert!(!agent.is_running());
    assert_eq!(agent.history().len(), 0);
    assert_eq!(agent.export_session(), mock_agent().export_session());
}

#[test]
fn importing_discards_the_run_under_way() {
    let mut agent = mock_agent();
    let start = begin(&mut agent, "two");
    agent
        .import_session("{\"v\":1,\"history\":[{\"role\":\"user\",\"text\":\"old\"}]}".into())
        .unwrap();
    finish(&mut agent, start.run, end(&["b"]));
    assert_eq!(texts(agent.history()), ["old"]);
}

#[test]
fn import_restores_roles_and_texts() {
    let mut agent = mock_agent();
    let session = "{\"v\":1,\"history\":[{\"role\":\"user\",\"text\":\"q\"},\
                   {\"role\":\"assistant\"},{\"role\":\"assistant\",\"text\":\"r\"}]}";
    agent.import_value(&parse(session)).unwrap();
    assert_eq!(texts(agent.history()), ["q", "", "r"]);
    match &*agent.history()[2] {
        AgentMessage::Assistant(m) => {
            assert!(m.kind == AssistantMessageKind::FinalAnswer);
            assert_eq!(m.message_id, "");
            assert_eq!(m.turn_id, "");
            assert!(m.usage.is_none());
            assert!(m.origin.is_none());
            assert!(m.timestamp.secs > 1_600_000_000);
        }
        _ => panic!("expected the assistant"),
    }
    let next = begin(&mut agent, "s");
    assert_eq!(texts(&next.context.messages), ["q", "", "r", "s"]);
}

#[test]
fn refused_import_changes_nothing() {
    let cases = vec![
        ("{", "invalid session json: EOF while parsing an object at line 1 column 1"),
        ("{\"history\":[]}", "unsupported session version (expected 1)"),
        ("{\"v\":1.0,\"history\":[]}", "unsupported session version (expected 1)"),
        ("{\"v\":\"1\",\"history\":[]}", "unsupported session version (expected 1)"),
        ("[]", "unsupported session version (expected 1)"),
        ("{\"v\":1}", "session json missing history array"),
        ("{\"v\":1,\"history\":{}}", "session json missing history array"),
        (
            "{\"v\":1,\"history\":[{\"role\":\"user\"},{\"role\":\"tool_result\"},{}]}",
            "session entry role 'tool_result' is not importable (run-internal)",
        ),
        (
            "{\"v\":1,\"history\":[{\"role\":7}]}",
            "session entry role 'unknown' is not importable (run-internal)",
        ),
    ];
    let mut agent = mock_agent();
    let start = begin(&mut agent, "one");
    for (session, message) in cases {
        assert_eq!(agent.import_session(session.to_string()).unwrap_err(), message);
    }
    finish(&mut agent, start.run, end(&["a"]));
    assert_eq!(texts(agent.history()), ["one", "a"]);
}

#[test]
fn session_with_tool_results_is_exported_but_not_imported() {
    let mut agent = mock_agent();
    let result = Arc::new(AgentMessage::ToolResult(ToolResultMessage {
        content: Vec::new(),
        origin: Some(4),
    }));
    converse(
        &mut agent,
        "use it",
        vec![AgentEvent::AgentEnd { new_messages: vec![result, said("done")] }],
    );
    let exported = agent.export_session();
    assert_eq!(
        parse(&exported),
        parse(
            "{\"v\":1,\"history\":[{\"role\":\"user\",\"text\":\"use it\"},\
             {\"role\":\"tool_result\",\"text\":\"\"},{\"role\":\"assistant\",\"text\":\"done\"}]}"
        )
    );
    assert_eq!(
        mock_agent().import_session(exported).unwrap_err(),
        "session entry role 'tool_result' is not importable (run-internal)"
    );
}

#[test]
fn poll_takes_the_lines_once() {
    let mut agent = mock_agent();
    converse(
        &mut agent,
        "hi",
        vec![
            AgentEvent::AgentStart,
            AgentEvent::TurnStart { index: 0 },
            AgentEvent::TextDelta { message_id: "m".into(), text: "a\nb".into() },
            end(&["a\nb"]),
        ],
    );
    let lines = agent.poll();
    assert_eq!(types(&lines), ["agent_start", "turn_start", "text_delta", "agent_end"]);
    assert!(lines.iter().all(|l| l.lines().count() == 1));
    assert!(agent.poll().is_empty());
}

#[test]
fn cancel_reaches_the_run() {
    let mut agent = mock_agent();
    let start = begin(&mut agent, "hi");
    assert!(!start.config.abort.is_cancelled());
    agent.cancel();
    assert!(start.config.abort.is_cancelled());
    assert!(agent.is_running());
}

#[test]
fn cancel_leaves_the_next_run_alone() {
    let mut agent = mock_agent();
    let first = begin(&mut agent, "one");
    agent.cancel();
    assert!(first.config.abort.is_cancelled());
    let run = go_on(&mut agent, first.run, vec![failed()]);
    finish(&mut agent, run, end(&[]));
    let second = begin(&mut agent, "two");
    assert!(!second.config.abort.is_cancelled());
    assert!(first.config.abort.is_cancelled());
    finish(&mut agent, second.run, end(&["b"]));
    assert_eq!(texts(agent.history()), ["two", "b"]);
    agent.cancel();
    assert!(!begin(&mut agent, "three").config.abort.is_cancelled());
}

#[test]
fn turn_guard_leaves_the_next_run_alone() {
    let mut agent = agent_with(AgentOpts { max_turns: 0, ..opts("mock") });
    let first = begin(&mut agent, "one");
    let run = go_on(&mut agent, first.run, vec![AgentEvent::TurnStart { index: 0 }, failed()]);
    assert!(first.config.abort.is_cancelled());
    finish(&mut agent, run, end(&[]));
    let second = begin(&mut agent, "two");
    assert!(!second.config.abort.is_cancelled());
    assert_eq!(second.run.turns_left(), 0);
    agent.cancel();
    assert!(second.config.abort.is_cancelled());
}

#[test]
fn run_is_over_when_its_end_is_polled() {
    let mut agent = mock_agent();
    let start = begin(&mut agent, "one");
    let run = go_on(&mut agent, start.run, vec![AgentEvent::AgentStart]);
    assert_eq!(types(&agent.poll()), ["agent_start"]);
    assert!(agent.is_running());
    finish(&mut agent, run, end(&["a"]));
    assert_eq!(types(&agent.poll()), ["agent_end"]);
    assert!(!agent.is_running());
    assert_eq!(texts(agent.history()), ["one", "a"]);
    assert!(agent.prompt("two".to_string()).is_some());
}

#[test]
fn many_runs_add_up() {
    let mut agent = mock_agent();
    for n in 0..4 {
        converse(&mut agent, &format!("q{n}"), vec![end(&[&format!("a{n}")])]);
    }
    assert_eq!(texts(agent.history()), ["q0", "a0", "q1", "a1", "q2", "a2", "q3", "a3"]);
}

#[test]
fn import_then_export_gives_the_entries() {
    let mut agent = mock_agent();
    converse(&mut agent, "old", vec![end(&["older"])]);
    let session = "{\"v\":1,\"history\":[{\"role\":\"assistant\",\"text\":\"\\u0001\\n\"},\
                   {\"role\":\"user\",\"text\":\"q\"}]}";
    agent.import_session(session.to_string()).unwrap();
    assert_eq!(parse(&agent.export_session()), parse(session));
    agent.clear_session();
    assert_eq!(parse(&agent.export_session()), parse("{\"v\":1,\"history\":[]}"));
}

#[test]
fn tool_schema_and_options_are_checked() {
    let mut agent = mock_agent();
    assert_eq!(
        agent.register_tool("t".into(), "d".into(), "{".into(), None).unwrap_err(),
        "invalid tool schema: EOF while parsing an object at line 1 column 1"
    );
    let cases = vec![
        ("{", "{", "invalid tool schema: EOF while parsing an object at line 1 column 1"),
        ("{}", "{", "invalid tool options: EOF while parsing an object at line 1 column 1"),
        (
            "{}",
            "{\"approval\":\"maybe\"}",
            "invalid tool options: approval must be 'auto' or 'manual'",
        ),
        (
            "{}",
            "{\"approval\":true}",
            "invalid tool options: approval must be 'auto' or 'manual'",
        ),
    ];
    for (schema, options, message) in cases {
        let refused = agent.register_tool_with_options(
            "t".into(),
            "d".into(),
            schema.into(),
            None,
            options.into(),
        );
        assert_eq!(refused.unwrap_err(), message);
    }
    assert!(begin(&mut agent, "hi").config.tools.is_empty());
    assert!(read_approval(&parse("{}")) == Ok(Approval::Auto));
    assert!(read_approval(&parse("{\"approval\":\"auto\"}")) == Ok(Approval::Auto));
    assert!(read_approval(&parse("{\"approval\":\"manual\"}")) == Ok(Approval::Manual));
}

#[test]
fn placeholder_call_is_answered_by_its_id() {
    let mut agent = mock_agent();
    agent.register_tool("echo".into(), "d".into(), "{}".into(), None).unwrap();
    agent.register_tool("ask".into(), "d".into(), "{}".into(), None).unwrap();
    let mut echo = agent.execute_tool(0, "t1").expect("a placeholder");
    let mut ask = agent.execute_tool(1, "t2").expect("a placeholder");
    agent.resolve_tool("t2".into(), "{\"text\":\"two\"}".into()).unwrap();
    agent.resolve_tool("t1".into(), "{\"text\":\"one\"}".into()).unwrap();
    assert_eq!(block_on(echo.next()).as_deref(), Some("{\"text\":\"one\"}"));
    assert_eq!(block_on(ask.next()).as_deref(), Some("{\"text\":\"two\"}"));
    assert_eq!(
        agent.resolve_tool("t1".into(), "{}".into()).unwrap_err(),
        "resolve_tool: unknown or already-resolved tool_use_id 't1'"
    );
}

#[test]
fn answer_goes_on_to_the_next_placeholder_where_a_task_is_gone() {
    let mut agent = mock_agent();
    agent.register_tool("a".into(), "d".into(), "{}".into(), None).unwrap();
    agent.register_tool("b".into(), "d".into(), "{}".into(), None).unwrap();
    drop(agent.execute_tool(0, "t"));
    let mut answer = agent.execute_tool(1, "t").expect("a placeholder");
    agent.resolve_tool("t".into(), "x".into()).unwrap();
    assert_eq!(block_on(answer.next()).as_deref(), Some("x"));
}

#[test]
fn refused_answer_takes_the_call_away() {
    let mut agent = mock_agent();
    agent.add_tool("a".into(), "d".into(), parse("{}"), None, Approval::Manual);
    drop(agent.execute_tool(0, "t"));
    drop(agent.hold_call(0, 0, "t"));
    for _ in 0..2 {
        assert_eq!(
            agent.resolve_tool("t".into(), "x".into()).unwrap_err(),
            "resolve_tool: unknown or already-resolved tool_use_id 't'"
        );
        assert_eq!(
            agent.approve_tool_call("t".into(), true).unwrap_err(),
            "approve_tool_call: unknown or already-approved tool_use_id 't'"
        );
    }
}

#[test]
fn resolving_an_unknown_id_is_refused() {
    let mut agent = mock_agent();
    assert_eq!(
        agent.resolve_tool("nonexistent-id".into(), "{}".into()).unwrap_err(),
        "resolve_tool: unknown or already-resolved tool_use_id 'nonexistent-id'"
    );
}

#[test]
fn placeholder_of_the_same_name_takes_over_the_route() {
    let mut agent = mock_agent();
    agent.register_tool("ask".into(), "old".into(), "{}".into(), None).unwrap();
    let mut old = agent.execute_tool(0, "t1").expect("a placeholder");
    agent.register_tool("ask".into(), "new".into(), "{}".into(), None).unwrap();
    assert!(agent.resolve_tool("t1".into(), "{}".into()).is_err());
    let mut new = agent.execute_tool(1, "t1").expect("a placeholder");
    agent.resolve_tool("t1".into(), "late".into()).unwrap();
    assert_eq!(block_on(new.next()).as_deref(), Some("late"));
    assert!(old.try_next().is_err());
}

#[test]
fn callback_is_no_placeholder() {
    let mut agent = mock_agent();
    agent.register_tool("cb".into(), "d".into(), "{}".into(), Some(3)).unwrap();
    assert!(agent.execute_tool(0, "t").is_none());
    assert!(agent.execute_tool(1, "t").is_none());
    assert!(agent.hold_call(0, 0, "t").is_none());
    assert!(agent.hold_call(1, 0, "t").is_none());
}

#[test]
fn approval_goes_before_the_answer() {
    let mut agent = mock_agent();
    agent
        .register_tool_with_options(
            "rm".into(),
            "d".into(),
            "{}".into(),
            None,
            "{\"approval\":\"manual\"}".into(),
        )
        .unwrap();
    let held = agent.hold_call(0, 0, "t1").expect("a gate");
    let denied = agent.hold_call(0, 0, "t2").expect("a gate");
    assert!(agent.resolve_tool("t1".into(), "{}".into()).is_err());
    agent.approve_tool_call("t1".into(), true).unwrap();
    agent.approve_tool_call("t2".into(), false).unwrap();
    assert!(matches!(
        ApprovalGate::decide(block_on(held).ok()),
        BeforeToolCallDecision::Allow
    ));
    assert!(matches!(
        ApprovalGate::decide(block_on(denied).ok()),
        BeforeToolCallDecision::Deny(_)
    ));
    let mut answer = agent.execute_tool(0, "t1").expect("a placeholder");
    agent.resolve_tool("t1".into(), "{\"text\":\"gone\"}".into()).unwrap();
    let result = PendingTool::finish("t1", block_on(answer.next()));
    assert!(result.is_ok());
    assert_eq!(
        agent.approve_tool_call("t1".into(), true).unwrap_err(),
        "approve_tool_call: unknown or already-approved tool_use_id 't1'"
    );
}

#[test]
fn decision_reaches_the_tool_that_holds_the_call() {
    let mut agent = mock_agent();
    for name in ["a", "b", "c"] {
        agent.add_tool(name.into(), "d".into(), parse("{}"), Some(1), Approval::Manual);
    }
    drop(agent.hold_call(0, 0, "t"));
    let held = agent.hold_call(2, 0, "t").expect("a gate");
    agent.approve_tool_call("t".into(), true).unwrap();
    assert_eq!(block_on(held).ok(), Some(true));
    assert!(agent.approve_tool_call("t".into(), true).is_err());
}

fn counted(id: &str, usage: Option<TokenUsage>) -> AgentEvent {
    AgentEvent::MessageEnd {
        message_id: id.to_string(),
        message: AssistantMessage { usage, ..assistant("x") },
    }
}

fn usage(n: u64) -> TokenUsage {
    TokenUsage {
        input_tokens: 10 * n,
        output_tokens: 5 * n,
        cache_read_tokens: 4 * n,
        cache_write_tokens: 3 * n,
        reasoning_tokens: 2 * n,
    }
}

#[test]
fn cost_adds_up_over_runs_and_sessions() {
    let mut agent = mock_agent();
    assert_eq!(
        parse(&agent.cost_snapshot()),
        parse(
            "{\"totalInputTokens\":0,\"totalOutputTokens\":0,\"totalCacheReadTokens\":0,\
             \"totalCacheWriteTokens\":0,\"totalReasoningTokens\":0,\"providerCalls\":0}"
        )
    );
    converse(
        &mut agent,
        "one",
        vec![counted("m1", Some(usage(1))), counted("m1", Some(usage(7))), end(&["x"])],
    );
    converse(
        &mut agent,
        "two",
        vec![counted("m2", Some(usage(2))), counted("m3", None), end(&["x"])],
    );
    let expected = "{\"totalInputTokens\":30,\"totalOutputTokens\":15,\"totalCacheReadTokens\":12,\
                    \"totalCacheWriteTokens\":9,\"totalReasoningTokens\":6,\"providerCalls\":2}";
    assert_eq!(parse(&agent.cost_snapshot()), parse(expected));
    agent.clear_session();
    assert_eq!(parse(&agent.cost_snapshot()), parse(expected));
}

#[test]
fn cost_stays_at_the_largest_number() {
    let mut agent = mock_agent();
    let most = TokenUsage { input_tokens: u64::MAX, ..usage(0) };
    converse(
        &mut agent,
        "one",
        vec![counted("m1", Some(most)), counted("m2", Some(usage(1))), end(&["x"])],
    );
    let snapshot = parse(&agent.cost_snapshot());
    assert_eq!(snapshot["totalInputTokens"], u64::MAX);
    assert_eq!(snapshot["totalOutputTokens"], 5);
    assert_eq!(snapshot["providerCalls"], 2);
}

#[test]
fn prompt_at_keeps_its_moment() {
    let mut agent = mock_agent();
    let moment = Timestamp { secs: 12, nanos: 34 };
    let start = agent.prompt_at("hi".to_string(), moment).expect("the run starts");
    match &**start.run.user() {
        AgentMessage::User(m) => {
            assert_eq!(m.timestamp.secs, 12);
            assert_eq!(m.timestamp.nanos, 34);
            assert!(m.origin.is_none());
        }
        _ => panic!("expected the user"),
    }
}

#[test]
fn prompt_is_made_now() {
    let mut agent = mock_agent();
    let start = begin(&mut agent, "hi");
    match &**start.run.user() {
        AgentMessage::User(m) => assert!(m.timestamp.secs > 1_600_000_000),
        _ => panic!("expected the user"),
    }
}

#[test]
fn version_is_told() {
    assert_eq!(senza_wasm::version(), "0.1.0");
}
