use std::sync::Arc;

use senza_wasm::events::{
    error_type, event_to_json, event_to_value, AgentError, AgentErrorKind, AgentEvent, ToolFailure,
    ToolProgress, ToolResult,
};
use senza_wasm::messages::{
    message_to_value, AgentMessage, AssistantMessage, AssistantMessageKind, ContentBlock,
    CustomMessage, DataBlock, SummaryMessage, Timestamp, ToolResultMessage, UserMessage,
};

fn parse(json: &str) -> serde_json::Value {
    serde_json::from_str(json).unwrap()
}

fn data(text: &str) -> DataBlock {
    DataBlock::Text { text: text.to_string() }
}

fn user(text: &str) -> AgentMessage {
    AgentMessage::User(UserMessage {
        content: vec![ContentBlock::Text { text: text.to_string() }],
        timestamp: Timestamp { secs: 0, nanos: 0 },
        origin: None,
    })
}

fn assistant(text: &str) -> AssistantMessage {
    AssistantMessage {
        kind: AssistantMessageKind::FinalAnswer,
        message_id: "m".to_string(),
        turn_id: "t".to_string(),
        content: vec![ContentBlock::Text { text: text.to_string() }],
        text: text.to_string(),
        timestamp: Timestamp { secs: 0, nanos: 0 },
        usage: None,
        origin: None,
    }
}

fn error(kind: AgentErrorKind, message: &str) -> AgentError {
    AgentError { kind, message: message.to_string() }
}

#[test]
fn text_delta_serializes_with_type_tag() {
    let ev = AgentEvent::TextDelta { message_id: "m1".into(), text: "hi".into() };
    let v = parse(&event_to_json(&ev));
    assert_eq!(v["type"], "text_delta");
    assert_eq!(v["message_id"], "m1");
    assert_eq!(v["text"], "hi");
}

#[test]
fn error_serializes_message_and_type() {
    let ev = AgentEvent::Error(error(AgentErrorKind::Aborted, "aborted"));
    let v = parse(&event_to_json(&ev));
    assert_eq!(v["type"], "error");
    assert_eq!(v["error_type"], "aborted");
    assert!(v["message"].is_string());
}

#[test]
fn tool_execution_end_ok_and_err_arms() {
    let ok = AgentEvent::ToolExecutionEnd {
        tool_use_id: "t1".into(),
        result: Ok(ToolResult {
            model_content: vec![data("done")],
            details: parse("{\"k\": 1}"),
            terminate: false,
        }),
    };
    let v = parse(&event_to_json(&ok));
    assert_eq!(v["type"], "tool_execution_end");
    assert_eq!(v["ok"], true);
    assert_eq!(v["result"]["text"], "done");
    assert_eq!(v["result"]["details"]["k"], 1);

    let err = AgentEvent::ToolExecutionEnd {
        tool_use_id: "t2".into(),
        result: Err(ToolFailure::new("boom", "bad".to_string())),
    };
    let v = parse(&event_to_json(&err));
    assert_eq!(v["ok"], false);
    assert_eq!(v["error"], "boom: bad");
}

#[test]
fn agent_end_carries_message_list() {
    let ev = AgentEvent::AgentEnd { new_messages: vec![Arc::new(user("q"))] };
    let v = parse(&event_to_json(&ev));
    assert_eq!(v["type"], "agent_end");
    assert_eq!(v["new_messages_count"], 1);
    assert_eq!(v["new_messages"][0]["role"], "user");
    assert_eq!(v["new_messages"][0]["text"], "q");
}

#[test]
fn json_output_is_single_line() {
    let ev = AgentEvent::TextDelta { message_id: "m".into(), text: "line1\nline2".into() };
    let json = event_to_json(&ev);
    assert_eq!(json.lines().count(), 1);
    assert!(json.contains("\\n"));
}

#[test]
fn every_event_has_its_fields() {
    let cases = vec![
        (AgentEvent::AgentStart, "{\"type\":\"agent_start\"}"),
        (
            AgentEvent::AgentEnd { new_messages: Vec::new() },
            "{\"type\":\"agent_end\",\"new_messages_count\":0,\"new_messages\":[]}",
        ),
        (AgentEvent::TurnStart { index: 3 }, "{\"type\":\"turn_start\",\"index\":3}"),
        (
            AgentEvent::TurnEnd {
                index: 2,
                message: assistant("said"),
                tool_results: vec![
                    (
                        "a".to_string(),
                        Ok(ToolResult {
                            model_content: vec![data("x"), DataBlock::Other, data("y")],
                            details: serde_json::Value::Null,
                            terminate: true,
                        }),
                    ),
                    ("b".to_string(), Err(ToolFailure::new("c", "m".to_string()))),
                ],
            },
            "{\"type\":\"turn_end\",\"index\":2,\"message_text\":\"said\",\"tool_results\":{\
             \"a\":{\"ok\":true,\"terminate\":true,\"text\":\"x\\ny\",\"details\":null},\
             \"b\":{\"ok\":false,\"error\":\"c: m\"}}}",
        ),
        (
            AgentEvent::MessageStart { message_id: "m".into() },
            "{\"type\":\"message_start\",\"message_id\":\"m\"}",
        ),
        (
            AgentEvent::MessageUpdate { message_id: "m".into(), partial: assistant("pa") },
            "{\"type\":\"message_update\",\"message_id\":\"m\",\"text\":\"pa\"}",
        ),
        (
            AgentEvent::MessageEnd { message_id: "m".into(), message: assistant("all") },
            "{\"type\":\"message_end\",\"message_id\":\"m\",\"text\":\"all\"}",
        ),
        (
            AgentEvent::ThinkingDelta {
                message_id: "m".into(),
                thinking: "hm".into(),
                signature: None,
            },
            "{\"type\":\"thinking_delta\",\"message_id\":\"m\",\"thinking\":\"hm\"}",
        ),
        (
            AgentEvent::ThinkingDelta {
                message_id: "m".into(),
                thinking: "hm".into(),
                signature: Some("s".into()),
            },
            "{\"type\":\"thinking_delta\",\"message_id\":\"m\",\"thinking\":\"hm\",\
             \"signature\":\"s\"}",
        ),
        (
            AgentEvent::ToolCallStart {
                message_id: "m".into(),
                tool_use_id: "t".into(),
                name: "echo".into(),
            },
            "{\"type\":\"tool_call_start\",\"message_id\":\"m\",\"tool_use_id\":\"t\",\
             \"tool_name\":\"echo\"}",
        ),
        (
            AgentEvent::ToolCallArgsDelta {
                tool_use_id: "t".into(),
                partial_input: parse("\"{\""),
            },
            "{\"type\":\"tool_call_args_delta\",\"tool_use_id\":\"t\",\"partial_input\":\"{\"}",
        ),
        (
            AgentEvent::ToolCallEnd { tool_use_id: "t".into(), args: parse("{\"x\":1}") },
            "{\"type\":\"tool_call_end\",\"tool_use_id\":\"t\",\"args\":{\"x\":1}}",
        ),
        (
            AgentEvent::ToolExecutionStart {
                tool_use_id: "t".into(),
                tool_name: "echo".into(),
                args: parse("[]"),
            },
            "{\"type\":\"tool_execution_start\",\"tool_use_id\":\"t\",\"tool_name\":\"echo\",\
             \"args\":[]}",
        ),
        (
            AgentEvent::ToolExecutionUpdate {
                tool_use_id: "t".into(),
                partial: ToolProgress { content: vec![data("half")], details: parse("2") },
            },
            "{\"type\":\"tool_execution_update\",\"tool_use_id\":\"t\",\
             \"result\":{\"terminate\":false,\"text\":\"half\",\"details\":2}}",
        ),
        (
            AgentEvent::RetryAttempt {
                attempt: 1,
                max_retries: 3,
                delay_ms: 250,
                error: parse("\"slow down\""),
            },
            "{\"type\":\"retry_attempt\",\"attempt\":1,\"max_retries\":3,\"delay_ms\":250,\
             \"error\":\"slow down\"}",
        ),
        (
            AgentEvent::Unknown { debug: "New { .. }".into() },
            "{\"type\":\"unknown\",\"debug\":\"New { .. }\"}",
        ),
        (
            AgentEvent::Error(error(AgentErrorKind::Other, "odd")),
            "{\"type\":\"error\",\"message\":\"odd\"}",
        ),
    ];
    for (event, expected) in cases {
        assert_eq!(event_to_value(&event), parse(expected));
        assert_eq!(parse(&event_to_json(&event)), parse(expected));
    }
}

#[test]
fn two_outcomes_under_one_id_leave_the_later() {
    let event = AgentEvent::TurnEnd {
        index: 0,
        message: assistant(""),
        tool_results: vec![
            ("a".to_string(), Err(ToolFailure::new("first", "x".to_string()))),
            ("a".to_string(), Err(ToolFailure::new("second", "y".to_string()))),
        ],
    };
    let v = event_to_value(&event);
    assert_eq!(v["tool_results"].as_object().unwrap().len(), 1);
    assert_eq!(v["tool_results"]["a"]["error"], "second: y");
}

#[test]
fn error_kinds_have_their_names() {
    let names = vec![
        (AgentErrorKind::ProviderTyped, Some("provider")),
        (AgentErrorKind::Tool, Some("tool")),
        (AgentErrorKind::Aborted, Some("aborted")),
        (AgentErrorKind::NotIdle, Some("not_idle")),
        (AgentErrorKind::InvalidInput, Some("invalid_input")),
        (AgentErrorKind::Internal, Some("internal")),
        (AgentErrorKind::ResourceLimitExceeded, Some("resource_limit")),
        (AgentErrorKind::StreamIdle, Some("stream_idle")),
        (AgentErrorKind::FinalAnswerRejected, Some("final_answer_rejected")),
        (AgentErrorKind::Other, None),
    ];
    for (kind, name) in names {
        assert_eq!(error_type(&error(kind, "")), name);
    }
}

#[test]
fn messages_show_their_role_and_text() {
    let cases = vec![
        (
            AgentMessage::User(UserMessage {
                content: vec![
                    ContentBlock::Text { text: "a".into() },
                    ContentBlock::Other,
                    ContentBlock::Text { text: "b".into() },
                ],
                timestamp: Timestamp { secs: 1, nanos: 2 },
                origin: None,
            }),
            "{\"role\":\"user\",\"text\":\"a\\nb\"}",
        ),
        (
            AgentMessage::Assistant(assistant("hello")),
            "{\"role\":\"assistant\",\"text\":\"hello\"}",
        ),
        (
            AgentMessage::ToolResult(ToolResultMessage {
                content: vec![data("r"), DataBlock::Other],
                origin: None,
            }),
            "{\"role\":\"tool_result\",\"text\":\"r\"}",
        ),
        (
            AgentMessage::BranchSummary(SummaryMessage { summary: "s".into(), origin: None }),
            "{\"role\":\"branch_summary\",\"text\":\"s\"}",
        ),
        (
            AgentMessage::CompactionSummary(SummaryMessage { summary: "c".into(), origin: None }),
            "{\"role\":\"compaction_summary\",\"text\":\"c\"}",
        ),
        (
            AgentMessage::Custom(CustomMessage {
                data: Some(parse("{\"k\":[true]}")),
                origin: None,
            }),
            "{\"role\":\"custom\",\"text\":\"{\\\"k\\\":[true]}\"}",
        ),
        (
            AgentMessage::Custom(CustomMessage { data: None, origin: None }),
            "{\"role\":\"custom\",\"text\":\"\"}",
        ),
        (AgentMessage::Unknown { origin: None }, "{\"role\":\"unknown\",\"text\":\"\"}"),
    ];
    for (message, expected) in cases {
        assert_eq!(message_to_value(&message), parse(expected));
    }
}
