use futures::executor::block_on;
use futures::StreamExt;
use senza_wasm::events::{ToolFailure, ToolResult};
use senza_wasm::messages::DataBlock;
use senza_wasm::tools::{
    approve_outcome, parse_pump_result, resolve_outcome, with_approval, AgentTool, ApprovalGate,
    BeforeToolCallDecision, CallbackOutcome, JsTool, PendingTool, ToolKind,
};

fn parse(json: &str) -> serde_json::Value {
    serde_json::from_str(json).unwrap()
}

fn returned(text: &str) -> CallbackOutcome {
    CallbackOutcome::Returned { text: Some(text.to_string()) }
}

fn text_of(result: &ToolResult) -> Option<&str> {
    assert_eq!(result.model_content.len(), 1);
    match &result.model_content[0] {
        DataBlock::Text { text } => Some(text.as_str()),
        DataBlock::Other => None,
    }
}

fn failure(result: Result<ToolResult, ToolFailure>) -> (String, String) {
    match result {
        Ok(_) => panic!("expected a failure"),
        Err(f) => (f.code, f.model_message),
    }
}

fn echo() -> PendingTool {
    PendingTool::new("echo".into(), "pump echo".into(), parse("{}"))
}

#[test]
fn js_tool_trait_surface() {
    let tool = JsTool::new("t".into(), "d".into(), parse("{\"type\":\"object\"}"), 1);
    assert_eq!(tool.name(), "t");
    assert_eq!(tool.description(), "d");
    assert_eq!(tool.parameters_schema(), &parse("{\"type\":\"object\"}"));
    assert_eq!(tool.callback(), 1);
}

#[test]
fn js_tool_sync_callback_completes() {
    let result = JsTool::execute(returned("{\"text\":\"sync ok\"}")).ok().unwrap();
    assert_eq!(text_of(&result), Some("sync ok"));
}

#[test]
fn pending_tool_resolves_after_host_reply() {
    let mut tool = echo();
    assert_eq!(tool.name(), "echo");
    let mut answer = tool.execute("c1");
    tool.resolve("c1", "{\"text\":\"pong\"}".into()).unwrap();
    let result = PendingTool::finish("c1", block_on(answer.next())).ok().unwrap();
    assert_eq!(result.model_content.len(), 1);
    assert_eq!(text_of(&result), Some("pong"));
}

#[test]
fn pending_tool_resolve_unknown_id_errors() {
    let mut tool = echo();
    assert!(tool.resolve("nope", "{}".into()).is_err());
    assert_eq!(
        tool.resolve("nope", "{}".into()).unwrap_err(),
        "unknown or already-resolved tool_use_id 'nope'"
    );
}

#[test]
fn approval_gate_allow_and_deny() {
    let mut gate = ApprovalGate::new();
    let decision = gate.on_call("c1");
    gate.approve("c1", true).unwrap();
    assert!(matches!(
        ApprovalGate::decide(block_on(decision).ok()),
        BeforeToolCallDecision::Allow
    ));

    let mut gate = ApprovalGate::new();
    let decision = gate.on_call("c1");
    gate.approve("c1", false).unwrap();
    match ApprovalGate::decide(block_on(decision).ok()) {
        BeforeToolCallDecision::Deny(f) => {
            assert_eq!(f.code, "denied_by_host");
            assert_eq!(f.model_message, "The host denied this tool call.");
        }
        BeforeToolCallDecision::Allow => panic!("expected Deny"),
    }

    assert!(gate.approve("nope", true).is_err());
}

#[test]
fn gate_dropped_without_a_decision_denies() {
    let mut gate = ApprovalGate::new();
    let decision = gate.on_call("c1");
    drop(gate);
    match ApprovalGate::decide(block_on(decision).ok()) {
        BeforeToolCallDecision::Deny(f) => {
            assert_eq!(f.code, "denied_by_host");
            assert_eq!(f.model_message, "Approval gate dropped before a decision arrived.");
        }
        BeforeToolCallDecision::Allow => panic!("expected Deny"),
    }
}

#[test]
fn gate_answers_each_call_once() {
    let mut gate = ApprovalGate::new();
    let first = gate.on_call("a");
    let second = gate.on_call("b");
    gate.approve("b", false).unwrap();
    assert_eq!(
        gate.approve("b", true).unwrap_err(),
        "unknown or already-approved tool_use_id 'b'"
    );
    gate.approve("a", true).unwrap();
    assert_eq!(block_on(first).ok(), Some(true));
    assert_eq!(block_on(second).ok(), Some(false));
}

#[test]
fn gate_reports_a_task_that_is_gone() {
    let mut gate = ApprovalGate::new();
    drop(gate.on_call("c1"));
    assert_eq!(gate.approve("c1", true).unwrap_err(), "approval receiver dropped for 'c1'");
    assert_eq!(
        gate.approve("c1", true).unwrap_err(),
        "unknown or already-approved tool_use_id 'c1'"
    );
}

#[test]
fn placeholder_answers_each_call_once() {
    let mut tool = echo();
    let mut first = tool.execute("a");
    let mut second = tool.execute("b");
    tool.resolve("b", "two".into()).unwrap();
    tool.resolve("a", "one".into()).unwrap();
    assert_eq!(
        tool.resolve("a", "three".into()).unwrap_err(),
        "unknown or already-resolved tool_use_id 'a'"
    );
    assert_eq!(block_on(first.next()), Some("one".to_string()));
    assert_eq!(block_on(second.next()), Some("two".to_string()));
    assert_eq!(block_on(first.next()), None);
}

#[test]
fn placeholder_drops_an_earlier_call_under_the_same_id() {
    let mut tool = echo();
    let mut first = tool.execute("a");
    let mut second = tool.execute("a");
    tool.resolve("a", "one".into()).unwrap();
    assert_eq!(block_on(first.next()), None);
    assert_eq!(block_on(second.next()), Some("one".to_string()));
}

#[test]
fn placeholder_reports_a_task_that_is_gone() {
    let mut tool = echo();
    drop(tool.execute("a"));
    assert_eq!(
        tool.resolve("a", "one".into()).unwrap_err(),
        "resolve failed: send failed because receiver is gone"
    );
    assert_eq!(
        tool.resolve("a", "one".into()).unwrap_err(),
        "unknown or already-resolved tool_use_id 'a'"
    );
}

#[test]
fn placeholder_that_is_dropped_cancels_its_calls() {
    let mut tool = echo();
    let mut answer = tool.execute("c9");
    drop(tool);
    assert_eq!(
        failure(PendingTool::finish("c9", block_on(answer.next()))),
        ("pump_cancelled".to_string(), "tool call c9 was cancelled".to_string())
    );
}

#[test]
fn pump_answer_is_read() {
    let full = "{\"text\":\"t\",\"details\":{\"k\":1},\"terminate\":true}";
    let result = parse_pump_result("c", full).ok().unwrap();
    assert_eq!(text_of(&result), Some("t"));
    assert_eq!(result.details, parse("{\"k\":1}"));
    assert!(result.terminate);

    let bare = "{\"text\":5,\"terminate\":\"yes\"}";
    let result = parse_pump_result("c", bare).ok().unwrap();
    assert_eq!(text_of(&result), Some(bare));
    assert_eq!(result.details, serde_json::Value::Null);
    assert!(!result.terminate);

    let (code, message) = failure(parse_pump_result("c", "not json"));
    assert_eq!(code, "invalid_result");
    assert_eq!(
        message,
        "resolveTool JSON parse failed: expected ident at line 1 column 2"
    );
}

#[test]
fn callback_result_is_read() {
    let whole = "{\"text\":\"t\",\"more\":2}";
    let result = JsTool::execute(returned(whole)).ok().unwrap();
    assert_eq!(text_of(&result), Some("t"));
    assert_eq!(result.details, parse(whole));
    assert!(!result.terminate);

    let result = JsTool::execute(returned("{\"details\":[1],\"terminate\":true}")).ok().unwrap();
    assert_eq!(text_of(&result), Some("{\"details\":[1],\"terminate\":true}"));
    assert_eq!(result.details, parse("[1]"));
    assert!(result.terminate);
}

#[test]
fn callback_failures_have_their_codes() {
    assert_eq!(
        failure(JsTool::execute(CallbackOutcome::CallFailed { reason: "x".into() })),
        ("execution_error".to_string(), "JS callback failed: x".to_string())
    );
    assert_eq!(
        failure(JsTool::execute(CallbackOutcome::Rejected { reason: "y".into() })),
        ("execution_error".to_string(), "JS promise rejected: y".to_string())
    );
    let (code, message) = failure(JsTool::execute(CallbackOutcome::Returned { text: None }));
    assert_eq!(code, "invalid_result");
    assert_eq!(
        message,
        "ToolResult JSON parse failed: EOF while parsing a value at line 1 column 0"
    );
}

#[test]
fn callback_gets_its_arguments_as_json() {
    assert_eq!(JsTool::callback_input(&parse("{ \"input\" : \"hi\" }")), "{\"input\":\"hi\"}");
}

#[test]
fn outcomes_are_described() {
    assert!(resolve_outcome("a", Some(Ok(()))).is_ok());
    assert_eq!(
        resolve_outcome("a", Some(Err("full".into()))).unwrap_err(),
        "resolve failed: full"
    );
    assert!(approve_outcome("a", Some(Ok(()))).is_ok());
    assert_eq!(
        approve_outcome("a", Some(Err(true))).unwrap_err(),
        "approval receiver dropped for 'a'"
    );
}

#[test]
fn gate_keeps_the_identity_of_its_tool() {
    let kind = ToolKind::Pump(PendingTool::new("n".into(), "d".into(), parse("{\"a\":0}")));
    let tool = AgentTool { kind, gates: Vec::new() };
    let tool = with_approval(tool, ApprovalGate::new());
    assert_eq!(tool.name(), "n");
    assert_eq!(tool.description(), "d");
    assert_eq!(tool.parameters_schema(), &parse("{\"a\":0}"));
    assert_eq!(tool.gates.len(), 1);
}
