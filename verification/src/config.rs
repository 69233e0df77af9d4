//! Options of an agent, and the settings that each run gets from them.

use std::sync::Arc;

use tokio_util::sync::CancellationToken;
use vstd::prelude::*;

use crate::channels::{share_token, stop_called, stop_request};
use crate::messages::TokenUsage;
use crate::text::{decimal, same_text};
use crate::tools::{AgentTool, ToolInfo, ToolKind, ToolKindView, ToolView};

verus! {

/// One reply of the scripted provider.
pub enum MockSpec {
    Text { text: String, usage: Option<TokenUsage> },
    ToolUse { tool_use_id: String, name: String, args: String },
    RateLimitError,
}

/// The form that a reply must have.
pub enum ResponseFormat {
    JsonObject,
    JsonSchema { name: String, schema: serde_json::Value, strict: Option<bool> },
}

/// How a run tells its final answer.
#[derive(Clone, Copy, PartialEq, Eq, Structural)]
pub enum FinalAnswerMode {
    Heuristic,
    RequiredTool,
    ToolWithTextFallback,
}

/// How much the model thinks before it replies.
#[derive(Clone, Copy, PartialEq, Eq, Structural)]
pub enum ThinkingLevel {
    Off,
    Minimal,
    Low,
    Medium,
    High,
    XHigh,
    Budget(u32),
}

#[derive(Clone, Copy, PartialEq, Eq, Structural)]
pub enum ToolExecutionMode {
    Parallel,
    Sequential,
}

/// What an agent is made from. `temperature` is the bit pattern of a single-precision number.
pub struct AgentOpts {
    pub provider: String,
    pub api_key: String,
    pub base_url: Option<String>,
    pub model: String,
    pub system_prompt: Option<String>,
    pub max_tokens: u32,
    pub max_turns: u32,
    pub temperature: Option<u32>,
    pub mock_script: Option<Vec<MockSpec>>,
    pub response_format: Option<ResponseFormat>,
    pub final_answer_mode: FinalAnswerMode,
    pub thinking_level: ThinkingLevel,
    pub stream_idle_timeout_ms: u64,
}

/// The provider that an agent talks to.
pub enum ClientSpec {
    Mock { script: Vec<MockSpec> },
    OpenAi { api_key: String, base_url: Option<String> },
}

/// What stays the same over the life of an agent.
pub struct AgentDeps {
    pub client: ClientSpec,
    pub model: String,
    pub max_tokens: u32,
    pub temperature: Option<u32>,
    pub system_prompt: Option<String>,
    pub max_turns: u32,
    pub response_format: Option<Arc<ResponseFormat>>,
    pub final_answer_mode: FinalAnswerMode,
    pub thinking_level: ThinkingLevel,
    pub stream_idle_timeout_ms: u64,
}

/// A tool as a run sees it: its place among the agent's tools, the handle of its callback
/// where it is one, and the number of its approval gates.
pub struct ToolHandle {
    pub index: usize,
    pub info: Arc<ToolInfo>,
    pub callback: Option<u64>,
    pub gates: usize,
}

/// The settings of a run.
pub struct LoopConfig {
    pub model: String,
    pub max_tokens: u32,
    pub temperature: Option<u32>,
    pub thinking_level: ThinkingLevel,
    pub tools: Vec<ToolHandle>,
    pub default_execution_mode: ToolExecutionMode,
    pub final_answer_mode: FinalAnswerMode,
    pub abort: CancellationToken,
    pub stream_idle_timeout_ms: Option<u64>,
    pub response_format: Option<Arc<ResponseFormat>>,
}

/// The provider where the options name none.
pub fn default_provider() -> (provider: String)
    ensures
        provider@ == "openai"@,
{
    "openai".to_owned()
}

/// The longest reply, in tokens, where the options set none.
pub fn default_max_tokens() -> (max_tokens: u32)
    ensures
        max_tokens == 4096,
{
    4096
}

/// The most turns of a run where the options set none.
pub fn default_max_turns() -> (max_turns: u32)
    ensures
        max_turns == 16,
{
    16
}

/// How long a stream may stay silent, in milliseconds, where the options set nothing.
pub fn default_stream_idle_timeout_ms() -> (timeout: u64)
    ensures
        timeout == 5000,
{
    5000
}

/// How a run tells its final answer where the options say nothing of it.
pub fn default_final_answer_mode() -> (mode: FinalAnswerMode)
    ensures
        mode == FinalAnswerMode::Heuristic,
{
    FinalAnswerMode::Heuristic
}

/// How much the model thinks where the options say nothing of it.
pub fn default_thinking_level() -> (level: ThinkingLevel)
    ensures
        level == ThinkingLevel::Off,
{
    ThinkingLevel::Off
}

/// The mode that a name stands for.
pub open spec fn final_answer_mode_named(name: Seq<char>) -> Option<FinalAnswerMode> {
    if name == "heuristic"@ {
        Some(FinalAnswerMode::Heuristic)
    } else if name == "required_tool"@ {
        Some(FinalAnswerMode::RequiredTool)
    } else if name == "tool_with_text_fallback"@ {
        Some(FinalAnswerMode::ToolWithTextFallback)
    } else {
        None
    }
}

impl FinalAnswerMode {
    /// The mode that a name stands for.
    pub fn parse(name: &str) -> (mode: Option<FinalAnswerMode>)
        ensures
            mode == final_answer_mode_named(name@),
    {
        if same_text(name, "heuristic") {
            Some(FinalAnswerMode::Heuristic)
        } else if same_text(name, "required_tool") {
            Some(FinalAnswerMode::RequiredTool)
        } else if same_text(name, "tool_with_text_fallback") {
            Some(FinalAnswerMode::ToolWithTextFallback)
        } else {
            None
        }
    }
}

/// Whether a character is a decimal digit.
pub open spec fn is_digit(c: char) -> bool {
    '0' <= c <= '9'
}

/// The number that decimal digits stand for.
pub open spec fn digits_value(digits: Seq<char>) -> nat
    decreases digits.len(),
{
    if digits.len() == 0 {
        0
    } else {
        digits_value(digits.drop_last()) * 10 + (digits.last() as nat - '0' as nat) as nat
    }
}

/// Whether a text is a decimal number that `u32` can hold.
pub open spec fn is_u32_text(text: Seq<char>) -> bool {
    &&& text.len() > 0
    &&& forall|i: int| 0 <= i < text.len() ==> is_digit(#[trigger] text[i])
    &&& digits_value(text) <= u32::MAX
}

/// The level that a name stands for; `budget:` goes before a number of tokens.
pub open spec fn thinking_level_named(name: Seq<char>) -> Option<ThinkingLevel> {
    if name == "off"@ {
        Some(ThinkingLevel::Off)
    } else if name == "minimal"@ {
        Some(ThinkingLevel::Minimal)
    } else if name == "low"@ {
        Some(ThinkingLevel::Low)
    } else if name == "medium"@ {
        Some(ThinkingLevel::Medium)
    } else if name == "high"@ {
        Some(ThinkingLevel::High)
    } else if name == "xhigh"@ {
        Some(ThinkingLevel::XHigh)
    } else if name.len() >= 7 && name.take(7) == "budget:"@ && is_u32_text(name.skip(7)) {
        Some(ThinkingLevel::Budget(digits_value(name.skip(7)) as u32))
    } else {
        None
    }
}

/// A number with more digits is no smaller.
proof fn digits_value_grows(digits: Seq<char>, shorter: int)
    requires
        0 <= shorter <= digits.len(),
    ensures
        digits_value(digits.take(shorter)) <= digits_value(digits),
    decreases digits.len() - shorter,
{
    if shorter == digits.len() {
        assert(digits.take(shorter) =~= digits);
    } else {
        assert(digits.take(shorter + 1).drop_last() =~= digits.take(shorter));
        digits_value_grows(digits, shorter + 1);
    }
}

/// Reads a decimal number that starts at `start` and goes to the end of the text.
fn parse_u32_from(text: &str, start: usize) -> (number: Option<u32>)
    requires
        start <= text@.len(),
    ensures
        match number {
            Some(n) => is_u32_text(text@.skip(start as int)) && n == digits_value(
                text@.skip(start as int),
            ),
            None => !is_u32_text(text@.skip(start as int)),
        },
{
    let ghost rest = text@.skip(start as int);
    let len: usize = text.unicode_len();
    if start == len {
        return None;
    }
    let mut number: u64 = 0;
    let mut i: usize = start;
    while i < len
        invariant
            start <= i <= len,
            len == text@.len(),
            rest == text@.skip(start as int),
            number == digits_value(rest.take(i - start)),
            number <= u32::MAX,
            forall|j: int| 0 <= j < i - start ==> is_digit(#[trigger] rest[j]),
        decreases len - i,
    {
        let c: char = text.get_char(i);
        assert(rest[i - start] == c);
        if c < '0' || c > '9' {
            return None;
        }
        let digit: u64 = c as u64 - '0' as u64;
        number = number * 10 + digit;
        proof {
            assert(rest.take(i - start + 1).drop_last() =~= rest.take(i - start));
            assert(rest.take(i - start + 1).last() == c);
        }
        if number > u32::MAX as u64 {
            proof {
                digits_value_grows(rest, i - start + 1);
            }
            return None;
        }
        i += 1;
    }
    assert(rest.take(i - start) =~= rest);
    Some(number as u32)
}

impl ThinkingLevel {
    /// The level that a name stands for.
    pub fn parse(name: &str) -> (level: Option<ThinkingLevel>)
        ensures
            level == thinking_level_named(name@),
    {
        if same_text(name, "off") {
            Some(ThinkingLevel::Off)
        } else if same_text(name, "minimal") {
            Some(ThinkingLevel::Minimal)
        } else if same_text(name, "low") {
            Some(ThinkingLevel::Low)
        } else if same_text(name, "medium") {
            Some(ThinkingLevel::Medium)
        } else if same_text(name, "high") {
            Some(ThinkingLevel::High)
        } else if same_text(name, "xhigh") {
            Some(ThinkingLevel::XHigh)
        } else if name.unicode_len() >= 7 && same_text(name.substring_char(0, 7), "budget:") {
            match parse_u32_from(name, 7) {
                Some(tokens) => Some(ThinkingLevel::Budget(tokens)),
                None => None,
            }
        } else {
            None
        }
    }
}

/// A number in decimal notation is read as that number.
proof fn decimal_is_read(n: nat)
    ensures
        decimal(n).len() > 0,
        forall|i: int| 0 <= i < decimal(n).len() ==> is_digit(#[trigger] decimal(n)[i]),
        digits_value(decimal(n)) == n,
    decreases n,
{
    reveal_with_fuel(digits_value, 2);
    if n < 10 {
        assert(decimal(n).drop_last() =~= Seq::empty());
    } else {
        decimal_is_read(n / 10);
        assert(decimal(n).drop_last() =~= decimal(n / 10));
    }
}

/// Every number of tokens that `u32` can hold has a level of its own: `budget:` and the
/// number in decimal notation.
pub proof fn budget_is_read(tokens: u32)
    ensures
        thinking_level_named("budget:"@ + decimal(tokens as nat)) == Some(
            ThinkingLevel::Budget(tokens),
        ),
{
    let name = "budget:"@ + decimal(tokens as nat);
    reveal_strlit("budget:");
    reveal_strlit("off");
    reveal_strlit("minimal");
    reveal_strlit("low");
    reveal_strlit("medium");
    reveal_strlit("high");
    reveal_strlit("xhigh");
    decimal_is_read(tokens as nat);
    assert(name.take(7) =~= "budget:"@);
    assert(name.skip(7) =~= decimal(tokens as nat));
    assert(name.len() > 7);
}

/// The name of a mode.
pub open spec fn mode_name(mode: FinalAnswerMode) -> Seq<char> {
    match mode {
        FinalAnswerMode::Heuristic => "heuristic"@,
        FinalAnswerMode::RequiredTool => "required_tool"@,
        FinalAnswerMode::ToolWithTextFallback => "tool_with_text_fallback"@,
    }
}

/// A mode is read from its name, and from nothing else.
pub proof fn mode_is_read_from_its_name(name: Seq<char>, mode: FinalAnswerMode)
    ensures
        final_answer_mode_named(name) == Some(mode) <==> name == mode_name(mode),
{
    reveal_strlit("heuristic");
    reveal_strlit("required_tool");
    reveal_strlit("tool_with_text_fallback");
    assert("heuristic"@.len() == 9);
    assert("required_tool"@.len() == 13);
    assert("tool_with_text_fallback"@.len() == 23);
}

/// A level is read from its name, and from nothing else; a number of tokens is read from
/// `budget:` and its digits.
pub proof fn level_is_read_from_its_name(name: Seq<char>, tokens: u32)
    ensures
        thinking_level_named(name) == Some(ThinkingLevel::Off) <==> name == "off"@,
        thinking_level_named(name) == Some(ThinkingLevel::Minimal) <==> name == "minimal"@,
        thinking_level_named(name) == Some(ThinkingLevel::Low) <==> name == "low"@,
        thinking_level_named(name) == Some(ThinkingLevel::Medium) <==> name == "medium"@,
        thinking_level_named(name) == Some(ThinkingLevel::High) <==> name == "high"@,
        thinking_level_named(name) == Some(ThinkingLevel::XHigh) <==> name == "xhigh"@,
        thinking_level_named(name) == Some(ThinkingLevel::Budget(tokens)) <==> {
            &&& name.len() > 7
            &&& name.take(7) == "budget:"@
            &&& forall|i: int| 7 <= i < name.len() ==> '0' <= #[trigger] name[i] <= '9'
            &&& digits_value(name.skip(7)) == tokens
        },
{
    reveal_strlit("off");
    reveal_strlit("minimal");
    reveal_strlit("low");
    reveal_strlit("medium");
    reveal_strlit("high");
    reveal_strlit("xhigh");
    reveal_strlit("budget:");
    assert("off"@.len() == 3);
    assert("low"@.len() == 3);
    assert("off"@[0] != "low"@[0]);
    assert("high"@.len() == 4);
    assert("xhigh"@.len() == 5);
    assert("medium"@.len() == 6);
    assert("minimal"@.len() == 7);
    if name.len() > 7 {
        let rest = name.skip(7);
        if forall|i: int| 7 <= i < name.len() ==> '0' <= #[trigger] name[i] <= '9' {
            assert forall|i: int| 0 <= i < rest.len() implies is_digit(#[trigger] rest[i]) by {
                assert(rest[i] == name[i + 7]);
            }
        }
        if is_u32_text(rest) {
            assert forall|i: int| 7 <= i < name.len() implies '0' <= #[trigger] name[i] <= '9' by {
                assert(is_digit(rest[i - 7]));
            }
        }
    }
}

/// Digits are read from the left: one more makes ten times as much and the digit.
pub proof fn digits_are_read_by_tens(digits: Seq<char>, digit: char)
    requires
        '0' <= digit <= '9',
    ensures
        digits_value(Seq::empty()) == 0,
        digits_value(digits.push(digit)) == digits_value(digits) * 10 + (digit as int - '0' as int),
{
    assert(digits.push(digit).drop_last() =~= digits);
}

/// Whether `handle` stands for the tool at `index`.
pub open spec fn is_handle(handle: ToolHandle, tool: ToolView, index: int) -> bool {
    &&& handle.index == index
    &&& handle.info@ == tool.identity
    &&& handle.callback == (match tool.kind {
        ToolKindView::Callback(callback) => Some(callback),
        ToolKindView::Pump(_) => None,
    })
    &&& handle.gates == tool.gates.len()
}

/// Whether `config` holds the settings of a run of an agent with these tools, which listens to
/// this request to stop.
pub open spec fn is_config(
    config: LoopConfig,
    deps: AgentDeps,
    tools: Seq<ToolView>,
    request: int,
    stopped: bool,
) -> bool {
    &&& config.model == deps.model
    &&& config.max_tokens == deps.max_tokens
    &&& config.temperature == deps.temperature
    &&& config.thinking_level == deps.thinking_level
    &&& config.tools@.len() == tools.len()
    &&& forall|i: int|
        0 <= i < tools.len() ==> is_handle(#[trigger] config.tools@[i], tools[i], i)
    &&& config.default_execution_mode == ToolExecutionMode::Parallel
    &&& config.final_answer_mode == deps.final_answer_mode
    &&& stop_request(config.abort) == request
    &&& stop_called(config.abort) == stopped
    &&& config.stream_idle_timeout_ms == Some(deps.stream_idle_timeout_ms)
    &&& config.response_format == deps.response_format
}

/// The tools of a list, as plain values.
pub open spec fn tools_view(tools: Seq<AgentTool>) -> Seq<ToolView> {
    Seq::new(tools.len(), |i: int| tools[i]@)
}

/// The settings of a run: those of the agent, and the tools that it has now.
pub fn build_config(
    deps: &AgentDeps,
    tools: &Vec<AgentTool>,
    abort: &CancellationToken,
) -> (config: LoopConfig)
    ensures
        is_config(
            config,
            *deps,
            tools_view(tools@),
            stop_request(*abort),
            stop_called(*abort),
        ),
{
    let mut handles: Vec<ToolHandle> = Vec::new();
    let mut i: usize = 0;
    while i < tools.len()
        invariant
            i <= tools@.len(),
            handles@.len() == i,
            forall|j: int| 0 <= j < i ==> is_handle(#[trigger] handles@[j], tools@[j]@, j),
        decreases tools@.len() - i,
    {
        let callback: Option<u64> = match &tools[i].kind {
            ToolKind::Callback(tool) => Some(tool.callback()),
            ToolKind::Pump(_) => None,
        };
        handles.push(
            ToolHandle { index: i, info: tools[i].info(), callback, gates: tools[i].gates.len() },
        );
        i += 1;
    }
    let response_format: Option<Arc<ResponseFormat>> = match &deps.response_format {
        Some(format) => Some(format.clone()),
        None => None,
    };
    LoopConfig {
        model: deps.model.clone(),
        max_tokens: deps.max_tokens,
        temperature: deps.temperature,
        thinking_level: deps.thinking_level,
        tools: handles,
        default_execution_mode: ToolExecutionMode::Parallel,
        final_answer_mode: deps.final_answer_mode,
        abort: share_token(abort),
        stream_idle_timeout_ms: Some(deps.stream_idle_timeout_ms),
        response_format,
    }
}

} // verus!
