use senza_wasm::config::{FinalAnswerMode, ThinkingLevel};
use senza_wasm::text::{decimal_text, enclosed, join_lines, joined, same_text};

#[test]
fn final_answer_modes_are_named() {
    assert!(FinalAnswerMode::parse("heuristic") == Some(FinalAnswerMode::Heuristic));
    assert!(FinalAnswerMode::parse("required_tool") == Some(FinalAnswerMode::RequiredTool));
    assert!(
        FinalAnswerMode::parse("tool_with_text_fallback")
            == Some(FinalAnswerMode::ToolWithTextFallback)
    );
    assert!(FinalAnswerMode::parse("Heuristic").is_none());
}

#[test]
fn thinking_levels_are_named() {
    let levels = vec![
        ("off", ThinkingLevel::Off),
        ("minimal", ThinkingLevel::Minimal),
        ("low", ThinkingLevel::Low),
        ("medium", ThinkingLevel::Medium),
        ("high", ThinkingLevel::High),
        ("xhigh", ThinkingLevel::XHigh),
        ("budget:0", ThinkingLevel::Budget(0)),
        ("budget:1024", ThinkingLevel::Budget(1024)),
        ("budget:007", ThinkingLevel::Budget(7)),
        ("budget:4294967295", ThinkingLevel::Budget(u32::MAX)),
    ];
    for (name, level) in levels {
        assert!(ThinkingLevel::parse(name) == Some(level), "{name}");
    }
}

#[test]
fn other_thinking_levels_are_refused() {
    for name in ["", "Off", "budget", "budget:", "budget:-1", "budget:4294967296", "budget:1 "] {
        assert!(ThinkingLevel::parse(name).is_none(), "{name}");
    }
}

#[test]
fn numbers_are_written_in_full() {
    for n in [0u32, 7, 10, 16, 909, 4_294_967_295] {
        assert_eq!(decimal_text(n), n.to_string());
        let name = joined("budget:", &decimal_text(n));
        assert!(ThinkingLevel::parse(&name) == Some(ThinkingLevel::Budget(n)));
    }
}

#[test]
fn texts_are_joined() {
    assert!(same_text("é", "é"));
    assert!(!same_text("a", "b"));
    assert_eq!(enclosed("<", "é", ">"), "<é>");
    assert_eq!(join_lines(&Vec::new()), "");
    assert_eq!(join_lines(&vec!["a".to_string()]), "a");
    assert_eq!(join_lines(&vec!["a".to_string(), String::new(), "b".to_string()]), "a\n\nb");
}
