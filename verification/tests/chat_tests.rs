use hatchery::chat::{ChatAction, ContentBlock, Traverser};
use hatchery::state::{ai_config, api_key_from, password_from, require_api_key};

#[test]
fn conversation_continues_only_for_tool_use() {
    let mut t = Traverser::new(16);
    assert_eq!(t.next_action(), ChatAction::CallModel);
    assert!(t.absorb(&ContentBlock::Text(Some("Hallo ".to_string()))).is_none());
    let req = t
        .absorb(&ContentBlock::ToolUse { name: Some("get".to_string()), id: None })
        .unwrap();
    assert_eq!(req.name, "get");
    assert_eq!(req.id, "");
    assert!(t.absorb(&ContentBlock::Other).is_none());
    t.end_turn("tool_use", 1);
    assert_eq!(t.next_action(), ChatAction::CallModel);
    assert!(t.absorb(&ContentBlock::Text(Some("fertig".to_string()))).is_none());
    t.end_turn("end_turn", 0);
    assert_eq!(t.next_action(), ChatAction::Finish);
    assert_eq!(t.text(), "Hallo fertig");
}

#[test]
fn tool_use_without_results_ends_the_conversation() {
    let mut t = Traverser::new(4);
    t.end_turn("tool_use", 0);
    assert_eq!(t.next_action(), ChatAction::Finish);
}

#[test]
fn conversation_is_bounded_by_max_turns() {
    let mut t = Traverser::new(2);
    let mut calls = 0;
    while t.next_action() == ChatAction::CallModel {
        calls += 1;
        t.end_turn("tool_use", 3);
    }
    assert_eq!(calls, 2);
    assert_eq!(Traverser::new(0).next_action(), ChatAction::Finish);
}

#[test]
fn secrets_and_ai_settings() {
    assert_eq!(api_key_from(Some("".to_string()), Some("k".to_string())), Some("".to_string()));
    assert_eq!(api_key_from(None, Some("  key \n".to_string())), Some("key".to_string()));
    assert_eq!(api_key_from(None, Some(" \n".to_string())), None);
    assert_eq!(password_from(Some("".to_string()), Some(" pw ".to_string())), Some("pw".to_string()));
    assert_eq!(password_from(Some("x".to_string()), None), Some("x".to_string()));
    assert_eq!(password_from(None, None), None);
    let c = ai_config(None, None, "default-model");
    assert_eq!(c.model, "default-model");
    assert_eq!(c.max_continuations, 16);
    match require_api_key(&c) {
        Err(e) => assert_eq!(
            e.message,
            "AI Traverser disabled: set ANTHROPIC_API_KEY or /etc/hatchery/anthropic-key"
        ),
        Ok(_) => panic!("expected disabled"),
    }
    let c = ai_config(Some("k".to_string()), Some("m".to_string()), "default-model");
    assert_eq!(c.model, "m");
    assert_eq!(require_api_key(&c).ok(), Some("k".to_string()));
}
