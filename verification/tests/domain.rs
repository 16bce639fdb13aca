use vulcan_agent::event::{Event, EventKind, EVENT_VERSION};
use vulcan_agent::ids::SessionId;
use vulcan_agent::llm::{LlmProvider, OpenAiProvider, ProviderRequest};
use vulcan_agent::error::LlmError;
use vulcan_agent::session::{ApprovalMode, SessionMode};
use vulcan_agent::skills::SkillsLoader;
use vulcan_agent::text::push_decimal;

#[test]
fn new_events_carry_version_one_and_fresh_ids() {
    let a = Event::new(SessionId("s".into()), 1, EventKind::SessionCreated { mode: "ask".into() });
    let b = Event::new(SessionId("s".into()), 2, EventKind::SessionCreated { mode: "ask".into() });
    assert_eq!(a.version, EVENT_VERSION);
    assert_eq!(a.version, 1);
    assert_eq!(a.sequence, 1);
    assert_eq!(a.session_id, SessionId("s".into()));
    assert_eq!(a.id.0.len(), 36);
    for (i, c) in a.id.0.chars().enumerate() {
        if [8, 13, 18, 23].contains(&i) {
            assert_eq!(c, '-');
        } else {
            assert!(c.is_ascii_digit() || ('a'..='f').contains(&c));
        }
    }
    assert_eq!(a.id.0.chars().nth(14), Some('4'));
    assert_ne!(a.id, b.id);
    assert!(a.created_at.secs > 1_600_000_000);
}

#[test]
fn default_modes() {
    assert_eq!(SessionMode::default(), SessionMode::Ask);
    assert_eq!(ApprovalMode::default(), ApprovalMode::Never);
}

#[test]
fn decimal_rendering() {
    let mut s = String::from("n=");
    push_decimal(&mut s, 0);
    assert_eq!(s, "n=0");
    let mut s = String::new();
    push_decimal(&mut s, 1_234_567_890);
    assert_eq!(s, "1234567890");
    let mut s = String::new();
    push_decimal(&mut s, u64::MAX);
    assert_eq!(s, u64::MAX.to_string());
}

#[test]
fn openai_provider_is_not_implemented() {
    let provider = OpenAiProvider;
    let request = ProviderRequest { model: "gpt-4o-mini".into(), messages: Vec::new() };
    match provider.complete(request) {
        Err(LlmError::Provider(m)) => assert_eq!(m, "Not implemented"),
        Ok(_) => panic!("completion succeeded"),
    }
    assert!(provider.cancel().is_ok());
}

#[test]
fn discover_finds_no_skills() {
    let loader = SkillsLoader::default();
    assert!(loader.discover().unwrap().is_empty());
}
