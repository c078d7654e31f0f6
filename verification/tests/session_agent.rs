use rust_coding_agent::agent::{Agent, AgentEventType};
use rust_coding_agent::client_llm::LLMClient;
use rust_coding_agent::client_response::StreamEventType;
use rust_coding_agent::config::Config;
use rust_coding_agent::json::JsonValue;
use rust_coding_agent::persistence::{
    checkpoint_id, checkpoint_id_of, checkpoint_summary, has_json_extension, restore_session, session_summary, snapshot_of,
};
use rust_coding_agent::session::{memory_prompt, Session};

fn s(x: &str) -> JsonValue {
    JsonValue::Str(x.to_string())
}

#[test]
fn new_session_is_empty_with_an_identifier() {
    let session = Session::new(Config::new("/w".to_string()));
    assert_eq!(session.session_id.len(), 36);
    assert_eq!(session.config.cwd, "/w");
    assert_eq!(session.tool_registry.get_tools().len(), 13);
    assert_eq!(session.mcp_manager.get_all_servers().len(), 0);
    assert_eq!(session.turn_count, 0);
    assert_eq!(session.context_manager.message_count(), 0);
    let other = Session::new(Config::new("/w".to_string()));
    assert_ne!(session.session_id, other.session_id);
}

#[test]
fn turns_are_counted() {
    let mut session = Session::new(Config::new("/w".to_string()));
    assert_eq!(session.increment_turn(), 1);
    assert_eq!(session.increment_turn(), 2);
    assert_eq!(session.turn_count, 2);
}

#[test]
fn remembered_notes_become_the_system_prompt() {
    let text = "{\"entries\": {\"editor\": \"vim\", \"lang\": \"rust\", \"n\": 3}}";
    assert_eq!(
        memory_prompt(text),
        Some("User preferences and notes:\n- editor: vim\n- lang: rust\n- n: ".to_string())
    );
    assert_eq!(memory_prompt("{\"entries\": {}}"), None);
    assert_eq!(memory_prompt("{\"other\": 1}"), None);
    assert_eq!(memory_prompt("not json"), None);
    let mut session = Session::new(Config::new("/w".to_string()));
    session.reset_context(memory_prompt(text));
    assert_eq!(session.context_manager.message_count(), 1);
    assert_eq!(session.context_manager.get_messages()[0].get("role"), Some(&s("system")));
}

#[test]
fn statistics_of_a_session() {
    let mut session = Session::new(Config::new("/w".to_string()));
    session.session_id = "abc".to_string();
    session.created_at = 1_704_067_200_000;
    session.increment_turn();
    session.context_manager.add_user_message("hi".to_string());
    let stats = session.get_stats();
    assert_eq!(
        stats,
        JsonValue::Object(vec![
            ("created_at".to_string(), s("2024-01-01T00:00:00+00:00")),
            ("mcp_servers".to_string(), JsonValue::Number("0".to_string())),
            ("message_count".to_string(), JsonValue::Number("1".to_string())),
            ("session_id".to_string(), s("abc")),
            ("token_usage".to_string(), JsonValue::Number("0".to_string())),
            ("tools_count".to_string(), JsonValue::Number("13".to_string())),
            ("turn_count".to_string(), JsonValue::Number("1".to_string())),
        ])
    );
}

#[test]
fn statistics_give_the_creation_time_in_rfc3339() {
    let mut session = Session::new(Config::new("/w".to_string()));
    session.created_at = 1_700_000_000_123;
    let stats = session.get_stats();
    assert_eq!(stats.get("created_at"), Some(&s("2023-11-14T22:13:20.123+00:00")));
}

#[test]
fn agent_run_answers_and_records() {
    let mut agent = Agent::new(Config::new("/w".to_string()), Session::new(Config::new("/w".to_string())));
    let events = agent.run("build it".to_string());
    assert_eq!(events.len(), 2);
    assert_eq!(events[0].event_type, AgentEventType::TextComplete);
    assert_eq!(events[0].data.get("content"), Some(&s("placeholder response for: build it")));
    assert_eq!(events[1].event_type, AgentEventType::AgentEnd);
    assert_eq!(events[1].data.get("response"), Some(&s("done")));
    assert_eq!(agent.session.turn_count, 1);
    let msgs = agent.session.context_manager.get_messages();
    assert_eq!(msgs.len(), 2);
    assert_eq!(msgs[0].get("role"), Some(&s("user")));
    assert_eq!(msgs[0].get("content"), Some(&s("build it")));
    assert_eq!(msgs[1].get("role"), Some(&s("assistant")));
    assert_eq!(msgs[1].get("tool_calls"), Some(&JsonValue::Null));
}

#[test]
fn llm_client_gives_its_placeholder() {
    let client = LLMClient::new(Config::new("/w".to_string()));
    let events = client.chat(&Vec::new(), &Vec::new());
    assert_eq!(events.len(), 1);
    assert_eq!(events[0].event_type, StreamEventType::TextComplete);
    assert_eq!(events[0].data.get("content"), Some(&s("LLM client placeholder response")));
    client.close();
}

#[test]
fn saved_session_comes_back() {
    let mut agent = Agent::new(Config::new("/w".to_string()), Session::new(Config::new("/w".to_string())));
    agent.run("one".to_string());
    agent.session.context_manager.add_tool_result("call_1".to_string(), "out".to_string());
    agent.session.context_manager.set_usage(42);
    let snap = snapshot_of(&agent.session);
    assert_eq!(snap.messages.len(), 3);
    let mut fresh = Session::new(Config::new("/w".to_string()));
    restore_session(&mut fresh, snap);
    assert_eq!(fresh.session_id, agent.session.session_id);
    assert_eq!(fresh.turn_count, 1);
    assert_eq!(fresh.context_manager.usage(), 42);
    assert_eq!(fresh.context_manager.get_messages(), agent.session.context_manager.get_messages());
}

#[test]
fn saved_system_messages_are_skipped_on_restore() {
    let mut session = Session::new(Config::new("/w".to_string()));
    session.reset_context(Some("prompt".to_string()));
    let snap = snapshot_of(&session);
    let mut fresh = Session::new(Config::new("/w".to_string()));
    restore_session(&mut fresh, snap);
    assert_eq!(fresh.context_manager.message_count(), 0);
}

#[test]
fn checkpoint_names_and_listings() {
    assert_eq!(checkpoint_id("abc", 12), "abc_12");
    assert!(has_json_extension("abc.json"));
    assert!(!has_json_extension(".json"));
    assert!(!has_json_extension("abc.jsonl"));
    assert!(!has_json_extension("json"));
    assert_eq!(checkpoint_id_of("abc_3.json"), Some("abc_3".to_string()));
    assert_eq!(checkpoint_id_of("notes.txt"), None);
    assert_eq!(
        session_summary("abc", 4, "2024-01-01T00:00:00+00:00"),
        JsonValue::Object(vec![
            ("session_id".to_string(), s("abc")),
            ("turn_count".to_string(), JsonValue::Number("4".to_string())),
            ("updated_at".to_string(), s("2024-01-01T00:00:00+00:00")),
        ])
    );
    assert_eq!(checkpoint_summary("abc_3"), JsonValue::Object(vec![("checkpoint_id".to_string(), s("abc_3"))]));
}
