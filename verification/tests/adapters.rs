use agent_sessions::adapters::codex::CodexAdapter;
use agent_sessions::adapters::cursor::CursorAdapter;
use agent_sessions::adapters::{
    file_stem_text, last_modified_from_secs, session_file_names, session_location, ScanStep,
};
use agent_sessions::models::{AgentType, MessageRole};
use agent_sessions::time::UtcTime;

#[test]
fn codex_entry_roles() {
    let e = CodexAdapter::read_entry(r#"{"role":"human","content":"hi"}"#).unwrap();
    assert_eq!(e.role, MessageRole::User);
    assert_eq!(e.content, "hi");
    assert_eq!(CodexAdapter::read_entry(r#"{"role":"assistant"}"#).unwrap().role, MessageRole::Assistant);
    assert_eq!(CodexAdapter::read_entry(r#"{"role":"system"}"#).unwrap().role, MessageRole::System);
    assert_eq!(CodexAdapter::read_entry(r#"{"role":"tool"}"#).unwrap().role, MessageRole::Tool);
    assert!(CodexAdapter::read_entry(r#"{"role":"robot","content":"x"}"#).is_none());
    assert!(CodexAdapter::read_entry(r#"{"content":"x"}"#).is_none());
    assert!(CodexAdapter::read_entry(r#"{"role":3}"#).is_none());
}

#[test]
fn codex_entry_skips_blank_and_broken_lines() {
    assert!(CodexAdapter::read_entry("").is_none());
    assert!(CodexAdapter::read_entry("   \t").is_none());
    assert!(CodexAdapter::read_entry("{not json").is_none());
    assert!(CodexAdapter::read_entry("[1,2]").is_none());
}

#[test]
fn codex_entry_fields() {
    let line = r#"{"role":"tool","content":{"a":1},"timestamp":"2024-01-02T03:04:05Z","tool_name":"shell","tool_input":"ls","tool_output":[1,2]}"#;
    let e = CodexAdapter::read_entry(line).unwrap();
    assert_eq!(e.content, r#"{"a":1}"#);
    assert_eq!(e.timestamp.unwrap().timestamp(), 1704164645);
    assert_eq!(e.tool_name.as_deref(), Some("shell"));
    assert_eq!(e.tool_input.as_deref(), Some("\"ls\""));
    assert_eq!(e.tool_output.as_deref(), Some("[1,2]"));
    let bare = CodexAdapter::read_entry(r#"{"role":"user","content":null,"timestamp":"soon","tool_name":5}"#).unwrap();
    assert_eq!(bare.content, "null");
    assert!(bare.timestamp.is_none());
    assert!(bare.tool_name.is_none());
    assert!(bare.tool_input.is_none());
    let missing = CodexAdapter::read_entry(r#"{"role":"user"}"#).unwrap();
    assert_eq!(missing.content, "");
}

#[test]
fn codex_session_from_file_text() {
    let content = "{\"role\":\"user\",\"content\":\"fix the bug\",\"timestamp\":\"2024-01-02T03:04:05Z\"}\n\ngarbage\n{\"role\":\"assistant\",\"content\":\"done\",\"timestamp\":\"2024-01-02T03:05:00Z\"}\r\n{\"role\":\"narrator\",\"content\":\"skip\"}\n";
    let adapter = CodexAdapter::new();
    let n = adapter.parse_session("rollout-1", "/h/.codex/rollout-1.jsonl", content);
    assert_eq!(n.session.id, "rollout-1");
    assert_eq!(n.session.agent, AgentType::Codex);
    assert_eq!(n.session.title, "fix the bug");
    assert_eq!(n.session.project_path, "");
    assert_eq!(n.session.file_path, "/h/.codex/rollout-1.jsonl");
    assert!(!n.session.is_active);
    assert_eq!(n.session.message_count, 2);
    assert_eq!(n.session.created_at.timestamp(), 1704164645);
    assert_eq!(n.session.updated_at.timestamp(), 1704164700);
    assert_eq!(n.messages.len(), 2);
    assert!(n.attachments.is_empty());
    for (i, m) in n.messages.iter().enumerate() {
        assert_eq!(m.sequence as usize, i);
        assert_eq!(m.session_id, "rollout-1");
        assert_eq!(m.id.len(), 36);
        let chars: Vec<char> = m.id.chars().collect();
        for (k, c) in chars.iter().enumerate() {
            if k == 8 || k == 13 || k == 18 || k == 23 {
                assert_eq!(*c, '-');
            } else {
                assert!(c.is_ascii_hexdigit() && !c.is_ascii_uppercase());
            }
        }
        assert_eq!(chars[14], '4');
        assert!(matches!(chars[19], '8' | '9' | 'a' | 'b'));
    }
    assert_ne!(n.messages[0].id, n.messages[1].id);
    assert_eq!(n.messages[1].role, MessageRole::Assistant);
    assert_eq!(n.messages[1].content, "done");
}

#[test]
fn codex_title_rules() {
    let adapter = CodexAdapter::new();
    let long = "x".repeat(150);
    let content = format!("{{\"role\":\"user\",\"content\":\"{}\"}}\n", long);
    let n = adapter.parse_session("s", "p", &content);
    assert_eq!(n.session.title, "x".repeat(100));
    let first_assistant = "{\"role\":\"assistant\",\"content\":\"a\"}\n{\"role\":\"user\",\"content\":\"b\"}";
    assert_eq!(adapter.parse_session("s", "p", first_assistant).session.title, "Untitled");
    let empty_user = "{\"role\":\"user\",\"content\":\"\"}\n{\"role\":\"user\",\"content\":\"b\"}";
    assert_eq!(adapter.parse_session("s", "p", empty_user).session.title, "Untitled");
    let none = adapter.parse_session("s", "p", "");
    assert_eq!(none.session.title, "Untitled");
    assert_eq!(none.session.message_count, 0);
    assert!(none.messages.is_empty());
}

#[test]
fn codex_build_session_uses_now_for_missing_times() {
    let e1 = CodexAdapter::read_entry(r#"{"role":"user","content":"q"}"#).unwrap();
    let e2 = CodexAdapter::read_entry(r#"{"role":"assistant","content":"a","timestamp":"2024-01-02T03:04:05Z"}"#).unwrap();
    let now = UtcTime::from_timestamp(1_000, 0).unwrap();
    let n = CodexAdapter::build_session("s", "p", &vec![e1.clone(), e2.clone()], &vec!["i1".to_string(), "i2".to_string()], now);
    assert_eq!(n.session.created_at.timestamp(), 1_000);
    assert_eq!(n.session.updated_at.timestamp(), 1704164645);
    assert_eq!(n.messages[0].id, "i1");
    assert_eq!(n.messages[1].id, "i2");
    assert_eq!(n.messages[1].sequence, 1);
    let m = CodexAdapter::build_session("s", "p", &vec![e2, e1], &vec!["a".to_string(), "b".to_string()], now);
    assert_eq!(m.session.created_at.timestamp(), 1704164645);
    assert_eq!(m.session.updated_at.timestamp(), 1_000);
}

#[test]
fn codex_adapter_basics() {
    let a = CodexAdapter::new();
    assert_eq!(a.id(), "codex");
    assert_eq!(a.name(), "Codex");
    assert_eq!(a.data_dir_name(), ".codex");
    assert_eq!(a.resume_command("abc", "/proj"), "codex --resume abc");
    assert!(!a.is_active("/x"));
    assert_eq!(a.scan_step("sessions", true, None), ScanStep::Descend);
    assert_eq!(a.scan_step(".git", true, None), ScanStep::Skip);
    assert_eq!(a.scan_step("node_modules", true, None), ScanStep::Skip);
    assert_eq!(a.scan_step("r.jsonl", false, Some("jsonl")), ScanStep::Collect);
    assert_eq!(a.scan_step(".r.jsonl", false, Some("jsonl")), ScanStep::Collect);
    assert_eq!(a.scan_step("r.json", false, Some("json")), ScanStep::Skip);
    assert_eq!(a.scan_step("README", false, None), ScanStep::Skip);
}

#[test]
fn cursor_adapter_basics() {
    let a = CursorAdapter::new();
    assert_eq!(a.id(), "cursor");
    assert_eq!(a.name(), "Cursor");
    assert_eq!(a.data_dir_name(), ".cursor");
    assert_eq!(a.resume_command("abc", "/proj"), "cursor /proj");
    assert!(!a.is_active("/x"));
    assert_eq!(a.scan_step("ws", true, None), ScanStep::Descend);
    assert_eq!(a.scan_step(".cache", true, None), ScanStep::Skip);
    assert_eq!(a.scan_step(".state.db", false, Some("db")), ScanStep::Skip);
    assert_eq!(a.scan_step("state.db", false, Some("db")), ScanStep::Collect);
    assert_eq!(a.scan_step("state.sqlite", false, Some("sqlite")), ScanStep::Collect);
    assert_eq!(a.scan_step("state.vscdb", false, Some("vscdb")), ScanStep::Skip);
    assert_eq!(a.scan_step("state", false, None), ScanStep::Skip);
}

#[test]
fn cursor_session() {
    let a = CursorAdapter::new();
    let n = a.parse_session("state", "/h/.cursor/state.db");
    assert_eq!(n.session.id, "state");
    assert_eq!(n.session.title, "Cursor Session (state)");
    assert_eq!(n.session.agent, AgentType::Cursor);
    assert_eq!(n.session.file_path, "/h/.cursor/state.db");
    assert_eq!(n.session.message_count, 0);
    assert!(n.messages.is_empty() && n.attachments.is_empty());
    let t = UtcTime::from_timestamp(5, 0).unwrap();
    let u = UtcTime::from_timestamp(9, 0).unwrap();
    let b = CursorAdapter::build_session("x", "y", t, u);
    assert_eq!((b.session.created_at.timestamp(), b.session.updated_at.timestamp()), (5, 9));
}

#[test]
fn modification_times() {
    assert_eq!(last_modified_from_secs(None).timestamp(), 0);
    assert_eq!(last_modified_from_secs(Some(1_700_000_000)).timestamp(), 1_700_000_000);
    assert_eq!(last_modified_from_secs(Some(u64::MAX)).timestamp(), -1);
    assert_eq!(last_modified_from_secs(Some(1u64 << 62)).timestamp(), 0);
    let loc = session_location(std::path::PathBuf::from("/a/b.jsonl"), Some(42));
    assert_eq!(loc.path, std::path::PathBuf::from("/a/b.jsonl"));
    assert_eq!(loc.last_modified.timestamp(), 42);
}

#[test]
fn codex_try_parse_matches_parse() {
    let adapter = CodexAdapter::new();
    let content = "{\"role\":\"user\",\"content\":\"hello\"}\n{\"role\":\"assistant\",\"content\":\"hi\"}";
    let n = adapter.try_parse_session("s", "p", content).unwrap();
    assert_eq!(n.session.title, "hello");
    assert_eq!(n.messages.len(), 2);
    assert_eq!(n.messages[1].content, "hi");
    let entries = CodexAdapter::read_entries(content);
    assert_eq!(entries.len(), 2);
    assert_eq!(entries[0].role, MessageRole::User);
}

#[test]
fn file_stems_of_session_paths() {
    assert_eq!(file_stem_text("/home/u/.codex/sessions/rollout-1.jsonl"), "rollout-1");
    assert_eq!(file_stem_text("state.vscdb"), "state");
    assert_eq!(file_stem_text("/a/b/archive.tar.gz"), "archive.tar");
    assert_eq!(file_stem_text("/a/.hidden"), ".hidden");
    assert_eq!(file_stem_text("/"), "");
    assert_eq!(file_stem_text(""), "");
}

#[test]
fn session_file_names_give_stem_and_text() {
    let path = std::path::PathBuf::from("/x/y/abc.vscdb");
    let (stem, text) = session_file_names(&path);
    assert_eq!(stem, "abc");
    assert_eq!(text, "/x/y/abc.vscdb");
}
