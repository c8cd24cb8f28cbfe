use agent_sessions::commands;
use agent_sessions::db::queries::{
    sessions_query_statement, sqlite_outcome, stale_sessions_statement, DbError, DbQueries,
};
use agent_sessions::db::schema::init_schema;
use agent_sessions::db::sqlite::{Database, SqlValue};
use agent_sessions::models::{AgentType, Message, MessageRole, Session, SessionFilters};
use agent_sessions::time::UtcTime;
use rusqlite::Connection;

fn open_index() -> Connection {
    let conn = Connection::open_in_memory().unwrap();
    assert!(init_schema(&mut Database::new(&conn)).is_ok());
    conn
}

fn session(id: &str, agent: AgentType, title: &str, updated: i64, active: bool) -> Session {
    Session {
        id: id.to_string(),
        agent,
        title: title.to_string(),
        project_path: "/proj".to_string(),
        created_at: UtcTime::from_timestamp(updated - 100, 0).unwrap(),
        updated_at: UtcTime::from_timestamp(updated, 0).unwrap(),
        file_path: format!("/files/{}.jsonl", id),
        is_active: active,
        message_count: 3,
    }
}

fn message(id: &str, session_id: &str, seq: u32, content: &str) -> Message {
    Message {
        id: id.to_string(),
        session_id: session_id.to_string(),
        role: MessageRole::Assistant,
        content: content.to_string(),
        timestamp: UtcTime::from_timestamp(1_700_000_000 + seq as i64, 250),
        sequence: seq,
        tool_name: Some("shell".to_string()),
        tool_input: None,
        tool_output: Some("ok".to_string()),
    }
}

fn no_filters() -> SessionFilters {
    SessionFilters { agent: None, project_path: None, is_active: None, query: None }
}

#[test]
fn schema_can_be_created_twice() {
    let conn = open_index();
    assert!(init_schema(&mut Database::new(&conn)).is_ok());
}

#[test]
fn sessions_read_back_as_written() {
    let conn = open_index();
    let mut q = DbQueries::new(&conn);
    let s = session("s1", AgentType::Codex, "Title", 1_700_000_000, true);
    assert!(q.upsert_session(&s).is_ok());
    let got = q.get_sessions(&no_filters(), 0, 10).unwrap();
    assert_eq!(got.len(), 1);
    let g = &got[0];
    assert_eq!(g.id, "s1");
    assert_eq!(g.agent, AgentType::Codex);
    assert_eq!(g.title, "Title");
    assert_eq!(g.project_path, "/proj");
    assert_eq!(g.file_path, "/files/s1.jsonl");
    assert!(g.is_active);
    assert_eq!(g.message_count, 3);
    assert_eq!(g.created_at.timestamp(), 1_700_000_000 - 100);
    assert_eq!(g.updated_at.timestamp(), 1_700_000_000);
}

#[test]
fn upsert_updates_existing_session() {
    let conn = open_index();
    let mut q = DbQueries::new(&conn);
    assert!(q.upsert_session(&session("s1", AgentType::Codex, "Old", 100_000, false)).is_ok());
    assert!(q.set_source_hash("s1", "h1").is_ok());
    assert_eq!(q.get_source_hash("/files/s1.jsonl").unwrap(), Some("h1".to_string()));
    let mut newer = session("s1", AgentType::Cursor, "New", 200_000, true);
    newer.message_count = 9;
    assert!(q.upsert_session(&newer).is_ok());
    let got = q.get_sessions(&no_filters(), 0, 10).unwrap();
    assert_eq!(got.len(), 1);
    assert_eq!(got[0].title, "New");
    assert_eq!(got[0].message_count, 9);
    assert_eq!(got[0].agent, AgentType::Codex);
    assert_eq!(got[0].updated_at.timestamp(), 200_000);
    assert_eq!(got[0].created_at.timestamp(), 100_000 - 100);
    assert_eq!(q.get_source_hash("/files/s1.jsonl").unwrap(), Some("".to_string()));
    assert_eq!(q.get_source_hash("/nowhere").unwrap(), None);
}

#[test]
fn session_filters_order_and_paging() {
    let conn = open_index();
    let mut q = DbQueries::new(&conn);
    assert!(q.upsert_session(&session("a", AgentType::Codex, "alpha bug", 300_000, false)).is_ok());
    assert!(q.upsert_session(&session("b", AgentType::Cursor, "beta", 200_000, true)).is_ok());
    assert!(q.upsert_session(&session("c", AgentType::Codex, "gamma", 100_000, true)).is_ok());
    let ids = |v: Vec<Session>| v.into_iter().map(|s| s.id).collect::<Vec<_>>();
    assert_eq!(ids(q.get_sessions(&no_filters(), 0, 10).unwrap()), vec!["a", "b", "c"]);
    assert_eq!(ids(q.get_sessions(&no_filters(), 1, 1).unwrap()), vec!["b"]);
    let mut f = no_filters();
    f.agent = Some("codex".to_string());
    assert_eq!(ids(q.get_sessions(&f, 0, 10).unwrap()), vec!["a", "c"]);
    f.is_active = Some(true);
    assert_eq!(ids(q.get_sessions(&f, 0, 10).unwrap()), vec!["c"]);
    let mut g = no_filters();
    g.project_path = Some("/other".to_string());
    assert!(q.get_sessions(&g, 0, 10).unwrap().is_empty());
    // The full-text table has no session column, so SQLite refuses a listing
    // that searches it.
    let mut h = no_filters();
    h.query = Some("bug".to_string());
    assert!(q.get_sessions(&h, 0, 10).is_err());
}

#[test]
fn messages_read_back_in_order() {
    let conn = open_index();
    let mut q = DbQueries::new(&conn);
    assert!(q.upsert_session(&session("s", AgentType::Codex, "t", 1_000, false)).is_ok());
    assert!(q.insert_message(&message("m2", "s", 1, "second")).is_ok());
    assert!(q.insert_message(&message("m1", "s", 0, "first")).is_ok());
    let mut untimed = message("m3", "s", 2, "third");
    untimed.timestamp = None;
    untimed.role = MessageRole::User;
    assert!(q.insert_message(&untimed).is_ok());
    let got = q.get_messages("s", 0, 10).unwrap();
    assert_eq!(got.iter().map(|m| m.id.as_str()).collect::<Vec<_>>(), vec!["m1", "m2", "m3"]);
    assert_eq!(got[0].content, "first");
    assert_eq!(got[0].role, MessageRole::Assistant);
    assert_eq!(got[0].tool_name.as_deref(), Some("shell"));
    assert_eq!(got[0].tool_input, None);
    assert_eq!(got[0].tool_output.as_deref(), Some("ok"));
    let t = got[0].timestamp.unwrap();
    assert_eq!((t.timestamp(), t.subsec_nanos()), (1_700_000_000, 250));
    assert!(got[2].timestamp.is_none());
    assert_eq!(got[2].role, MessageRole::User);
    assert_eq!(q.get_messages("s", 1, 1).unwrap()[0].id, "m2");
    assert!(q.delete_session_messages("s").is_ok());
    assert!(q.get_messages("s", 0, 10).unwrap().is_empty());
}

#[test]
fn full_text_search() {
    let conn = open_index();
    let mut q = DbQueries::new(&conn);
    assert!(q.upsert_session(&session("s", AgentType::Codex, "t", 1_000, false)).is_ok());
    assert!(q.insert_message(&message("m1", "s", 0, "the parser panics")).is_ok());
    assert!(q.insert_message(&message("m2", "s", 1, "all good")).is_ok());
    assert!(q.rebuild_fts().is_ok());
    let found = q.search_messages("parser", 10).unwrap();
    assert_eq!(found.len(), 1);
    assert_eq!(found[0].id, "m1");
    let mut f = no_filters();
    f.query = Some("panics".to_string());
    assert!(q.get_sessions(&f, 0, 10).is_err());
}

#[test]
fn activity_and_stale_sessions() {
    let conn = open_index();
    let mut q = DbQueries::new(&conn);
    assert!(q.upsert_session(&session("a", AgentType::Codex, "a", 3_000, false)).is_ok());
    assert!(q.upsert_session(&session("b", AgentType::Codex, "b", 2_000, false)).is_ok());
    assert!(q.upsert_session(&session("c", AgentType::Codex, "c", 1_000, false)).is_ok());
    assert!(q.set_session_active("b", true).is_ok());
    assert_eq!(q.get_active_session_ids().unwrap(), vec!["b".to_string()]);
    let kept = vec!["/files/a.jsonl".to_string(), "/files/c.jsonl".to_string()];
    assert_eq!(q.mark_stale_sessions(&kept).unwrap(), 1);
    assert_eq!(q.get_sessions(&no_filters(), 0, 10).unwrap().len(), 2);
    assert_eq!(q.mark_stale_sessions(&[]).unwrap(), 2);
    assert!(q.get_sessions(&no_filters(), 0, 10).unwrap().is_empty());
}

#[test]
fn unreadable_rows_are_left_out() {
    let conn = open_index();
    let mut q = DbQueries::new(&conn);
    conn.execute_batch(
        "INSERT INTO sessions (id, agent, title, project_path, created_at, updated_at, file_path, is_active, message_count)
         VALUES ('x', 'gemini', 'ok', '/p', 'not a time', '2024-01-02T03:04:05Z', '/f', 0, 1);
         INSERT INTO sessions (id, agent, title, project_path, created_at, updated_at, file_path, is_active, message_count)
         VALUES ('y', 'codex', NULL, '/p', 'x', 'y', '/g', 0, 1);
         INSERT INTO sessions (id, agent, title, project_path, created_at, updated_at, file_path, is_active, message_count)
         VALUES ('z', 'codex', 'neg', '/p', 'x', 'y', '/h', 0, -1);
         INSERT INTO messages (id, session_id, role, content, timestamp, sequence) VALUES ('m', 'x', 'bot', NULL, 'never', 0);",
    )
    .unwrap();
    let got = q.get_sessions(&no_filters(), 0, 10).unwrap();
    assert_eq!(got.len(), 1);
    assert_eq!(got[0].agent, AgentType::ClaudeCode);
    assert_eq!(got[0].created_at.timestamp(), 0);
    assert_eq!(got[0].updated_at.timestamp(), 1704164645);
    let msgs = q.get_messages("x", 0, 10).unwrap();
    assert_eq!(msgs.len(), 1);
    assert_eq!(msgs[0].role, MessageRole::User);
    assert_eq!(msgs[0].content, "");
    assert!(msgs[0].timestamp.is_none());
}

#[test]
fn session_listing_statement() {
    let (sql, params) = sessions_query_statement(&no_filters(), 5, 20);
    assert_eq!(sql, "SELECT id, agent, title, project_path, created_at, updated_at, file_path, is_active, message_count FROM sessions WHERE 1=1 ORDER BY updated_at DESC LIMIT 20 OFFSET 5");
    assert!(params.is_empty());
    let f = SessionFilters {
        agent: None,
        project_path: Some("/p".to_string()),
        is_active: Some(false),
        query: Some("q".to_string()),
    };
    let (sql, params) = sessions_query_statement(&f, 0, 1);
    assert_eq!(sql, "SELECT id, agent, title, project_path, created_at, updated_at, file_path, is_active, message_count FROM sessions WHERE 1=1 AND project_path = ?1 AND is_active = ?2 AND id IN (SELECT session_id FROM messages_fts WHERE messages_fts MATCH ?3 UNION SELECT s.id FROM sessions s WHERE s.title LIKE '%' || ?3 || '%') ORDER BY updated_at DESC LIMIT 1 OFFSET 0");
    assert_eq!(params, vec![SqlValue::Text("/p".to_string()), SqlValue::Integer(0), SqlValue::Text("q".to_string())]);
}

#[test]
fn stale_statement() {
    let (sql, params) = stale_sessions_statement(&[]);
    assert_eq!(sql, "DELETE FROM sessions WHERE 1=1");
    assert!(params.is_empty());
    let paths = vec!["a".to_string(), "b".to_string(), "c".to_string()];
    let (sql, params) = stale_sessions_statement(&paths);
    assert_eq!(sql, "DELETE FROM sessions WHERE file_path NOT IN (?1, ?2, ?3)");
    assert_eq!(params.len(), 3);
    assert_eq!(params[2], SqlValue::Text("c".to_string()));
}

#[test]
fn interface_commands_are_empty() {
    assert!(commands::get_sessions(None, None, None).unwrap().is_empty());
    assert!(commands::get_session_messages("s".to_string(), None, None).unwrap().is_empty());
    assert!(commands::search_sessions("q".to_string(), None).unwrap().is_empty());
    assert_eq!(commands::get_resume_command("s".to_string()).unwrap(), "");
    assert!(commands::launch_resume("s".to_string()).is_ok());
    assert!(commands::get_active_sessions().unwrap().is_empty());
    assert!(commands::reindex_all().is_ok());
}

#[test]
fn sqlite_replies_become_outcomes() {
    assert!(matches!(sqlite_outcome::<usize>(Ok(3)), Ok(3)));
    assert!(matches!(
        sqlite_outcome::<usize>(Err(rusqlite::Error::QueryReturnedNoRows)),
        Err(DbError::Sqlite(rusqlite::Error::QueryReturnedNoRows))
    ));
}
