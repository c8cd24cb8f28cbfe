use vstd::prelude::*;
use crate::db::queries::{DbError, batch_sent, done_outcome};
use crate::db::sqlite::{Database, sqlite_execute_batch};

verus! {

/// The tables of the session index (sessions, messages, attachments) and
/// their indexes, each created where it does not exist yet.
pub const SCHEMA_TABLES_SQL: &'static str = "
        CREATE TABLE IF NOT EXISTS sessions (
            id TEXT PRIMARY KEY,
            agent TEXT NOT NULL,
            title TEXT,
            project_path TEXT,
            created_at TEXT NOT NULL,
            updated_at TEXT NOT NULL,
            file_path TEXT NOT NULL,
            is_active INTEGER NOT NULL DEFAULT 0,
            message_count INTEGER NOT NULL DEFAULT 0,
            source_hash TEXT
        );

        CREATE TABLE IF NOT EXISTS messages (
            id TEXT PRIMARY KEY,
            session_id TEXT NOT NULL REFERENCES sessions(id) ON DELETE CASCADE,
            role TEXT NOT NULL,
            content TEXT,
            timestamp TEXT,
            sequence INTEGER NOT NULL,
            tool_name TEXT,
            tool_input TEXT,
            tool_output TEXT
        );

        CREATE TABLE IF NOT EXISTS attachments (
            id TEXT PRIMARY KEY,
            message_id TEXT NOT NULL REFERENCES messages(id) ON DELETE CASCADE,
            attachment_type TEXT NOT NULL,
            path TEXT NOT NULL,
            mime_type TEXT
        );

        CREATE INDEX IF NOT EXISTS idx_sessions_agent ON sessions(agent);
        CREATE INDEX IF NOT EXISTS idx_sessions_project ON sessions(project_path);
        CREATE INDEX IF NOT EXISTS idx_sessions_updated ON sessions(updated_at DESC);
        CREATE INDEX IF NOT EXISTS idx_messages_session ON messages(session_id, sequence);
        ";

/// The full-text index of the messages, created where it does not exist yet.
pub const SCHEMA_FTS_SQL: &'static str = "
        CREATE VIRTUAL TABLE IF NOT EXISTS messages_fts USING fts5(
            content,
            tool_input,
            tool_output,
            content=messages,
            content_rowid=rowid
        );
        ";

/// Creates the tables of the session index, their indexes, and the full-text
/// index of messages, where they do not exist yet: two batches on `db`, the
/// second only when the first ran. Success exactly when every batch ran.
pub fn init_schema(db: &mut Database) -> (res: Result<(), DbError>)
    ensures
        final(db).connection() == old(db).connection(),
        final(db).calls().len() > old(db).calls().len(),
        final(db).calls().take(old(db).calls().len() as int) == old(db).calls(),
        batch_sent(final(db).calls()[old(db).calls().len() as int], SCHEMA_TABLES_SQL@),
        final(db).calls()[old(db).calls().len() as int].reply() is Changed ==> {
            &&& final(db).calls().len() == old(db).calls().len() + 2
            &&& batch_sent(final(db).calls().last(), SCHEMA_FTS_SQL@)
            &&& done_outcome(final(db).calls().last().reply(), res)
        },
        !(final(db).calls()[old(db).calls().len() as int].reply() is Changed) ==> {
            &&& final(db).calls().len() == old(db).calls().len() + 1
            &&& res is Err
        },
{
    let ghost before = db.calls();
    let first = sqlite_execute_batch(db, SCHEMA_TABLES_SQL);
    let ghost middle = db.calls();
    match first {
        Ok(()) => {},
        Err(e) => {
            return Err(DbError::Sqlite(e));
        },
    }
    let second = sqlite_execute_batch(db, SCHEMA_FTS_SQL);
    assert(db.calls().take(before.len() as int) =~= before) by {
        assert(db.calls().drop_last() == middle);
        assert(middle.drop_last() == before);
    }
    match second {
        Ok(()) => Ok(()),
        Err(e) => Err(DbError::Sqlite(e)),
    }
}

} // verus!
