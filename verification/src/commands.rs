use vstd::prelude::*;
use crate::models::{Message, Session, SessionFilters};

verus! {

/// Lists sessions for the interface; no sessions are listed yet.
pub fn get_sessions(_filters: Option<SessionFilters>, _offset: Option<u32>, _limit: Option<u32>) -> (res:
    Result<Vec<Session>, String>)
    ensures
        res matches Ok(v) && v.len() == 0,
{
    Ok(Vec::new())
}

/// Lists the messages of a session for the interface; none are listed yet.
pub fn get_session_messages(_session_id: String, _offset: Option<u32>, _limit: Option<u32>) -> (res:
    Result<Vec<Message>, String>)
    ensures
        res matches Ok(v) && v.len() == 0,
{
    Ok(Vec::new())
}

/// Searches sessions for the interface; nothing is found yet.
pub fn search_sessions(_query: String, _limit: Option<u32>) -> (res: Result<Vec<Session>, String>)
    ensures
        res matches Ok(v) && v.len() == 0,
{
    Ok(Vec::new())
}

/// The command that resumes a session, for the interface; empty for now.
pub fn get_resume_command(_session_id: String) -> (res: Result<String, String>)
    ensures
        res matches Ok(s) && s@.len() == 0,
{
    Ok(String::new())
}

/// Resumes a session from the interface; it does nothing yet.
pub fn launch_resume(_session_id: String) -> (res: Result<(), String>)
    ensures
        res is Ok,
{
    Ok(())
}

/// The running sessions, for the interface; none are listed yet.
pub fn get_active_sessions() -> (res: Result<Vec<Session>, String>)
    ensures
        res matches Ok(v) && v.len() == 0,
{
    Ok(Vec::new())
}

/// Rebuilds the index from the interface; it does nothing yet.
pub fn reindex_all() -> (res: Result<(), String>)
    ensures
        res is Ok,
{
    Ok(())
}

} // verus!
