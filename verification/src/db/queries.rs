use vstd::prelude::*;
use vstd::string::*;
use vstd::utf8::encode_utf8;
use crate::db::sqlite::{
    SqlCell, SqlCellView, SqlValue, SqlValueView, cell_i32, cell_opt_string, cell_string,
    cell_u32, cells_view, read_i32, read_opt_string, read_string, read_u32, rows_view,
    sql_values_view, sqlite_execute, sqlite_execute_batch, sqlite_prepare, sqlite_query_rows,
    Database, SqlCall, SqlReply, appended,
};
use crate::models::{
    AgentType, Message, MessageRole, MessageView, Session, SessionFilters, SessionFiltersView,
    SessionView, message_views, opt_text, session_views,
};
use crate::text::{decimal, decimal_string, digit_char, string_views};
use crate::time::{UtcTime, four_digit_year, rfc3339_instant, rfc3339_text};

verus! {

/// The time a stored text stands for: the instant it writes in RFC 3339
/// form, else the Unix epoch.
pub open spec fn stored_time(text: Option<Seq<char>>) -> (i64, u32) {
    match text {
        Some(t) => match rfc3339_instant(t) {
            Some(x) => x,
            None => (0i64, 0u32),
        },
        None => (0i64, 0u32),
    }
}

/// The session that a row of `id, agent, title, project_path, created_at,
/// updated_at, file_path, is_active, message_count` stands for: `None` when
/// a column that must be read cannot be; an unknown agent reads as ClaudeCode,
/// an unreadable time as the epoch.
pub open spec fn session_of_row(c: Seq<SqlCellView>) -> Option<SessionView> {
    if cell_string(c[0]) is Some && cell_string(c[1]) is Some && cell_string(c[2]) is Some
        && cell_string(c[3]) is Some && cell_string(c[6]) is Some && cell_i32(c[7]) is Some
        && cell_u32(c[8]) is Some {
        Some(
            SessionView {
                id: cell_string(c[0])->0,
                agent: match AgentType::from_name(cell_string(c[1])->0) {
                    Some(a) => a,
                    None => AgentType::ClaudeCode,
                },
                title: cell_string(c[2])->0,
                project_path: cell_string(c[3])->0,
                created_at: stored_time(cell_string(c[4])),
                updated_at: stored_time(cell_string(c[5])),
                file_path: cell_string(c[6])->0,
                is_active: cell_i32(c[7])->0 != 0,
                message_count: cell_u32(c[8])->0,
            },
        )
    } else {
        None
    }
}

/// The time of a message stored as an optional text: none when absent, and
/// none when the text is not RFC 3339.
pub open spec fn stored_opt_time(text: Option<Seq<char>>) -> Option<(i64, u32)> {
    match text {
        Some(t) => rfc3339_instant(t),
        None => None,
    }
}

/// The message that a row of `id, session_id, role, content, timestamp,
/// sequence, tool_name, tool_input, tool_output` stands for: `None` when a
/// column cannot be read; an unknown role reads as User, a NULL content as
/// empty.
pub open spec fn message_of_row(c: Seq<SqlCellView>) -> Option<MessageView> {
    if cell_string(c[0]) is Some && cell_string(c[1]) is Some && cell_string(c[2]) is Some
        && cell_opt_string(c[3]) is Some && cell_opt_string(c[4]) is Some && cell_u32(c[5]) is Some
        && cell_opt_string(c[6]) is Some && cell_opt_string(c[7]) is Some && cell_opt_string(c[8]) is Some {
        Some(
            MessageView {
                id: cell_string(c[0])->0,
                session_id: cell_string(c[1])->0,
                role: match MessageRole::from_name(cell_string(c[2])->0) {
                    Some(r) => r,
                    None => MessageRole::User,
                },
                content: match cell_opt_string(c[3])->0 {
                    Some(t) => t,
                    None => Seq::empty(),
                },
                timestamp: stored_opt_time(cell_opt_string(c[4])->0),
                sequence: cell_u32(c[5])->0,
                tool_name: cell_opt_string(c[6])->0,
                tool_input: cell_opt_string(c[7])->0,
                tool_output: cell_opt_string(c[8])->0,
            },
        )
    } else {
        None
    }
}

/// The values of a list of rows that each make one, in order; rows that
/// cannot be read, or make none, are left out.
pub open spec fn sessions_of_rows(rows: Seq<Option<Seq<SqlCellView>>>) -> Seq<SessionView>
    decreases rows.len(),
{
    if rows.len() == 0 {
        Seq::empty()
    } else {
        let prev = sessions_of_rows(rows.drop_last());
        match rows.last() {
            Some(c) => match session_of_row(c) {
                Some(s) => prev.push(s),
                None => prev,
            },
            None => prev,
        }
    }
}

pub open spec fn messages_of_rows(rows: Seq<Option<Seq<SqlCellView>>>) -> Seq<MessageView>
    decreases rows.len(),
{
    if rows.len() == 0 {
        Seq::empty()
    } else {
        let prev = messages_of_rows(rows.drop_last());
        match rows.last() {
            Some(c) => match message_of_row(c) {
                Some(m) => prev.push(m),
                None => prev,
            },
            None => prev,
        }
    }
}

pub open spec fn ids_of_rows(rows: Seq<Option<Seq<SqlCellView>>>) -> Seq<Seq<char>>
    decreases rows.len(),
{
    if rows.len() == 0 {
        Seq::empty()
    } else {
        let prev = ids_of_rows(rows.drop_last());
        match rows.last() {
            Some(c) => match cell_string(c[0]) {
                Some(s) => prev.push(s),
                None => prev,
            },
            None => prev,
        }
    }
}

/// Reading rows `a` and then rows `b` lists the sessions of `a` followed by
/// those of `b`: no row's session depends on the rows around it.
pub proof fn lemma_sessions_of_rows_concat(
    a: Seq<Option<Seq<SqlCellView>>>,
    b: Seq<Option<Seq<SqlCellView>>>,
)
    ensures
        sessions_of_rows(a + b) == sessions_of_rows(a) + sessions_of_rows(b),
    decreases b.len(),
{
    if b.len() == 0 {
        assert(a + b =~= a);
        assert(sessions_of_rows(a) + sessions_of_rows(b) =~= sessions_of_rows(a));
    } else {
        lemma_sessions_of_rows_concat(a, b.drop_last());
        assert((a + b).drop_last() =~= a + b.drop_last());
        assert((a + b).last() == b.last());
    }
}

/// A single row is listed exactly when it can be read, as the session it
/// reads as, whatever the values of its fields; a row SQLite failed to give,
/// or one that cannot be read, lists nothing.
pub proof fn lemma_sessions_of_one_row(r: Option<Seq<SqlCellView>>)
    ensures
        match r {
            Some(c) => match session_of_row(c) {
                Some(x) => sessions_of_rows(seq![r]) == seq![x],
                None => sessions_of_rows(seq![r]).len() == 0,
            },
            None => sessions_of_rows(seq![r]).len() == 0,
        },
{
    let rows = seq![r];
    assert(rows.drop_last() =~= Seq::<Option<Seq<SqlCellView>>>::empty());
    assert(rows.last() == r);
    assert(sessions_of_rows(rows.drop_last()).len() == 0);
    match r {
        Some(c) => match session_of_row(c) {
            Some(x) => {
                assert(sessions_of_rows(rows) == sessions_of_rows(rows.drop_last()).push(x));
                assert(sessions_of_rows(rows) =~= seq![x]);
            },
            None => {},
        },
        None => {},
    }
}

/// Reading rows `a` and then rows `b` gives the messages of `a` followed by
/// those of `b`.
pub proof fn lemma_messages_of_rows_concat(
    a: Seq<Option<Seq<SqlCellView>>>,
    b: Seq<Option<Seq<SqlCellView>>>,
)
    ensures
        messages_of_rows(a + b) == messages_of_rows(a) + messages_of_rows(b),
    decreases b.len(),
{
    if b.len() == 0 {
        assert(a + b =~= a);
        assert(messages_of_rows(a) + messages_of_rows(b) =~= messages_of_rows(a));
    } else {
        lemma_messages_of_rows_concat(a, b.drop_last());
        assert((a + b).drop_last() =~= a + b.drop_last());
        assert((a + b).last() == b.last());
    }
}

/// A single row gives a message exactly when it can be read, as the message
/// it reads as, whatever its role or other fields.
pub proof fn lemma_messages_of_one_row(r: Option<Seq<SqlCellView>>)
    ensures
        match r {
            Some(c) => match message_of_row(c) {
                Some(x) => messages_of_rows(seq![r]) == seq![x],
                None => messages_of_rows(seq![r]).len() == 0,
            },
            None => messages_of_rows(seq![r]).len() == 0,
        },
{
    let rows = seq![r];
    assert(rows.drop_last() =~= Seq::<Option<Seq<SqlCellView>>>::empty());
    assert(rows.last() == r);
    assert(messages_of_rows(rows.drop_last()).len() == 0);
    match r {
        Some(c) => match message_of_row(c) {
            Some(x) => {
                assert(messages_of_rows(rows) == messages_of_rows(rows.drop_last()).push(x));
                assert(messages_of_rows(rows) =~= seq![x]);
            },
            None => {},
        },
        None => {},
    }
}

/// Reading rows `a` and then rows `b` gives the ids of `a` followed by those
/// of `b`.
pub proof fn lemma_ids_of_rows_concat(
    a: Seq<Option<Seq<SqlCellView>>>,
    b: Seq<Option<Seq<SqlCellView>>>,
)
    ensures
        ids_of_rows(a + b) == ids_of_rows(a) + ids_of_rows(b),
    decreases b.len(),
{
    if b.len() == 0 {
        assert(a + b =~= a);
        assert(ids_of_rows(a) + ids_of_rows(b) =~= ids_of_rows(a));
    } else {
        lemma_ids_of_rows_concat(a, b.drop_last());
        assert((a + b).drop_last() =~= a + b.drop_last());
        assert((a + b).last() == b.last());
    }
}

/// A single row gives an id exactly when its first column reads as text.
pub proof fn lemma_ids_of_one_row(r: Option<Seq<SqlCellView>>)
    ensures
        match r {
            Some(c) => match cell_string(c[0]) {
                Some(x) => ids_of_rows(seq![r]) == seq![x],
                None => ids_of_rows(seq![r]).len() == 0,
            },
            None => ids_of_rows(seq![r]).len() == 0,
        },
{
    let rows = seq![r];
    assert(rows.drop_last() =~= Seq::<Option<Seq<SqlCellView>>>::empty());
    assert(rows.last() == r);
    assert(ids_of_rows(rows.drop_last()).len() == 0);
    match r {
        Some(c) => match cell_string(c[0]) {
            Some(x) => {
                assert(ids_of_rows(rows) == ids_of_rows(rows.drop_last()).push(x));
                assert(ids_of_rows(rows) =~= seq![x]);
            },
            None => {},
        },
        None => {},
    }
}

/// The first column of the first row, read as text; `None` when there is no
/// row or it cannot be read.
pub open spec fn first_text_of_rows(rows: Seq<Option<Seq<SqlCellView>>>) -> Option<Seq<char>> {
    if rows.len() > 0 {
        match rows[0] {
            Some(c) => cell_string(c[0]),
            None => None,
        }
    } else {
        None
    }
}

fn stored_time_of(c: &SqlCell) -> (res: UtcTime)
    ensures
        res@ == stored_time(cell_string(c@)),
{
    match read_string(c) {
        Some(t) => match UtcTime::parse_rfc3339(t.as_str()) {
            Some(x) => x,
            None => UtcTime::epoch(),
        },
        None => UtcTime::epoch(),
    }
}

/// Reads a session from a row of its nine columns.
pub fn session_from_row(cells: &Vec<SqlCell>) -> (res: Option<Session>)
    requires
        cells.len() == 9,
    ensures
        match res {
            Some(s) => session_of_row(cells_view(cells@)) == Some(s@),
            None => session_of_row(cells_view(cells@)) is None,
        },
{
    let ghost c = cells_view(cells@);
    assert(forall|i: int| 0 <= i < 9 ==> c[i] == (#[trigger] cells@[i])@);
    let id = match read_string(&cells[0]) {
        Some(v) => v,
        None => {
            return None;
        },
    };
    let agent_text = match read_string(&cells[1]) {
        Some(v) => v,
        None => {
            return None;
        },
    };
    let title = match read_string(&cells[2]) {
        Some(v) => v,
        None => {
            return None;
        },
    };
    let project_path = match read_string(&cells[3]) {
        Some(v) => v,
        None => {
            return None;
        },
    };
    let created_at = stored_time_of(&cells[4]);
    let updated_at = stored_time_of(&cells[5]);
    let file_path = match read_string(&cells[6]) {
        Some(v) => v,
        None => {
            return None;
        },
    };
    let active = match read_i32(&cells[7]) {
        Some(v) => v,
        None => {
            return None;
        },
    };
    let message_count = match read_u32(&cells[8]) {
        Some(v) => v,
        None => {
            return None;
        },
    };
    let agent = match AgentType::from_str(agent_text.as_str()) {
        Some(a) => a,
        None => AgentType::ClaudeCode,
    };
    Some(
        Session {
            id,
            agent,
            title,
            project_path,
            created_at,
            updated_at,
            file_path,
            is_active: active != 0,
            message_count,
        },
    )
}

/// Reads a message from a row of its nine columns.
pub fn message_from_row(cells: &Vec<SqlCell>) -> (res: Option<Message>)
    requires
        cells.len() == 9,
    ensures
        match res {
            Some(m) => message_of_row(cells_view(cells@)) == Some(m@),
            None => message_of_row(cells_view(cells@)) is None,
        },
{
    let ghost c = cells_view(cells@);
    assert(forall|i: int| 0 <= i < 9 ==> c[i] == (#[trigger] cells@[i])@);
    let id = match read_string(&cells[0]) {
        Some(v) => v,
        None => {
            return None;
        },
    };
    let session_id = match read_string(&cells[1]) {
        Some(v) => v,
        None => {
            return None;
        },
    };
    let role_text = match read_string(&cells[2]) {
        Some(v) => v,
        None => {
            return None;
        },
    };
    let content = match read_opt_string(&cells[3]) {
        Some(v) => v,
        None => {
            return None;
        },
    };
    let timestamp_text = match read_opt_string(&cells[4]) {
        Some(v) => v,
        None => {
            return None;
        },
    };
    let sequence = match read_u32(&cells[5]) {
        Some(v) => v,
        None => {
            return None;
        },
    };
    let tool_name = match read_opt_string(&cells[6]) {
        Some(v) => v,
        None => {
            return None;
        },
    };
    let tool_input = match read_opt_string(&cells[7]) {
        Some(v) => v,
        None => {
            return None;
        },
    };
    let tool_output = match read_opt_string(&cells[8]) {
        Some(v) => v,
        None => {
            return None;
        },
    };
    let role = match MessageRole::from_str(role_text.as_str()) {
        Some(r) => r,
        None => MessageRole::User,
    };
    let content = match content {
        Some(t) => t,
        None => String::new(),
    };
    let timestamp = match timestamp_text {
        Some(t) => UtcTime::parse_rfc3339(t.as_str()),
        None => None,
    };
    Some(
        Message {
            id,
            session_id,
            role,
            content,
            timestamp,
            sequence,
            tool_name,
            tool_input,
            tool_output,
        },
    )
}


/// Reads the sessions of a list of rows of nine columns each.
pub fn sessions_from_rows(rows: &Vec<Option<Vec<SqlCell>>>) -> (res: Vec<Session>)
    requires
        forall|i: int| 0 <= i < rows.len() ==> (#[trigger] rows@[i] matches Some(c) ==> c.len() == 9),
    ensures
        session_views(res@) == sessions_of_rows(rows_view(rows@)),
{
    let ghost rv = rows_view(rows@);
    let mut out: Vec<Session> = Vec::new();
    for i in 0..rows.len()
        invariant
            rv == rows_view(rows@),
            forall|j: int| 0 <= j < rows.len() ==> (#[trigger] rows@[j] matches Some(c) ==> c.len() == 9),
            session_views(out@) =~= sessions_of_rows(rv.take(i as int)),
    {
        assert(rv.take(i + 1).drop_last() =~= rv.take(i as int));
        assert(rv.take(i + 1).last() == rv[i as int]);
        match &rows[i] {
            Some(cells) => {
                match session_from_row(cells) {
                    Some(s) => {
                        out.push(s);
                    },
                    None => {},
                }
            },
            None => {},
        }
        assert(session_views(out@) =~= sessions_of_rows(rv.take(i + 1)));
    }
    assert(rv.take(rows.len() as int) =~= rv);
    out
}

/// Reads the messages of a list of rows of nine columns each.
pub fn messages_from_rows(rows: &Vec<Option<Vec<SqlCell>>>) -> (res: Vec<Message>)
    requires
        forall|i: int| 0 <= i < rows.len() ==> (#[trigger] rows@[i] matches Some(c) ==> c.len() == 9),
    ensures
        message_views(res@) == messages_of_rows(rows_view(rows@)),
{
    let ghost rv = rows_view(rows@);
    let mut out: Vec<Message> = Vec::new();
    for i in 0..rows.len()
        invariant
            rv == rows_view(rows@),
            forall|j: int| 0 <= j < rows.len() ==> (#[trigger] rows@[j] matches Some(c) ==> c.len() == 9),
            message_views(out@) =~= messages_of_rows(rv.take(i as int)),
    {
        assert(rv.take(i + 1).drop_last() =~= rv.take(i as int));
        assert(rv.take(i + 1).last() == rv[i as int]);
        match &rows[i] {
            Some(cells) => {
                match message_from_row(cells) {
                    Some(m) => {
                        out.push(m);
                    },
                    None => {},
                }
            },
            None => {},
        }
        assert(message_views(out@) =~= messages_of_rows(rv.take(i + 1)));
    }
    assert(rv.take(rows.len() as int) =~= rv);
    out
}

/// Reads the first column of each row as text.
pub fn ids_from_rows(rows: &Vec<Option<Vec<SqlCell>>>) -> (res: Vec<String>)
    requires
        forall|i: int| 0 <= i < rows.len() ==> (#[trigger] rows@[i] matches Some(c) ==> c.len() == 1),
    ensures
        string_views(res@) == ids_of_rows(rows_view(rows@)),
{
    let ghost rv = rows_view(rows@);
    let mut out: Vec<String> = Vec::new();
    for i in 0..rows.len()
        invariant
            rv == rows_view(rows@),
            forall|j: int| 0 <= j < rows.len() ==> (#[trigger] rows@[j] matches Some(c) ==> c.len() == 1),
            string_views(out@) =~= ids_of_rows(rv.take(i as int)),
    {
        assert(rv.take(i + 1).drop_last() =~= rv.take(i as int));
        assert(rv.take(i + 1).last() == rv[i as int]);
        match &rows[i] {
            Some(cells) => {
                match read_string(&cells[0]) {
                    Some(s) => {
                        out.push(s);
                    },
                    None => {},
                }
            },
            None => {},
        }
        assert(string_views(out@) =~= ids_of_rows(rv.take(i + 1)));
    }
    assert(rv.take(rows.len() as int) =~= rv);
    out
}

/// Reads the first column of the first row as text.
pub fn first_text_from_rows(rows: &Vec<Option<Vec<SqlCell>>>) -> (res: Option<String>)
    requires
        forall|i: int| 0 <= i < rows.len() ==> (#[trigger] rows@[i] matches Some(c) ==> c.len() == 1),
    ensures
        opt_text(res) == first_text_of_rows(rows_view(rows@)),
{
    if rows.len() == 0 {
        return None;
    }
    match &rows[0] {
        Some(cells) => read_string(&cells[0]),
        None => None,
    }
}


pub open spec fn text_or_null(t: Option<Seq<char>>) -> SqlValueView {
    match t {
        Some(x) => SqlValueView::Text(x),
        None => SqlValueView::Null,
    }
}

/// The values bound to the numbered parameters of the statement that stores
/// a session: its fields in column order, times in RFC 3339 form, the
/// active flag as 1 or 0, and an empty source hash.
pub open spec fn upsert_session_values(s: SessionView) -> Seq<SqlValueView> {
    seq![
        SqlValueView::Text(s.id),
        SqlValueView::Text(s.agent.name()),
        SqlValueView::Text(s.title),
        SqlValueView::Text(s.project_path),
        SqlValueView::Text(rfc3339_text(s.created_at.0, s.created_at.1)),
        SqlValueView::Text(rfc3339_text(s.updated_at.0, s.updated_at.1)),
        SqlValueView::Text(s.file_path),
        SqlValueView::Integer(if s.is_active { 1 } else { 0 }),
        SqlValueView::Integer(s.message_count as i64),
        SqlValueView::Text(Seq::empty()),
    ]
}

/// The values bound to the numbered parameters of the statement that stores
/// a message: its fields in column order, the time in RFC 3339 form, absent
/// values as NULL.
pub open spec fn insert_message_values(m: MessageView) -> Seq<SqlValueView> {
    seq![
        SqlValueView::Text(m.id),
        SqlValueView::Text(m.session_id),
        SqlValueView::Text(m.role.name()),
        SqlValueView::Text(m.content),
        match m.timestamp {
            Some(t) => SqlValueView::Text(rfc3339_text(t.0, t.1)),
            None => SqlValueView::Null,
        },
        SqlValueView::Integer(m.sequence as i64),
        text_or_null(m.tool_name),
        text_or_null(m.tool_input),
        text_or_null(m.tool_output),
    ]
}

fn text_value(t: &Option<String>) -> (res: SqlValue)
    ensures
        res@ == text_or_null(opt_text(*t)),
{
    match t {
        Some(x) => SqlValue::Text(x.clone()),
        None => SqlValue::Null,
    }
}

/// The values that store `session`. Once stored, the columns its first nine
/// values fill read back as the same session, when both its times lie in
/// four-digit years.
pub fn upsert_session_params(session: &Session) -> (res: Vec<SqlValue>)
    ensures
        sql_values_view(res@) == upsert_session_values(session@),
        four_digit_year(session@.created_at) && four_digit_year(session@.updated_at)
            ==> session_of_row(stored_row(sql_values_view(res@).take(9))) == Some(session@),
{
    let mut v: Vec<SqlValue> = Vec::new();
    v.push(SqlValue::Text(session.id.clone()));
    v.push(SqlValue::Text(session.agent.as_str().to_string()));
    v.push(SqlValue::Text(session.title.clone()));
    v.push(SqlValue::Text(session.project_path.clone()));
    v.push(SqlValue::Text(session.created_at.to_rfc3339()));
    v.push(SqlValue::Text(session.updated_at.to_rfc3339()));
    v.push(SqlValue::Text(session.file_path.clone()));
    v.push(SqlValue::Integer(if session.is_active { 1 } else { 0 }));
    v.push(SqlValue::Integer(session.message_count as i64));
    v.push(SqlValue::Text(String::new()));
    assert(sql_values_view(v@) =~= upsert_session_values(session@));
    proof {
        lemma_session_row_round_trip(session@);
    }
    v
}

/// The values that store `msg`. Once stored, the columns they fill read
/// back as the same message, when its time, if any, lies in a four-digit
/// year.
pub fn insert_message_params(msg: &Message) -> (res: Vec<SqlValue>)
    ensures
        sql_values_view(res@) == insert_message_values(msg@),
        (msg@.timestamp matches Some(t) ==> four_digit_year(t)) ==> message_of_row(
            stored_row(sql_values_view(res@)),
        ) == Some(msg@),
{
    let mut v: Vec<SqlValue> = Vec::new();
    v.push(SqlValue::Text(msg.id.clone()));
    v.push(SqlValue::Text(msg.session_id.clone()));
    v.push(SqlValue::Text(msg.role.as_str().to_string()));
    v.push(SqlValue::Text(msg.content.clone()));
    v.push(
        match &msg.timestamp {
            Some(t) => SqlValue::Text(t.to_rfc3339()),
            None => SqlValue::Null,
        },
    );
    v.push(SqlValue::Integer(msg.sequence as i64));
    v.push(text_value(&msg.tool_name));
    v.push(text_value(&msg.tool_input));
    v.push(text_value(&msg.tool_output));
    assert(sql_values_view(v@) =~= insert_message_values(msg@));
    proof {
        lemma_message_row_round_trip(msg@);
    }
    v
}

pub open spec fn sessions_select() -> Seq<char> {
    "SELECT id, agent, title, project_path, created_at, updated_at, file_path, is_active, message_count FROM sessions WHERE 1=1"@
}

/// The clause and value a filter on the agent adds, numbered `k`.
pub open spec fn agent_clause(f: SessionFiltersView, k: nat) -> (Seq<char>, Seq<SqlValueView>) {
    match f.agent {
        Some(a) => (" AND agent = ?"@ + decimal(k), seq![SqlValueView::Text(a)]),
        None => (Seq::empty(), Seq::empty()),
    }
}

/// The clause and value a filter on the project adds, numbered `k`.
pub open spec fn project_clause(f: SessionFiltersView, k: nat) -> (Seq<char>, Seq<SqlValueView>) {
    match f.project_path {
        Some(p) => (" AND project_path = ?"@ + decimal(k), seq![SqlValueView::Text(p)]),
        None => (Seq::empty(), Seq::empty()),
    }
}

/// The clause and value a filter on activity adds, numbered `k`.
pub open spec fn active_clause(f: SessionFiltersView, k: nat) -> (Seq<char>, Seq<SqlValueView>) {
    match f.is_active {
        Some(a) => (
            " AND is_active = ?"@ + decimal(k),
            seq![SqlValueView::Integer(if a { 1 } else { 0 })],
        ),
        None => (Seq::empty(), Seq::empty()),
    }
}

/// The clause and value a search query adds, numbered `k`: sessions with a
/// message that matches the full-text query, or whose title holds it.
pub open spec fn query_clause(f: SessionFiltersView, k: nat) -> (Seq<char>, Seq<SqlValueView>) {
    match f.query {
        Some(q) => (
            " AND id IN (SELECT session_id FROM messages_fts WHERE messages_fts MATCH ?"@ + decimal(
                k,
            ) + " UNION SELECT s.id FROM sessions s WHERE s.title LIKE '%' || ?"@ + decimal(k)
                + " || '%')"@,
            seq![SqlValueView::Text(q)],
        ),
        None => (Seq::empty(), Seq::empty()),
    }
}

/// The statement that lists sessions, and the values of its parameters: the
/// filters that are set, each with the next parameter number, newest first,
/// `limit` rows from `offset`.
pub open spec fn sessions_query(f: SessionFiltersView, offset: u32, limit: u32) -> (
    Seq<char>,
    Seq<SqlValueView>,
) {
    let a = agent_clause(f, 1);
    let p = project_clause(f, a.1.len() + 1);
    let ac = active_clause(f, a.1.len() + p.1.len() + 1);
    let q = query_clause(f, a.1.len() + p.1.len() + ac.1.len() + 1);
    (
        sessions_select() + a.0 + p.0 + ac.0 + q.0 + " ORDER BY updated_at DESC"@ + " LIMIT "@
            + decimal(limit as nat) + " OFFSET "@ + decimal(offset as nat),
        a.1 + p.1 + ac.1 + q.1,
    )
}

/// Builds the statement that lists sessions.
pub fn sessions_query_statement(filters: &SessionFilters, offset: u32, limit: u32) -> (res: (
    String,
    Vec<SqlValue>,
))
    ensures
        (res.0@, sql_values_view(res.1@)) == sessions_query(filters@, offset, limit),
{
    let ghost f = filters@;
    let mut sql = "SELECT id, agent, title, project_path, created_at, updated_at, file_path, is_active, message_count FROM sessions WHERE 1=1".to_string();
    let mut params: Vec<SqlValue> = Vec::new();
    let mut idx: u64 = 1;
    let ghost a = agent_clause(f, 1);
    match &filters.agent {
        Some(agent) => {
            sql.append(" AND agent = ?");
            sql.append(decimal_string(idx).as_str());
            params.push(SqlValue::Text(agent.clone()));
            idx = idx + 1;
        },
        None => {},
    }
    assert(sql@ == sessions_select() + a.0);
    assert(sql_values_view(params@) =~= a.1);
    let ghost p = project_clause(f, a.1.len() + 1);
    match &filters.project_path {
        Some(project) => {
            sql.append(" AND project_path = ?");
            sql.append(decimal_string(idx).as_str());
            params.push(SqlValue::Text(project.clone()));
            idx = idx + 1;
        },
        None => {},
    }
    assert(sql@ == sessions_select() + a.0 + p.0);
    assert(sql_values_view(params@) =~= a.1 + p.1);
    let ghost ac = active_clause(f, a.1.len() + p.1.len() + 1);
    match filters.is_active {
        Some(active) => {
            sql.append(" AND is_active = ?");
            sql.append(decimal_string(idx).as_str());
            params.push(SqlValue::Integer(if active { 1 } else { 0 }));
            idx = idx + 1;
        },
        None => {},
    }
    assert(sql@ == sessions_select() + a.0 + p.0 + ac.0);
    assert(sql_values_view(params@) =~= a.1 + p.1 + ac.1);
    let ghost q = query_clause(f, a.1.len() + p.1.len() + ac.1.len() + 1);
    match &filters.query {
        Some(query) => {
            let k = decimal_string(idx);
            sql.append(" AND id IN (SELECT session_id FROM messages_fts WHERE messages_fts MATCH ?");
            sql.append(k.as_str());
            sql.append(" UNION SELECT s.id FROM sessions s WHERE s.title LIKE '%' || ?");
            sql.append(k.as_str());
            sql.append(" || '%')");
            params.push(SqlValue::Text(query.clone()));
        },
        None => {},
    }
    assert(sql@ == sessions_select() + a.0 + p.0 + ac.0 + q.0);
    assert(sql_values_view(params@) =~= a.1 + p.1 + ac.1 + q.1);
    sql.append(" ORDER BY updated_at DESC");
    sql.append(" LIMIT ");
    sql.append(decimal_string(limit as u64).as_str());
    sql.append(" OFFSET ");
    sql.append(decimal_string(offset as u64).as_str());
    (sql, params)
}

/// How many filters are set.
pub open spec fn filters_set(f: SessionFiltersView) -> nat {
    (if f.agent is Some { 1nat } else { 0nat }) + (if f.project_path is Some { 1nat } else { 0nat })
        + (if f.is_active is Some { 1nat } else { 0nat }) + (if f.query is Some { 1nat } else { 0nat })
}

/// A session listing binds one value per filter that is set, in the order
/// agent, project, activity, query.
pub proof fn lemma_sessions_query_binds_each_filter(f: SessionFiltersView, offset: u32, limit: u32)
    ensures
        sessions_query(f, offset, limit).1.len() == filters_set(f),
{
}

/// `?1, ?2, ..., ?n`.
pub open spec fn placeholder_list(n: nat) -> Seq<char>
    decreases n,
{
    if n == 0 {
        Seq::empty()
    } else if n == 1 {
        "?"@ + decimal(1)
    } else {
        placeholder_list((n - 1) as nat) + ", "@ + "?"@ + decimal(n)
    }
}

/// The statement that deletes the sessions whose file is not among `n`
/// active paths (all sessions when there are none).
pub open spec fn stale_sessions_sql(n: nat) -> Seq<char> {
    if n == 0 {
        "DELETE FROM sessions WHERE 1=1"@
    } else {
        "DELETE FROM sessions WHERE file_path NOT IN ("@ + placeholder_list(n) + ")"@
    }
}

/// How many parameter marks (`?`) a statement holds.
pub open spec fn marks(s: Seq<char>) -> nat
    decreases s.len(),
{
    if s.len() == 0 {
        0
    } else {
        marks(s.drop_last()) + if s.last() == '?' {
            1nat
        } else {
            0nat
        }
    }
}

proof fn lemma_marks_concat(a: Seq<char>, b: Seq<char>)
    ensures
        marks(a + b) == marks(a) + marks(b),
    decreases b.len(),
{
    if b.len() == 0 {
        assert(a + b =~= a);
    } else {
        lemma_marks_concat(a, b.drop_last());
        assert((a + b).drop_last() =~= a + b.drop_last());
    }
}

proof fn lemma_no_marks(s: Seq<char>)
    requires
        forall|i: int| 0 <= i < s.len() ==> s[i] != '?',
    ensures
        marks(s) == 0,
    decreases s.len(),
{
    if s.len() > 0 {
        lemma_no_marks(s.drop_last());
    }
}

proof fn lemma_decimal_has_no_marks(n: nat)
    ensures
        forall|i: int| 0 <= i < decimal(n).len() ==> #[trigger] decimal(n)[i] != '?',
    decreases n,
{
    let d = (n % 10) as int;
    assert(digit_char(d) != '?') by {
        if d == 0 { assert(digit_char(0) == '0'); }
        else if d == 1 { assert(digit_char(1) == '1'); }
        else if d == 2 { assert(digit_char(2) == '2'); }
        else if d == 3 { assert(digit_char(3) == '3'); }
        else if d == 4 { assert(digit_char(4) == '4'); }
        else if d == 5 { assert(digit_char(5) == '5'); }
        else if d == 6 { assert(digit_char(6) == '6'); }
        else if d == 7 { assert(digit_char(7) == '7'); }
        else if d == 8 { assert(digit_char(8) == '8'); }
        else { assert(digit_char(9) == '9'); }
    }
    if n >= 10 {
        lemma_decimal_has_no_marks(n / 10);
        assert forall|i: int| 0 <= i < decimal(n).len() implies #[trigger] decimal(n)[i] != '?' by {
            if i < decimal(n / 10).len() {
                assert(decimal(n)[i] == decimal(n / 10)[i]);
            }
        }
    }
}

proof fn lemma_placeholder_marks(n: nat)
    ensures
        marks(placeholder_list(n)) == n,
    decreases n,
{
    reveal_strlit("?");
    reveal_strlit(", ");
    lemma_decimal_has_no_marks(n);
    lemma_no_marks(decimal(n));
    assert(marks("?"@) == 1) by {
        assert("?"@.len() == 1);
        assert("?"@.last() == '?');
        lemma_no_marks("?"@.drop_last());
    }
    assert(marks(", "@) == 0) by {
        lemma_no_marks(", "@);
    }
    if n == 1 {
        lemma_marks_concat("?"@, decimal(1));
    } else if n > 1 {
        lemma_placeholder_marks((n - 1) as nat);
        lemma_marks_concat(placeholder_list((n - 1) as nat), ", "@);
        lemma_marks_concat(placeholder_list((n - 1) as nat) + ", "@, "?"@);
        lemma_marks_concat(placeholder_list((n - 1) as nat) + ", "@ + "?"@, decimal(n));
    }
}

/// The statement that deletes stale sessions names exactly as many
/// parameters as there are active paths to bind: none when there are none,
/// and one mark for each path otherwise, so every path is bound and none is
/// left over.
pub proof fn lemma_stale_sessions_marks(n: nat)
    ensures
        marks(stale_sessions_sql(n)) == n,
{
    let whole = "DELETE FROM sessions WHERE 1=1"@;
    let head = "DELETE FROM sessions WHERE file_path NOT IN ("@;
    let tail = ")"@;
    reveal_strlit("DELETE FROM sessions WHERE 1=1");
    reveal_strlit("DELETE FROM sessions WHERE file_path NOT IN (");
    reveal_strlit(")");
    lemma_no_marks(whole);
    lemma_no_marks(head);
    lemma_no_marks(tail);
    if n > 0 {
        lemma_placeholder_marks(n);
        lemma_marks_concat(head, placeholder_list(n));
        lemma_marks_concat(head + placeholder_list(n), tail);
    }
}

pub open spec fn text_values(v: Seq<Seq<char>>) -> Seq<SqlValueView> {
    v.map_values(|t: Seq<char>| SqlValueView::Text(t))
}

/// Builds the statement that deletes the sessions whose file is not among
/// `active_paths`, and the values of its parameters: the paths in order.
pub fn stale_sessions_statement(active_paths: &[String]) -> (res: (String, Vec<SqlValue>))
    ensures
        res.0@ == stale_sessions_sql(active_paths@.len()),
        sql_values_view(res.1@) == text_values(string_views(active_paths@)),
        marks(res.0@) == res.1.len(),
{
    proof {
        lemma_stale_sessions_marks(active_paths@.len());
    }
    let n = active_paths.len();
    let mut params: Vec<SqlValue> = Vec::new();
    for i in 0..n
        invariant
            n == active_paths@.len(),
            sql_values_view(params@) =~= text_values(string_views(active_paths@.take(i as int))),
    {
        let ghost before = params@;
        let t = active_paths[i].clone();
        params.push(SqlValue::Text(t));
        assert(active_paths@.take(i + 1) =~= active_paths@.take(i as int).push(active_paths@[i as int]));
        assert(string_views(active_paths@.take(i + 1)) =~= string_views(active_paths@.take(i as int)).push(active_paths@[i as int]@));
        assert(sql_values_view(params@) =~= sql_values_view(before).push(SqlValueView::Text(t@)));
    }
    assert(active_paths@.take(n as int) =~= active_paths@);
    if n == 0 {
        return ("DELETE FROM sessions WHERE 1=1".to_string(), params);
    }
    let mut sql = "DELETE FROM sessions WHERE file_path NOT IN (".to_string();
    for i in 0..n
        invariant
            n == active_paths@.len(),
            n > 0,
            sql@ == "DELETE FROM sessions WHERE file_path NOT IN ("@ + placeholder_list(i as nat),
    {
        if i > 0 {
            sql.append(", ");
        }
        sql.append("?");
        sql.append(decimal_string((i + 1) as u64).as_str());
        assert(i == 0 ==> placeholder_list(0) =~= Seq::<char>::empty());
    }
    sql.append(")");
    (sql, params)
}


/// Reads the source hash of the session stored for a file.
pub const SOURCE_HASH_SQL: &'static str = "SELECT source_hash FROM sessions WHERE file_path = ?1";

/// Stores a session, or updates the stored one with the same id.
pub const UPSERT_SESSION_SQL: &'static str = "INSERT INTO sessions (id, agent, title, project_path, created_at, updated_at, file_path, is_active, message_count, source_hash)
             VALUES (?1, ?2, ?3, ?4, ?5, ?6, ?7, ?8, ?9, ?10)
             ON CONFLICT(id) DO UPDATE SET
                title = excluded.title,
                project_path = excluded.project_path,
                updated_at = excluded.updated_at,
                is_active = excluded.is_active,
                message_count = excluded.message_count,
                source_hash = excluded.source_hash";

/// Records the source hash of a session.
pub const SET_SOURCE_HASH_SQL: &'static str = "UPDATE sessions SET source_hash = ?1 WHERE id = ?2";

/// Deletes the messages of a session.
pub const DELETE_SESSION_MESSAGES_SQL: &'static str = "DELETE FROM messages WHERE session_id = ?1";

/// Stores a message.
pub const INSERT_MESSAGE_SQL: &'static str = "INSERT INTO messages (id, session_id, role, content, timestamp, sequence, tool_name, tool_input, tool_output)
             VALUES (?1, ?2, ?3, ?4, ?5, ?6, ?7, ?8, ?9)";

/// Reads a page of the messages of a session, in order.
pub const MESSAGES_PAGE_SQL: &'static str = "SELECT id, session_id, role, content, timestamp, sequence, tool_name, tool_input, tool_output
             FROM messages WHERE session_id = ?1 ORDER BY sequence ASC LIMIT ?2 OFFSET ?3";

/// Reads the messages that match a full-text query, best first.
pub const SEARCH_MESSAGES_SQL: &'static str = "SELECT m.id, m.session_id, m.role, m.content, m.timestamp, m.sequence, m.tool_name, m.tool_input, m.tool_output
             FROM messages m
             INNER JOIN messages_fts fts ON m.rowid = fts.rowid
             WHERE messages_fts MATCH ?1
             ORDER BY rank
             LIMIT ?2";

/// Reads the ids of the sessions marked active.
pub const ACTIVE_SESSION_IDS_SQL: &'static str = "SELECT id FROM sessions WHERE is_active = 1";

/// Marks a session active or not.
pub const SET_SESSION_ACTIVE_SQL: &'static str = "UPDATE sessions SET is_active = ?1 WHERE id = ?2";

/// Rebuilds the full-text index of the messages.
pub const REBUILD_FTS_SQL: &'static str = "INSERT INTO messages_fts(messages_fts) VALUES('rebuild');";

/// A call that changed the database answered with `r`: success exactly when
/// SQLite ran the statement.
pub open spec fn done_outcome(reply: SqlReply, r: Result<(), DbError>) -> bool {
    match reply {
        SqlReply::Changed(_) => r is Ok,
        _ => r is Err,
    }
}

/// A call that changed the database answered with `r`: the number of rows
/// changed when SQLite ran the statement, else an error.
pub open spec fn changed_outcome(reply: SqlReply, r: Result<usize, DbError>) -> bool {
    match reply {
        SqlReply::Changed(n) => r == Ok::<usize, DbError>(n),
        _ => r is Err,
    }
}

/// A query answered with `r`: the rows SQLite gave when it ran, else an
/// error.
pub open spec fn rows_outcome(reply: SqlReply, r: Result<Vec<Option<Vec<SqlCell>>>, DbError>) -> bool {
    match reply {
        SqlReply::Rows(rows) => r matches Ok(v) && rows_view(v@) == rows,
        _ => r is Err,
    }
}

/// The call handed SQLite the statement `sql` with `params` to run.
pub open spec fn sent(c: SqlCall, sql: Seq<char>, params: Seq<SqlValueView>) -> bool {
    c.method() is Execute && c.sql() == sql && c.params() == params
}

/// The call handed SQLite the batch `sql`, without values.
pub open spec fn batch_sent(c: SqlCall, sql: Seq<char>) -> bool {
    c.method() is Batch && c.sql() == sql && c.params() == Seq::<SqlValueView>::empty()
}

/// The call handed SQLite the query `sql` with `params`: when SQLite
/// refused to prepare it, only the text was handed over.
pub open spec fn query_sent(c: SqlCall, sql: Seq<char>, params: Seq<SqlValueView>) -> bool {
    &&& c.method() is Query
    &&& c.sql() == sql
    &&& if c.reply() is Refused {
        c.params() == Seq::<SqlValueView>::empty()
    } else {
        c.params() == params
    }
}

/// A failure reported by SQLite.
#[derive(Debug)]
pub enum DbError {
    Sqlite(rusqlite::Error),
}

/// What the library makes of SQLite's reply to a call: its value on success,
/// and its error, kept as it is, on failure.
pub fn sqlite_outcome<T>(reply: Result<T, rusqlite::Error>) -> (res: Result<T, DbError>)
    ensures
        match reply {
            Ok(v) => res == Ok::<T, DbError>(v),
            Err(e) => res == Err::<T, DbError>(DbError::Sqlite(e)),
        },
{
    match reply {
        Ok(v) => Ok(v),
        Err(e) => Err(DbError::Sqlite(e)),
    }
}

/// The queries of the session index on one SQLite connection.
pub struct DbQueries<'a> {
    db: Database<'a>,
}

impl<'a> DbQueries<'a> {
    /// The connection the queries run on.
    pub closed spec fn connection(&self) -> &'a rusqlite::Connection {
        self.db.connection()
    }

    /// The calls made to SQLite so far, in order.
    pub closed spec fn calls(&self) -> Seq<SqlCall> {
        self.db.calls()
    }

    /// The call made last.
    pub open spec fn last_call(&self) -> SqlCall {
        self.calls().last()
    }

    /// `after` is `before` on the same connection with exactly one more call.
    pub open spec fn one_call(before: &Self, after: &Self) -> bool {
        after.connection() == before.connection() && appended(before.calls(), after.calls())
    }

    /// Queries on `conn`, with no calls made yet.
    pub fn new(conn: &'a rusqlite::Connection) -> (res: Self)
        ensures
            res.connection() == conn,
            res.calls() == Seq::<SqlCall>::empty(),
    {
        DbQueries { db: Database::new(conn) }
    }

    /// Runs a statement that changes the database.
    fn execute(&mut self, sql: &str, params: &Vec<SqlValue>) -> (res: Result<usize, DbError>)
        ensures
            DbQueries::one_call(old(self), final(self)),
            sent(final(self).last_call(), sql@, sql_values_view(params@)),
            changed_outcome(final(self).last_call().reply(), res),
    {
        let reply = sqlite_execute(&mut self.db, sql, params);
        sqlite_outcome(reply)
    }

    /// Runs a statement that changes the database, keeping only whether it
    /// ran.
    fn run(&mut self, sql: &str, params: &Vec<SqlValue>) -> (res: Result<(), DbError>)
        ensures
            DbQueries::one_call(old(self), final(self)),
            sent(final(self).last_call(), sql@, sql_values_view(params@)),
            done_outcome(final(self).last_call().reply(), res),
    {
        match self.execute(sql, params) {
            Ok(_) => Ok(()),
            Err(e) => Err(e),
        }
    }

    /// Runs a query whose rows have `ncols` columns; a failure to prepare or
    /// to run it is an error.
    fn query(&mut self, sql: &str, params: &Vec<SqlValue>, ncols: usize) -> (res: Result<
        Vec<Option<Vec<SqlCell>>>,
        DbError,
    >)
        ensures
            DbQueries::one_call(old(self), final(self)),
            query_sent(final(self).last_call(), sql@, sql_values_view(params@)),
            rows_outcome(final(self).last_call().reply(), res),
            res matches Ok(rows) ==> forall|i: int|
                0 <= i < rows.len() ==> (#[trigger] rows@[i] matches Some(c) ==> c.len() == ncols),
    {
        let mut stmt = match sqlite_prepare(&mut self.db, sql) {
            Ok(s) => s,
            Err(e) => {
                return Err(DbError::Sqlite(e));
            },
        };
        let reply = sqlite_query_rows(&mut self.db, &mut stmt, params, ncols);
        sqlite_outcome(reply)
    }

    /// The source hash stored for the session at `file_path`: `None` when
    /// there is no such session, its hash cannot be read, or the query fails
    /// once prepared; an error only when SQLite cannot prepare it.
    pub fn get_source_hash(&mut self, file_path: &str) -> (res: Result<Option<String>, DbError>)
        ensures
            DbQueries::one_call(old(self), final(self)),
            query_sent(final(self).last_call(), SOURCE_HASH_SQL@, seq![SqlValueView::Text(file_path@)]),
            match final(self).last_call().reply() {
                SqlReply::Rows(rows) => res matches Ok(h) && opt_text(h) == first_text_of_rows(rows),
                SqlReply::Refused => res is Err,
                _ => res matches Ok(h) && h is None,
            },
    {
        let mut params: Vec<SqlValue> = Vec::new();
        params.push(SqlValue::Text(file_path.to_string()));
        assert(sql_values_view(params@) =~= seq![SqlValueView::Text(file_path@)]);
        let mut stmt = match sqlite_prepare(&mut self.db, SOURCE_HASH_SQL) {
            Ok(s) => s,
            Err(e) => {
                return Err(DbError::Sqlite(e));
            },
        };
        match sqlite_query_rows(&mut self.db, &mut stmt, &params, 1) {
            Ok(rows) => Ok(first_text_from_rows(&rows)),
            Err(_) => Ok(None),
        }
    }

    /// Stores a session, or updates the stored one with the same id (its
    /// title, project, update time, activity and message count); the source
    /// hash is cleared.
    pub fn upsert_session(&mut self, session: &Session) -> (res: Result<(), DbError>)
        ensures
            DbQueries::one_call(old(self), final(self)),
            sent(final(self).last_call(), UPSERT_SESSION_SQL@, upsert_session_values(session@)),
            done_outcome(final(self).last_call().reply(), res),
            four_digit_year(session@.created_at) && four_digit_year(session@.updated_at)
                ==> session_of_row(stored_row(final(self).last_call().params().take(9))) == Some(
                session@,
            ),
    {
        let params = upsert_session_params(session);
        self.run(UPSERT_SESSION_SQL, &params)
    }

    /// Records the source hash of a session.
    pub fn set_source_hash(&mut self, session_id: &str, hash: &str) -> (res: Result<(), DbError>)
        ensures
            DbQueries::one_call(old(self), final(self)),
            sent(
                final(self).last_call(),
                SET_SOURCE_HASH_SQL@,
                seq![SqlValueView::Text(hash@), SqlValueView::Text(session_id@)],
            ),
            done_outcome(final(self).last_call().reply(), res),
    {
        let mut params: Vec<SqlValue> = Vec::new();
        params.push(SqlValue::Text(hash.to_string()));
        params.push(SqlValue::Text(session_id.to_string()));
        assert(sql_values_view(params@) =~= seq![
            SqlValueView::Text(hash@),
            SqlValueView::Text(session_id@),
        ]);
        self.run(SET_SOURCE_HASH_SQL, &params)
    }

    /// Deletes the stored messages of a session.
    pub fn delete_session_messages(&mut self, session_id: &str) -> (res: Result<(), DbError>)
        ensures
            DbQueries::one_call(old(self), final(self)),
            sent(
                final(self).last_call(),
                DELETE_SESSION_MESSAGES_SQL@,
                seq![SqlValueView::Text(session_id@)],
            ),
            done_outcome(final(self).last_call().reply(), res),
    {
        let mut params: Vec<SqlValue> = Vec::new();
        params.push(SqlValue::Text(session_id.to_string()));
        assert(sql_values_view(params@) =~= seq![SqlValueView::Text(session_id@)]);
        self.run(DELETE_SESSION_MESSAGES_SQL, &params)
    }

    /// Stores a message.
    pub fn insert_message(&mut self, msg: &Message) -> (res: Result<(), DbError>)
        ensures
            DbQueries::one_call(old(self), final(self)),
            sent(final(self).last_call(), INSERT_MESSAGE_SQL@, insert_message_values(msg@)),
            done_outcome(final(self).last_call().reply(), res),
            (msg@.timestamp matches Some(t) ==> four_digit_year(t)) ==> message_of_row(
                stored_row(final(self).last_call().params()),
            ) == Some(msg@),
    {
        let params = insert_message_params(msg);
        self.run(INSERT_MESSAGE_SQL, &params)
    }

    /// The stored sessions that pass `filters`, most recently updated first,
    /// `limit` of them from `offset`; rows that cannot be read are left out.
    /// The filter values are bound as parameters; only the two numbers are
    /// written into the statement.
    pub fn get_sessions(&mut self, filters: &SessionFilters, offset: u32, limit: u32) -> (res:
        Result<Vec<Session>, DbError>)
        ensures
            DbQueries::one_call(old(self), final(self)),
            query_sent(
                final(self).last_call(),
                sessions_query(filters@, offset, limit).0,
                sessions_query(filters@, offset, limit).1,
            ),
            match final(self).last_call().reply() {
                SqlReply::Rows(rows) => res matches Ok(v) && session_views(v@) == sessions_of_rows(
                    rows,
                ),
                _ => res is Err,
            },
    {
        let (sql, params) = sessions_query_statement(filters, offset, limit);
        match self.query(sql.as_str(), &params, 9) {
            Ok(r) => Ok(sessions_from_rows(&r)),
            Err(e) => Err(e),
        }
    }

    /// The stored messages of a session in order, `limit` of them from
    /// `offset`; rows that cannot be read are left out.
    pub fn get_messages(&mut self, session_id: &str, offset: u32, limit: u32) -> (res: Result<
        Vec<Message>,
        DbError,
    >)
        ensures
            DbQueries::one_call(old(self), final(self)),
            query_sent(
                final(self).last_call(),
                MESSAGES_PAGE_SQL@,
                seq![
                    SqlValueView::Text(session_id@),
                    SqlValueView::Integer(limit as i64),
                    SqlValueView::Integer(offset as i64),
                ],
            ),
            match final(self).last_call().reply() {
                SqlReply::Rows(rows) => res matches Ok(v) && message_views(v@) == messages_of_rows(
                    rows,
                ),
                _ => res is Err,
            },
    {
        let mut params: Vec<SqlValue> = Vec::new();
        params.push(SqlValue::Text(session_id.to_string()));
        params.push(SqlValue::Integer(limit as i64));
        params.push(SqlValue::Integer(offset as i64));
        assert(sql_values_view(params@) =~= seq![
            SqlValueView::Text(session_id@),
            SqlValueView::Integer(limit as i64),
            SqlValueView::Integer(offset as i64),
        ]);
        match self.query(MESSAGES_PAGE_SQL, &params, 9) {
            Ok(r) => Ok(messages_from_rows(&r)),
            Err(e) => Err(e),
        }
    }

    /// Deletes the stored sessions whose file is not among `active_paths`
    /// (all of them when it is empty); the number deleted.
    pub fn mark_stale_sessions(&mut self, active_paths: &[String]) -> (res: Result<u64, DbError>)
        ensures
            DbQueries::one_call(old(self), final(self)),
            sent(
                final(self).last_call(),
                stale_sessions_sql(active_paths@.len()),
                text_values(string_views(active_paths@)),
            ),
            match final(self).last_call().reply() {
                SqlReply::Changed(n) => res == Ok::<u64, DbError>(n as u64),
                _ => res is Err,
            },
    {
        let (sql, params) = stale_sessions_statement(active_paths);
        match self.execute(sql.as_str(), &params) {
            Ok(n) => Ok(n as u64),
            Err(e) => Err(e),
        }
    }

    /// The stored messages that match a full-text query, best first, at most
    /// `limit`; rows that cannot be read are left out.
    pub fn search_messages(&mut self, query: &str, limit: u32) -> (res: Result<Vec<Message>, DbError>)
        ensures
            DbQueries::one_call(old(self), final(self)),
            query_sent(
                final(self).last_call(),
                SEARCH_MESSAGES_SQL@,
                seq![SqlValueView::Text(query@), SqlValueView::Integer(limit as i64)],
            ),
            match final(self).last_call().reply() {
                SqlReply::Rows(rows) => res matches Ok(v) && message_views(v@) == messages_of_rows(
                    rows,
                ),
                _ => res is Err,
            },
    {
        let mut params: Vec<SqlValue> = Vec::new();
        params.push(SqlValue::Text(query.to_string()));
        params.push(SqlValue::Integer(limit as i64));
        assert(sql_values_view(params@) =~= seq![
            SqlValueView::Text(query@),
            SqlValueView::Integer(limit as i64),
        ]);
        match self.query(SEARCH_MESSAGES_SQL, &params, 9) {
            Ok(r) => Ok(messages_from_rows(&r)),
            Err(e) => Err(e),
        }
    }

    /// The ids of the sessions marked active.
    pub fn get_active_session_ids(&mut self) -> (res: Result<Vec<String>, DbError>)
        ensures
            DbQueries::one_call(old(self), final(self)),
            query_sent(final(self).last_call(), ACTIVE_SESSION_IDS_SQL@, Seq::<SqlValueView>::empty()),
            match final(self).last_call().reply() {
                SqlReply::Rows(rows) => res matches Ok(v) && string_views(v@) == ids_of_rows(rows),
                _ => res is Err,
            },
    {
        let params: Vec<SqlValue> = Vec::new();
        assert(sql_values_view(params@) =~= Seq::<SqlValueView>::empty());
        match self.query(ACTIVE_SESSION_IDS_SQL, &params, 1) {
            Ok(r) => Ok(ids_from_rows(&r)),
            Err(e) => Err(e),
        }
    }

    /// Marks a session active or not.
    pub fn set_session_active(&mut self, session_id: &str, active: bool) -> (res: Result<
        (),
        DbError,
    >)
        ensures
            DbQueries::one_call(old(self), final(self)),
            sent(
                final(self).last_call(),
                SET_SESSION_ACTIVE_SQL@,
                seq![
                    SqlValueView::Integer(if active { 1 } else { 0 }),
                    SqlValueView::Text(session_id@),
                ],
            ),
            done_outcome(final(self).last_call().reply(), res),
    {
        let mut params: Vec<SqlValue> = Vec::new();
        params.push(SqlValue::Integer(if active { 1 } else { 0 }));
        params.push(SqlValue::Text(session_id.to_string()));
        assert(sql_values_view(params@) =~= seq![
            SqlValueView::Integer(if active { 1 } else { 0 }),
            SqlValueView::Text(session_id@),
        ]);
        self.run(SET_SESSION_ACTIVE_SQL, &params)
    }

    /// Rebuilds the full-text index of the messages.
    pub fn rebuild_fts(&mut self) -> (res: Result<(), DbError>)
        ensures
            DbQueries::one_call(old(self), final(self)),
            batch_sent(final(self).last_call(), REBUILD_FTS_SQL@),
            done_outcome(final(self).last_call().reply(), res),
    {
        let reply = sqlite_execute_batch(&mut self.db, REBUILD_FTS_SQL);
        sqlite_outcome(reply)
    }
}


/// The column SQLite holds for a value bound to a parameter: text is kept
/// as its UTF-8 bytes.
pub open spec fn stored_cell(v: SqlValueView) -> SqlCellView {
    match v {
        SqlValueView::Null => SqlCellView::Null,
        SqlValueView::Integer(i) => SqlCellView::Integer(i),
        SqlValueView::Text(t) => SqlCellView::Text(encode_utf8(t)),
    }
}

pub open spec fn stored_row(values: Seq<SqlValueView>) -> Seq<SqlCellView> {
    values.map_values(|v: SqlValueView| stored_cell(v))
}

/// A session stored by `upsert_session` reads back, from the columns its
/// first nine values fill, as the same session; only its two times come
/// back as whatever is read from the RFC 3339 text written for them.
pub proof fn lemma_session_row_round_trip(s: SessionView)
    ensures
        session_of_row(stored_row(upsert_session_values(s).take(9))) == Some(
            SessionView {
                created_at: stored_time(Some(rfc3339_text(s.created_at.0, s.created_at.1))),
                updated_at: stored_time(Some(rfc3339_text(s.updated_at.0, s.updated_at.1))),
                ..s
            },
        ),
{
    broadcast use vstd::utf8::encode_utf8_valid_utf8, vstd::utf8::encode_utf8_decode_utf8;

    AgentType::lemma_name_round_trip(s.agent);
    let row = stored_row(upsert_session_values(s).take(9));
    assert(row.len() == 9);
    assert(cell_string(row[0]) == Some(s.id));
    assert(cell_string(row[1]) == Some(s.agent.name()));
    assert(cell_string(row[2]) == Some(s.title));
    assert(cell_string(row[3]) == Some(s.project_path));
    assert(cell_string(row[4]) == Some(rfc3339_text(s.created_at.0, s.created_at.1)));
    assert(cell_string(row[5]) == Some(rfc3339_text(s.updated_at.0, s.updated_at.1)));
    assert(cell_string(row[6]) == Some(s.file_path));
    assert(cell_i32(row[7]) == Some(if s.is_active { 1i32 } else { 0i32 }));
    assert(cell_u32(row[8]) == Some(s.message_count));
}

/// A message stored by `insert_message` reads back, from the columns its
/// values fill, as the same message; only its time comes back as whatever
/// is read from the RFC 3339 text written for it.
pub proof fn lemma_message_row_round_trip(m: MessageView)
    ensures
        message_of_row(stored_row(insert_message_values(m))) == Some(
            MessageView {
                timestamp: match m.timestamp {
                    Some(t) => rfc3339_instant(rfc3339_text(t.0, t.1)),
                    None => None,
                },
                ..m
            },
        ),
{
    broadcast use vstd::utf8::encode_utf8_valid_utf8, vstd::utf8::encode_utf8_decode_utf8;

    MessageRole::lemma_name_round_trip(m.role);
    let row = stored_row(insert_message_values(m));
    assert(row.len() == 9);
    assert(cell_string(row[0]) == Some(m.id));
    assert(cell_string(row[1]) == Some(m.session_id));
    assert(cell_string(row[2]) == Some(m.role.name()));
    assert(cell_opt_string(row[3]) == Some(Some(m.content)));
    assert(cell_u32(row[5]) == Some(m.sequence));
    assert(cell_opt_string(row[6]) == Some(m.tool_name));
    assert(cell_opt_string(row[7]) == Some(m.tool_input));
    assert(cell_opt_string(row[8]) == Some(m.tool_output));
    match m.timestamp {
        Some(t) => {
            assert(cell_opt_string(row[4]) == Some(Some(rfc3339_text(t.0, t.1))));
        },
        None => {
            assert(cell_opt_string(row[4]) == Some(None::<Seq<char>>));
        },
    }
}

} // verus!
