use vstd::prelude::*;
use vstd::utf8::{decode_utf8, valid_utf8};

verus! {

#[verifier::external_type_specification]
#[verifier::external_body]
pub struct ExConnection(rusqlite::Connection);

#[verifier::external_type_specification]
#[verifier::external_body]
pub struct ExSqliteError(rusqlite::Error);

#[verifier::external_type_specification]
#[verifier::external_body]
pub struct ExStatement<'conn>(rusqlite::Statement<'conn>);

#[verifier::external_type_specification]
#[verifier::external_body]
pub struct ExSqliteValue(rusqlite::types::Value);

#[verifier::external_type_specification]
#[verifier::external_body]
pub struct ExRow<'stmt>(rusqlite::Row<'stmt>);

/// A value bound to a parameter of an SQL statement.
#[derive(Clone, Debug, PartialEq, Eq)]
pub enum SqlValue {
    Null,
    Integer(i64),
    Text(String),
}

pub enum SqlValueView {
    Null,
    Integer(i64),
    Text(Seq<char>),
}

impl View for SqlValue {
    type V = SqlValueView;

    open spec fn view(&self) -> SqlValueView {
        match self {
            SqlValue::Null => SqlValueView::Null,
            SqlValue::Integer(i) => SqlValueView::Integer(*i),
            SqlValue::Text(s) => SqlValueView::Text(s@),
        }
    }
}

pub open spec fn sql_values_view(v: Seq<SqlValue>) -> Seq<SqlValueView> {
    v.map_values(|x: SqlValue| x@)
}

/// One column of a result row as SQLite holds it; `Missing` when the
/// column could not be read at all.
#[derive(Clone, Debug)]
pub enum SqlCell {
    Null,
    Integer(i64),
    Real,
    Text(Vec<u8>),
    Blob(Vec<u8>),
    Missing,
}

pub enum SqlCellView {
    Null,
    Integer(i64),
    Real,
    Text(Seq<u8>),
    Blob(Seq<u8>),
    Missing,
}

impl View for SqlCell {
    type V = SqlCellView;

    open spec fn view(&self) -> SqlCellView {
        match self {
            SqlCell::Null => SqlCellView::Null,
            SqlCell::Integer(i) => SqlCellView::Integer(*i),
            SqlCell::Real => SqlCellView::Real,
            SqlCell::Text(b) => SqlCellView::Text(b@),
            SqlCell::Blob(b) => SqlCellView::Blob(b@),
            SqlCell::Missing => SqlCellView::Missing,
        }
    }
}

pub open spec fn cells_view(v: Seq<SqlCell>) -> Seq<SqlCellView> {
    v.map_values(|x: SqlCell| x@)
}

pub open spec fn rows_view(v: Seq<Option<Vec<SqlCell>>>) -> Seq<Option<Seq<SqlCellView>>> {
    v.map_values(
        |r: Option<Vec<SqlCell>>|
            match r {
                Some(c) => Some(cells_view(c@)),
                None => None,
            },
    )
}

/// A column read as `String` (rusqlite's `FromSql for String`): only text
/// that is valid UTF-8.
pub open spec fn cell_string(c: SqlCellView) -> Option<Seq<char>> {
    match c {
        SqlCellView::Text(b) => if valid_utf8(b) {
            Some(decode_utf8(b))
        } else {
            None
        },
        _ => None,
    }
}

/// A column read as `Option<String>`: NULL is `None`, else as a `String`.
pub open spec fn cell_opt_string(c: SqlCellView) -> Option<Option<Seq<char>>> {
    match c {
        SqlCellView::Null => Some(None),
        _ => match cell_string(c) {
            Some(s) => Some(Some(s)),
            None => None,
        },
    }
}

/// A column read as `i32`: an integer in range.
pub open spec fn cell_i32(c: SqlCellView) -> Option<i32> {
    match c {
        SqlCellView::Integer(i) => if i32::MIN <= i <= i32::MAX {
            Some(i as i32)
        } else {
            None
        },
        _ => None,
    }
}

/// A column read as `u32`: an integer in range.
pub open spec fn cell_u32(c: SqlCellView) -> Option<u32> {
    match c {
        SqlCellView::Integer(i) => if 0 <= i <= u32::MAX {
            Some(i as u32)
        } else {
            None
        },
        _ => None,
    }
}

/// `std::str::from_utf8`: text exactly when the bytes are valid UTF-8, and
/// then the characters they encode.
#[verifier::external_body]
fn utf8_text(bytes: &[u8]) -> (res: Option<String>)
    ensures
        res is Some <==> valid_utf8(bytes@),
        res matches Some(s) ==> s@ == decode_utf8(bytes@),
{
    match std::str::from_utf8(bytes) {
        Ok(s) => Some(s.to_string()),
        Err(_) => None,
    }
}

pub fn read_string(c: &SqlCell) -> (res: Option<String>)
    ensures
        match res {
            Some(s) => cell_string(c@) == Some(s@),
            None => cell_string(c@) is None,
        },
{
    match c {
        SqlCell::Text(b) => utf8_text(b.as_slice()),
        _ => None,
    }
}

pub fn read_opt_string(c: &SqlCell) -> (res: Option<Option<String>>)
    ensures
        match res {
            Some(Some(s)) => cell_opt_string(c@) == Some(Some(s@)),
            Some(None) => cell_opt_string(c@) == Some(None::<Seq<char>>),
            None => cell_opt_string(c@) is None,
        },
{
    match c {
        SqlCell::Null => Some(None),
        _ => match read_string(c) {
            Some(s) => Some(Some(s)),
            None => None,
        },
    }
}

pub fn read_i32(c: &SqlCell) -> (res: Option<i32>)
    ensures
        res == cell_i32(c@),
{
    match c {
        SqlCell::Integer(i) => if i32::MIN as i64 <= *i && *i <= i32::MAX as i64 {
            Some(*i as i32)
        } else {
            None
        },
        _ => None,
    }
}

pub fn read_u32(c: &SqlCell) -> (res: Option<u32>)
    ensures
        res == cell_u32(c@),
{
    match c {
        SqlCell::Integer(i) => if 0 <= *i && *i <= u32::MAX as i64 {
            Some(*i as u32)
        } else {
            None
        },
        _ => None,
    }
}

/// `rusqlite::Row::get_ref`, the column as SQLite holds it; what it holds
/// depends on the database, so nothing is claimed of it.
#[verifier::external_body]
fn row_cell(row: &rusqlite::Row, i: usize) -> (res: SqlCell) {
    match row.get_ref(i) {
        Ok(rusqlite::types::ValueRef::Null) => SqlCell::Null,
        Ok(rusqlite::types::ValueRef::Integer(n)) => SqlCell::Integer(n),
        Ok(rusqlite::types::ValueRef::Real(_)) => SqlCell::Real,
        Ok(rusqlite::types::ValueRef::Text(b)) => SqlCell::Text(b.to_vec()),
        Ok(rusqlite::types::ValueRef::Blob(b)) => SqlCell::Blob(b.to_vec()),
        Err(_) => SqlCell::Missing,
    }
}

/// The first `ncols` columns of a result row.
pub fn row_cells(row: &rusqlite::Row, ncols: usize) -> (res: Vec<SqlCell>)
    ensures
        res.len() == ncols,
{
    let mut cells: Vec<SqlCell> = Vec::new();
    for i in 0..ncols
        invariant
            cells.len() == i,
    {
        cells.push(row_cell(row, i));
    }
    cells
}

/// SQLite's answer to one call.
pub enum SqlReply {
    /// The statement could not be prepared.
    Refused,
    /// SQLite reported an error while running it.
    Failed,
    /// It ran and changed this many rows.
    Changed(usize),
    /// It ran and gave these rows (a row SQLite failed to give is `None`).
    Rows(Seq<Option<Seq<SqlCellView>>>),
}

/// The way a call handed a statement to SQLite.
pub enum SqlMethod {
    /// One statement that changes the database (`Connection::execute`).
    Execute,
    /// A batch of statements without values (`Connection::execute_batch`).
    Batch,
    /// A query, prepared and then run for its rows (`Connection::prepare`
    /// and `Statement::query_map`).
    Query,
}

/// One call made to SQLite: how the statement was handed over, its text, the
/// values bound to its numbered parameters, and the answer. Its fields are
/// private, and only the functions of this file that call SQLite make one,
/// each adding it to the record of the connection it called.
pub struct SqlCall {
    method: SqlMethod,
    sql: Seq<char>,
    params: Seq<SqlValueView>,
    reply: SqlReply,
}

impl SqlCall {
    /// How the statement was handed over.
    pub closed spec fn method(self) -> SqlMethod {
        self.method
    }

    /// The statement handed over.
    pub closed spec fn sql(self) -> Seq<char> {
        self.sql
    }

    /// The values bound to its parameters.
    pub closed spec fn params(self) -> Seq<SqlValueView> {
        self.params
    }

    /// SQLite's answer.
    pub closed spec fn reply(self) -> SqlReply {
        self.reply
    }
}

spec fn record(method: SqlMethod, sql: Seq<char>, params: Seq<SqlValueView>, reply: SqlReply) -> SqlCall {
    SqlCall { method, sql, params, reply }
}

/// The answer to a statement that changes the database.
pub open spec fn change_reply(res: Result<usize, rusqlite::Error>) -> SqlReply {
    match res {
        Ok(n) => SqlReply::Changed(n),
        Err(_) => SqlReply::Failed,
    }
}

/// The answer to a batch of statements.
pub open spec fn batch_reply(res: Result<(), rusqlite::Error>) -> SqlReply {
    match res {
        Ok(_) => SqlReply::Changed(0),
        Err(_) => SqlReply::Failed,
    }
}

/// The answer to a query.
pub open spec fn rows_reply(res: Result<Vec<Option<Vec<SqlCell>>>, rusqlite::Error>) -> SqlReply {
    match res {
        Ok(rows) => SqlReply::Rows(rows_view(rows@)),
        Err(_) => SqlReply::Failed,
    }
}

/// `after` is `before` with one more call at its end.
pub open spec fn appended(before: Seq<SqlCall>, after: Seq<SqlCall>) -> bool {
    after.len() == before.len() + 1 && after.drop_last() == before
}

/// A connection to SQLite with the record of every call made through it.
pub struct Database<'a> {
    conn: &'a rusqlite::Connection,
    calls: Ghost<Seq<SqlCall>>,
}

impl<'a> Database<'a> {
    /// The connection the calls go to.
    pub closed spec fn connection(&self) -> &'a rusqlite::Connection {
        self.conn
    }

    /// The calls made so far, in order.
    pub closed spec fn calls(&self) -> Seq<SqlCall> {
        self.calls@
    }

    /// `conn`, with no calls made yet.
    pub fn new(conn: &'a rusqlite::Connection) -> (res: Self)
        ensures
            res.connection() == conn,
            res.calls() == Seq::<SqlCall>::empty(),
    {
        Database { conn, calls: Ghost(Seq::empty()) }
    }
}

/// A statement that SQLite has prepared, with the text it was prepared from
/// and the connection that prepared it.
pub struct Prepared<'a> {
    stmt: rusqlite::Statement<'a>,
    sql: Ghost<Seq<char>>,
    conn: Ghost<&'a rusqlite::Connection>,
}

impl<'a> Prepared<'a> {
    /// The connection that prepared the statement.
    pub closed spec fn connection(&self) -> &'a rusqlite::Connection {
        self.conn@
    }

    /// The text the statement was prepared from.
    pub closed spec fn sql(&self) -> Seq<char> {
        self.sql@
    }
}

/// `rusqlite::Connection::execute` with the values bound to the numbered
/// parameters in order. How many rows change, or whether SQLite fails,
/// depends on the database, so nothing is claimed of that; the call, with
/// its answer, is added to the connection's record.
#[verifier::external_body]
pub(crate) fn sqlite_execute(db: &mut Database, sql: &str, params: &Vec<SqlValue>) -> (res: Result<
    usize,
    rusqlite::Error,
>)
    ensures
        final(db).connection() == old(db).connection(),
        appended(old(db).calls(), final(db).calls()),
        final(db).calls().last().method() == SqlMethod::Execute,
        final(db).calls().last().sql() == sql@,
        final(db).calls().last().params() == sql_values_view(params@),
        final(db).calls().last().reply() == change_reply(res),
{
    let r = db.conn.execute(sql, rusqlite::params_from_iter(params.iter().map(to_sqlite_value)));
    db.calls = Ghost(db.calls@.push(record(SqlMethod::Execute, sql@, sql_values_view(params@), change_reply(r))));
    r
}

/// `rusqlite::Connection::execute_batch`. Its outcome depends on the
/// database, so nothing is claimed of it; the call (a text without values),
/// with its answer, is added to the connection's record.
#[verifier::external_body]
pub(crate) fn sqlite_execute_batch(db: &mut Database, sql: &str) -> (res: Result<
    (),
    rusqlite::Error,
>)
    ensures
        final(db).connection() == old(db).connection(),
        appended(old(db).calls(), final(db).calls()),
        final(db).calls().last().method() == SqlMethod::Batch,
        final(db).calls().last().sql() == sql@,
        final(db).calls().last().params() == Seq::<SqlValueView>::empty(),
        final(db).calls().last().reply() == batch_reply(res),
{
    let r = db.conn.execute_batch(sql);
    db.calls = Ghost(db.calls@.push(record(SqlMethod::Batch, sql@, Seq::empty(), batch_reply(r))));
    r
}

/// `rusqlite::Connection::prepare`. Whether SQLite accepts the statement
/// depends on the database's tables, so nothing is claimed of it. A prepared
/// statement carries its text; a refusal is added to the connection's
/// record, as a call of that text without values.
#[verifier::external_body]
pub(crate) fn sqlite_prepare<'a>(db: &mut Database<'a>, sql: &str) -> (res: Result<
    Prepared<'a>,
    rusqlite::Error,
>)
    ensures
        final(db).connection() == old(db).connection(),
        res matches Ok(p) ==> p.sql() == sql@ && final(db).calls() == old(db).calls(),
        res matches Ok(p) ==> p.connection() == old(db).connection(),
        res is Err ==> {
            &&& appended(old(db).calls(), final(db).calls())
            &&& final(db).calls().last().method() == SqlMethod::Query
            &&& final(db).calls().last().sql() == sql@
            &&& final(db).calls().last().params() == Seq::<SqlValueView>::empty()
            &&& final(db).calls().last().reply() == SqlReply::Refused
        },
{
    let conn: &'a rusqlite::Connection = db.conn;
    match conn.prepare(sql) {
        Ok(stmt) => Ok(Prepared { stmt, sql: Ghost(sql@), conn: Ghost(conn) }),
        Err(e) => {
            db.calls = Ghost(db.calls@.push(record(SqlMethod::Query, sql@, Seq::empty(), SqlReply::Refused)));
            Err(e)
        },
    }
}

/// `rusqlite::Statement::query_map` with the values bound in order, each row
/// read as its first `ncols` columns; a row that SQLite failed to give is
/// `None`. Which rows come back depends on the database; each row given has
/// `ncols` columns, and the call, with the rows, is added to the
/// connection's record.
#[verifier::external_body]
pub(crate) fn sqlite_query_rows(
    db: &mut Database,
    stmt: &mut Prepared,
    params: &Vec<SqlValue>,
    ncols: usize,
) -> (res: Result<Vec<Option<Vec<SqlCell>>>, rusqlite::Error>)
    requires
        old(stmt).connection() == old(db).connection(),
    ensures
        final(db).connection() == old(db).connection(),
        appended(old(db).calls(), final(db).calls()),
        final(db).calls().last().method() == SqlMethod::Query,
        final(db).calls().last().sql() == old(stmt).sql(),
        final(db).calls().last().params() == sql_values_view(params@),
        final(db).calls().last().reply() == rows_reply(res),
        res matches Ok(rows) ==> forall|i: int|
            0 <= i < rows.len() ==> (#[trigger] rows@[i] matches Some(c) ==> c.len() == ncols),
{
    let r = stmt.stmt.query_map(
        rusqlite::params_from_iter(params.iter().map(to_sqlite_value)),
        |row| Ok(row_cells(row, ncols)),
    ).map(|rows| rows.map(|r| r.ok()).collect());
    db.calls = Ghost(db.calls@.push(record(SqlMethod::Query, stmt.sql@, sql_values_view(params@), rows_reply(r))));
    r
}

/// The `rusqlite::types::Value` that a parameter value binds, variant for
/// variant.
#[verifier::external_body]
fn to_sqlite_value(v: &SqlValue) -> (res: rusqlite::types::Value) {
    match v {
        SqlValue::Null => rusqlite::types::Value::Null,
        SqlValue::Integer(i) => rusqlite::types::Value::Integer(*i),
        SqlValue::Text(s) => rusqlite::types::Value::Text(s.clone()),
    }
}

} // verus!
