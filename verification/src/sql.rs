//! The calls into SQLite, through `rusqlite`, and the record of what the
//! library sent and what came back.
//!
//! What a database answers depends on what is stored on disk, so nothing is
//! claimed of the answers themselves. Every call is written into the record
//! of the `VotingDb` it went through: the SQL text, its arguments, and the
//! answer. The functions of the library state their effect over that record.

use vstd::prelude::*;

verus! {

/// A connection to an SQLite database (`rusqlite::Connection`).
#[verifier::external_type_specification]
#[verifier::external_body]
pub struct ExConnection(rusqlite::Connection);

/// An error reported by SQLite or by `rusqlite` (`rusqlite::Error`).
#[verifier::external_type_specification]
#[verifier::external_body]
pub struct ExSqlError(rusqlite::Error);

/// A value sent to or read from SQLite.
pub enum SqlValue {
    Text(Seq<char>),
    Int(int),
    Bool(bool),
}

/// What SQLite answered to one statement.
pub enum SqlReply {
    /// A statement that changes the database: the number of rows it changed,
    /// or `None` where it failed.
    Changed(Option<nat>),
    /// A query for one value: the value, or `None` where it failed.
    Value(Option<SqlValue>),
    /// A query for rows: each row's values (`None` for a row that could not
    /// be read), or `None` where the query failed.
    Rows(Option<Seq<Option<Seq<SqlValue>>>>),
}

/// One statement sent to SQLite: its text, its arguments and the answer.
pub struct SqlEvent {
    pub sql: Seq<char>,
    pub args: Seq<SqlValue>,
    pub reply: SqlReply,
}

/// Arguments of an SQL statement, as values.
pub trait SqlArgs {
    spec fn args_view(&self) -> Seq<SqlValue>;
}

impl SqlArgs for () {
    open spec fn args_view(&self) -> Seq<SqlValue> {
        Seq::empty()
    }
}

impl<'a> SqlArgs for (&'a str,) {
    open spec fn args_view(&self) -> Seq<SqlValue> {
        seq![SqlValue::Text(self.0@)]
    }
}

impl<'a, 'b> SqlArgs for (&'a str, &'b str) {
    open spec fn args_view(&self) -> Seq<SqlValue> {
        seq![SqlValue::Text(self.0@), SqlValue::Text(self.1@)]
    }
}

impl<'a, 'b, 'c> SqlArgs for (&'a str, &'b str, &'c str) {
    open spec fn args_view(&self) -> Seq<SqlValue> {
        seq![SqlValue::Text(self.0@), SqlValue::Text(self.1@), SqlValue::Text(self.2@)]
    }
}

impl<'a, 'b> SqlArgs for (&'a str, &'b str, bool) {
    open spec fn args_view(&self) -> Seq<SqlValue> {
        seq![SqlValue::Text(self.0@), SqlValue::Text(self.1@), SqlValue::Bool(self.2)]
    }
}

impl SqlArgs for (i32,) {
    open spec fn args_view(&self) -> Seq<SqlValue> {
        seq![SqlValue::Int(self.0 as int)]
    }
}

impl SqlArgs for (i32, i32) {
    open spec fn args_view(&self) -> Seq<SqlValue> {
        seq![SqlValue::Int(self.0 as int), SqlValue::Int(self.1 as int)]
    }
}

/// A single value read from SQLite, as a value.
pub trait SqlCell {
    spec fn cell_view(&self) -> SqlValue;
}

impl SqlCell for i32 {
    open spec fn cell_view(&self) -> SqlValue {
        SqlValue::Int(*self as int)
    }
}

impl SqlCell for bool {
    open spec fn cell_view(&self) -> SqlValue {
        SqlValue::Bool(*self)
    }
}

impl SqlCell for String {
    open spec fn cell_view(&self) -> SqlValue {
        SqlValue::Text(self@)
    }
}

/// A row read from SQLite, as its values.
pub trait SqlRow {
    spec fn row_view(&self) -> Seq<SqlValue>;
}

impl SqlRow for (String,) {
    open spec fn row_view(&self) -> Seq<SqlValue> {
        seq![SqlValue::Text(self.0@)]
    }
}

impl SqlRow for (String, String, String, i32) {
    open spec fn row_view(&self) -> Seq<SqlValue> {
        seq![SqlValue::Text(self.0@), SqlValue::Text(self.1@), SqlValue::Text(self.2@), SqlValue::Int(self.3 as int)]
    }
}

/// The answer recorded for a query for one value.
pub open spec fn value_reply<T: SqlCell>(r: Result<T, rusqlite::Error>) -> SqlReply {
    match r {
        Ok(v) => SqlReply::Value(Some(v.cell_view())),
        Err(_) => SqlReply::Value(None),
    }
}

/// The values recorded for one row read, or `None` for a row that could
/// not be read.
pub open spec fn row_reply<T: SqlRow>(x: Result<T, rusqlite::Error>) -> Option<Seq<SqlValue>> {
    match x {
        Ok(t) => Some(t.row_view()),
        Err(_) => None,
    }
}

/// The answer recorded for a query for rows matches what was read: one entry
/// for each row, in order, or the failure.
pub open spec fn rows_reply_matches<T: SqlRow>(reply: SqlReply, r: Result<Vec<Result<T, rusqlite::Error>>, rusqlite::Error>) -> bool {
    match r {
        Ok(rows) => reply matches SqlReply::Rows(Some(rs)) && rs.len() == rows@.len()
            && forall|i: int| 0 <= i < rs.len() ==> rs[i] == row_reply(#[trigger] rows@[i]),
        Err(_) => reply == SqlReply::Rows(None),
    }
}

/// The answer recorded for a statement that changes the database.
pub open spec fn changed_reply(r: Result<usize, rusqlite::Error>) -> SqlReply {
    match r {
        Ok(n) => SqlReply::Changed(Some(n as nat)),
        Err(_) => SqlReply::Changed(None),
    }
}

/// The voting machine's database: a connection to SQLite, the path of the
/// database it was opened on, and the record of every statement the library
/// sent through it, in order.
pub struct VotingDb {
    conn: rusqlite::Connection,
    path: Ghost<Seq<char>>,
    log: Ghost<Seq<SqlEvent>>,
}

impl VotingDb {
    /// The statements sent through this database so far, with their answers.
    pub closed spec fn sent(&self) -> Seq<SqlEvent> {
        self.log@
    }

    /// The path the connection was opened on.
    pub closed spec fn opened_at(&self) -> Seq<char> {
        self.path@
    }

    /// The connection to SQLite underneath.
    pub fn connection(&self) -> &rusqlite::Connection {
        &self.conn
    }
}

/// Opens (and creates if needed) the database at `path`, through
/// `rusqlite::Connection::open`, with nothing sent through it yet. Whether
/// it succeeds depends on the file system, so that is not claimed; an opened
/// database records `path` as the path it was opened on.
#[verifier::external_body]
pub(crate) fn open_database(path: &str) -> (r: Result<VotingDb, rusqlite::Error>)
    ensures
        r matches Ok(db) ==> db.opened_at() == path@ && db.sent() == Seq::<SqlEvent>::empty(),
{
    match rusqlite::Connection::open(path) {
        Ok(conn) => Ok(VotingDb { conn, path: Ghost(path@), log: Ghost(Seq::empty()) }),
        Err(e) => Err(e),
    }
}

/// Runs one SQL statement with its arguments, through
/// `rusqlite::Connection::execute`. The statement, its arguments and the
/// number of rows changed (or the failure) are added to the record; what the
/// database does is not claimed.
#[verifier::external_body]
pub(crate) fn execute_sql<P: rusqlite::Params + SqlArgs>(db: &mut VotingDb, sql: &str, params: P) -> (r: Result<usize, rusqlite::Error>)
    ensures
        final(db).opened_at() == old(db).opened_at(),
        final(db).sent() == old(db).sent().push(SqlEvent { sql: sql@, args: params.args_view(), reply: changed_reply(r) }),
{
    db.conn.execute(sql, params)
}

/// Runs a query and reads the first column of its first row, through
/// `rusqlite::Connection::query_row` (with `rusqlite::Row::get`). The query,
/// its arguments and the value read (or the failure) are added to the record.
#[verifier::external_body]
pub(crate) fn query_value<T: rusqlite::types::FromSql + SqlCell, P: rusqlite::Params + SqlArgs>(db: &mut VotingDb, sql: &str, params: P) -> (r: Result<T, rusqlite::Error>)
    ensures
        final(db).opened_at() == old(db).opened_at(),
        final(db).sent() == old(db).sent().push(SqlEvent { sql: sql@, args: params.args_view(), reply: value_reply(r) }),
{
    db.conn.query_row(sql, params, |row| row.get(0))
}

/// Prepares a query and reads every row as a tuple of its columns, through
/// `rusqlite::Connection::prepare` and `rusqlite::Statement::query_map`; a row
/// that cannot be read comes back as an error in its place. The query, its
/// arguments and the rows read (or the failure) are added to the record.
#[verifier::external_body]
pub(crate) fn query_rows<T: SqlRow, P: rusqlite::Params + SqlArgs>(db: &mut VotingDb, sql: &str, params: P) -> (r: Result<Vec<Result<T, rusqlite::Error>>, rusqlite::Error>)
    where T: for<'a> std::convert::TryFrom<&'a rusqlite::Row<'a>, Error = rusqlite::Error>,
    ensures
        final(db).opened_at() == old(db).opened_at(),
        final(db).sent().len() > 0,
        final(db).sent() == old(db).sent().push(SqlEvent { sql: sql@, args: params.args_view(), reply: final(db).sent().last().reply }),
        rows_reply_matches(final(db).sent().last().reply, r),
{
    let mut stmt = db.conn.prepare(sql)?;
    let rows = stmt.query_map(params, |row| T::try_from(row))?;
    Ok(rows.collect())
}

} // verus!
